//! Resource resolution: mapping a user-supplied replica-set or shard name
//! fragment to the exact replica-set name of the first matching process
//! descriptor.

use vstd::prelude::*;

use crate::error::Error;
use crate::model::{Clusters, Shard};
use crate::protocol::OK_STATUS;
use crate::text::{concat2, contains_seq, contains_substr, lemma_concat_contains, str_eq};

verus! {

/// Whether one descriptor identifies the requested replica set: it carries a
/// replica-set name, and either its alias contains the fragment as a
/// substring or its replica-set name equals the fragment exactly.
pub open spec fn shard_matches(s: Shard, fragment: Seq<char>) -> bool {
    &&& s.replica_set_name is Some
    &&& (contains_seq(s.user_alias@, fragment) || s.replica_set_name->0@ == fragment)
}

/// The outcome of scanning the descriptors in listing order: the replica-set
/// name of the first matching descriptor, or nothing. Ties are not detected:
/// a later match is never preferred.
pub open spec fn resolution(shards: Seq<Shard>, fragment: Seq<char>) -> Option<Seq<char>>
    decreases shards.len(),
{
    if shards.len() == 0 {
        None
    } else if shard_matches(shards[0], fragment) {
        Some(shards[0].replica_set_name->0@)
    } else {
        resolution(shards.drop_first(), fragment)
    }
}

/// The message of a failed resolution carries the fragment verbatim.
pub open spec fn no_replica_set_message(fragment: Seq<char>) -> Seq<char> {
    "No replica set found that corresponds to "@ + fragment
}

/// Selects the replica-set name that `fragment` identifies among the fetched
/// descriptors. The first matching descriptor in listing order wins; with no
/// matching descriptor (in particular on an empty listing) the resolution
/// fails with `ReplicaSetNotFound`.
pub fn resolve_replica_set(clusters: &Clusters, fragment: &str) -> (r: Result<String, Error>)
    ensures
        match resolution(clusters.results@, fragment@) {
            Some(name) => r matches Ok(n) && n@ == name,
            None => r matches Err(Error::ReplicaSetNotFound(m)) && m@ == no_replica_set_message(
                fragment@,
            ),
        },
{
    let n = clusters.results.len();
    let mut i: usize = 0;
    proof {
        assert(clusters.results@.skip(0) =~= clusters.results@);
    }
    while i < n
        invariant
            n == clusters.results@.len(),
            i <= n,
            forall|j: int| 0 <= j < i ==> !shard_matches(#[trigger] clusters.results@[j], fragment@),
            resolution(clusters.results@, fragment@) == resolution(
                clusters.results@.skip(i as int),
                fragment@,
            ),
        decreases n - i,
    {
        let shard = &clusters.results[i];
        match &shard.replica_set_name {
            Some(rs_name) => {
                if contains_substr(shard.user_alias.as_str(), fragment) || str_eq(
                    rs_name.as_str(),
                    fragment,
                ) {
                    proof {
                        assert(clusters.results@.skip(i as int)[0] == clusters.results@[i as int]);
                        assert(shard_matches(clusters.results@[i as int], fragment@));
                    }
                    return Ok(rs_name.clone());
                }
            },
            None => {},
        }
        proof {
            assert(!shard_matches(clusters.results@[i as int], fragment@));
            assert(clusters.results@.skip(i as int)[0] == clusters.results@[i as int]);
            assert(clusters.results@.skip(i as int).drop_first() =~= clusters.results@.skip(
                i as int + 1,
            ));
        }
        i = i + 1;
    }
    proof {
        assert(clusters.results@.skip(n as int) =~= Seq::<Shard>::empty());
    }
    Err(Error::ReplicaSetNotFound(concat2("No replica set found that corresponds to ", fragment)))
}

/// The message of a rejected listing request: the raw response body behind a
/// fixed preamble.
pub open spec fn listing_error_message(body: Seq<char>) -> Seq<char> {
    "Something went wrong trying to get the list of running processes. Please try later. Currently running processes: "@
        + body
}

/// Classifies the answer to the process-listing request and resolves the
/// fragment against it. A non-OK transport status is a `ReplicaSetNotFound`
/// failure carrying the raw response body; an OK body that did not decode is
/// a `Json` failure carrying the decoder's message; an OK listing is
/// resolved as `resolve_replica_set` does.
pub fn evaluate_processes_response(
    status: u16,
    raw_body: &str,
    decoded: Result<Clusters, String>,
    fragment: &str,
) -> (r: Result<String, Error>)
    ensures
        status == OK_STATUS && decoded is Ok ==> (match resolution(
            decoded->Ok_0.results@,
            fragment@,
        ) {
            Some(name) => r matches Ok(n) && n@ == name,
            None => r matches Err(Error::ReplicaSetNotFound(m)) && m@ == no_replica_set_message(
                fragment@,
            ),
        }),
        status == OK_STATUS && decoded is Err ==> (r matches Err(Error::Json(m)) && m@
            == decoded->Err_0@),
        status != OK_STATUS ==> (r matches Err(Error::ReplicaSetNotFound(m)) && m@
            == listing_error_message(raw_body@)),
{
    if status == OK_STATUS {
        match decoded {
            Ok(clusters) => resolve_replica_set(&clusters, fragment),
            Err(m) => Err(Error::Json(m)),
        }
    } else {
        Err(
            Error::ReplicaSetNotFound(
                concat2(
                    "Something went wrong trying to get the list of running processes. Please try later. Currently running processes: ",
                    raw_body,
                ),
            ),
        )
    }
}

/// With at least one matching descriptor, resolution returns the replica-set
/// name of the first one: the name of the earliest index whose descriptor
/// matches, whatever stands before or after it.
pub proof fn lemma_resolution_first_match(shards: Seq<Shard>, fragment: Seq<char>, i: int)
    requires
        0 <= i < shards.len(),
        shard_matches(shards[i], fragment),
        forall|j: int| 0 <= j < i ==> !shard_matches(#[trigger] shards[j], fragment),
    ensures
        resolution(shards, fragment) == Some(shards[i].replica_set_name->0@),
    decreases i,
{
    if i == 0 {
    } else {
        assert(!shard_matches(shards[0], fragment));
        assert(shards.drop_first()[i - 1] == shards[i]);
        assert(forall|j: int|
            0 <= j < i - 1 ==> #[trigger] shards.drop_first()[j] == shards[j + 1]);
        lemma_resolution_first_match(shards.drop_first(), fragment, i - 1);
    }
}

/// With no matching descriptor — in particular on an empty listing — the
/// resolution is empty, so `resolve_replica_set` fails with
/// `ReplicaSetNotFound`.
pub proof fn lemma_resolution_no_match(shards: Seq<Shard>, fragment: Seq<char>)
    requires
        forall|j: int| 0 <= j < shards.len() ==> !shard_matches(#[trigger] shards[j], fragment),
    ensures
        resolution(shards, fragment) is None,
    decreases shards.len(),
{
    if shards.len() > 0 {
        assert(forall|j: int|
            0 <= j < shards.len() - 1 ==> #[trigger] shards.drop_first()[j] == shards[j + 1]);
        lemma_resolution_no_match(shards.drop_first(), fragment);
    }
}

/// The failure message of a resolution carries the input fragment verbatim,
/// as a contiguous substring.
pub proof fn lemma_no_replica_set_message_contains_fragment(fragment: Seq<char>)
    ensures
        contains_seq(no_replica_set_message(fragment), fragment),
{
    lemma_concat_contains("No replica set found that corresponds to "@, fragment, Seq::empty());
    assert("No replica set found that corresponds to "@ + fragment + Seq::<char>::empty()
        =~= no_replica_set_message(fragment));
}

} // verus!
