//! Job submission: the notice emitted before submission and the
//! classification of the remote system's answer to a job-creation request.

use vstd::prelude::*;

use crate::error::Error;
use crate::model::JobId;
use crate::protocol::CREATED_STATUS;
use crate::text::{concat2, contains_seq, lemma_concat_contains};

verus! {

/// The human-readable notice emitted before a job is submitted.
pub fn start_job_notice(replica_set: &str) -> (r: String)
    ensures
        r@ == "Starting FTDC data job for ReplicaSet: "@ + replica_set@,
{
    concat2("Starting FTDC data job for ReplicaSet: ", replica_set)
}

/// The message of a rejected submission: the raw response body behind a
/// fixed preamble.
pub open spec fn create_job_error_message(body: Seq<char>) -> Seq<char> {
    "Something went wrong creating the FTDC job: "@ + body
}

/// Classifies the answer to a job submission. Only a "created" status yields
/// the job handle, and the identifier decoded from the body is returned
/// exactly as decoded. Any other status is a `CreateJob` failure carrying
/// the raw response body; a "created" response whose body did not decode is
/// a `Json` failure carrying the decoder's message.
pub fn evaluate_create_job_response(
    status: u16,
    raw_body: &str,
    decoded: Result<JobId, String>,
) -> (r: Result<JobId, Error>)
    ensures
        status == CREATED_STATUS && decoded is Ok ==> r == Ok::<JobId, Error>(decoded->Ok_0),
        status == CREATED_STATUS && decoded is Err ==> (r matches Err(Error::Json(m)) && m@
            == decoded->Err_0@),
        status != CREATED_STATUS ==> (r matches Err(Error::CreateJob(m)) && m@
            == create_job_error_message(raw_body@)),
{
    if status == CREATED_STATUS {
        match decoded {
            Ok(id) => Ok(id),
            Err(m) => Err(Error::Json(m)),
        }
    } else {
        Err(Error::CreateJob(concat2("Something went wrong creating the FTDC job: ", raw_body)))
    }
}

/// The failure message of a rejected submission carries the raw response
/// body verbatim, as a contiguous substring.
pub proof fn lemma_create_job_message_contains_body(body: Seq<char>)
    ensures
        contains_seq(create_job_error_message(body), body),
{
    lemma_concat_contains("Something went wrong creating the FTDC job: "@, body, Seq::empty());
    assert("Something went wrong creating the FTDC job: "@ + body + Seq::<char>::empty()
        =~= create_job_error_message(body));
}

} // verus!
