//! Job polling: classification of status snapshots into the poll loop's
//! decisions, the loop over an injected run of snapshots, and the progress
//! messages of each transition.
//!
//! The loop re-queries on `InProgress` only, after a fixed interval; every
//! other state ends it. The loop itself has no bound: a job that stays in
//! progress forever keeps its caller waiting.

use vstd::prelude::*;

use crate::error::Error;
use crate::model::{JobState, JobStatus};
use crate::protocol::OK_STATUS;
use crate::text::{concat2, concat3, contains_seq, lemma_concat_contains};

verus! {

/// The fixed wait between two status queries, in milliseconds.
pub const POLL_INTERVAL_MILLIS: u64 = 3000;

/// What the poll loop does after one status query.
#[derive(Debug, Clone, PartialEq, Eq)]
pub enum PollStep {
    /// The job is still in progress: wait the fixed interval, query again.
    Retry,
    /// The job reached a success terminal state: download from this URL.
    Done(String),
    /// The lifecycle is aborted with this error.
    Failed(Error),
}

/// The message of the failure that a failure or expiry terminal state
/// raises. The specific sub-reason is not surfaced.
pub open spec fn mongo_job_message() -> Seq<char> {
    "Failure while job creation. Please try again."@
}

/// The message of a rejected status query: the raw response body behind a
/// fixed preamble.
pub open spec fn check_status_error_message(body: Seq<char>) -> Seq<char> {
    "Something went wrong checking the jobs status. Try again later. Error message: "@ + body
}

/// Whether `step` is the decision that one OK status snapshot dictates:
/// retry on `InProgress`; the snapshot's download URL on `Success` or
/// `MarkedForExpiry`; a `MongoJob` failure on `Failure` or `Expired`; an
/// `InvalidJobState` failure carrying the raw string on an unrecognized
/// status string.
pub open spec fn step_matches_snapshot(step: PollStep, snapshot: JobStatus) -> bool {
    match JobState::of_str(snapshot.status@) {
        Some(JobState::InProgress) => step == PollStep::Retry,
        Some(JobState::Success) => step matches PollStep::Done(u) && u@ == snapshot.download_url@,
        Some(JobState::MarkedForExpiry) => step matches PollStep::Done(u) && u@
            == snapshot.download_url@,
        Some(JobState::Failure) => step matches PollStep::Failed(Error::MongoJob(m)) && m@
            == mongo_job_message(),
        Some(JobState::Expired) => step matches PollStep::Failed(Error::MongoJob(m)) && m@
            == mongo_job_message(),
        None => step matches PollStep::Failed(Error::InvalidJobState(m)) && m@
            == snapshot.status@,
    }
}

/// Classifies one OK status snapshot into the poll loop's decision.
pub fn classify_snapshot(snapshot: &JobStatus) -> (r: PollStep)
    ensures
        step_matches_snapshot(r, *snapshot),
{
    match JobState::from_str(snapshot.status.as_str()) {
        Ok(JobState::InProgress) => PollStep::Retry,
        Ok(JobState::Success) => PollStep::Done(snapshot.download_url.clone()),
        Ok(JobState::MarkedForExpiry) => PollStep::Done(snapshot.download_url.clone()),
        Ok(JobState::Failure) => PollStep::Failed(
            Error::MongoJob("Failure while job creation. Please try again.".to_owned()),
        ),
        Ok(JobState::Expired) => PollStep::Failed(
            Error::MongoJob("Failure while job creation. Please try again.".to_owned()),
        ),
        Err(e) => PollStep::Failed(e),
    }
}

/// Classifies the answer to one status query. A non-OK transport status is a
/// `CheckJobStatus` failure carrying the raw response body; an OK response
/// whose body did not decode is a `Json` failure carrying the decoder's
/// message; an OK snapshot decides as `classify_snapshot` does.
pub fn evaluate_poll_response(
    status: u16,
    raw_body: &str,
    decoded: Result<JobStatus, String>,
) -> (r: PollStep)
    ensures
        status == OK_STATUS && decoded is Ok ==> step_matches_snapshot(r, decoded->Ok_0),
        status == OK_STATUS && decoded is Err ==> (r matches PollStep::Failed(Error::Json(m))
            && m@ == decoded->Err_0@),
        status != OK_STATUS ==> (r matches PollStep::Failed(Error::CheckJobStatus(m)) && m@
            == check_status_error_message(raw_body@)),
{
    if status == OK_STATUS {
        match decoded {
            Ok(snapshot) => classify_snapshot(&snapshot),
            Err(m) => PollStep::Failed(Error::Json(m)),
        }
    } else {
        PollStep::Failed(
            Error::CheckJobStatus(
                concat2(
                    "Something went wrong checking the jobs status. Try again later. Error message: ",
                    raw_body,
                ),
            ),
        )
    }
}

/// The index of the first snapshot that does not read `InProgress`: the
/// query at which the poll loop stops.
pub open spec fn first_terminal(snapshots: Seq<JobStatus>) -> Option<int>
    decreases snapshots.len(),
{
    if snapshots.len() == 0 {
        None
    } else if JobState::of_str(snapshots[0].status@) != Some(JobState::InProgress) {
        Some(0)
    } else {
        match first_terminal(snapshots.drop_first()) {
            Some(i) => Some(i + 1),
            None => None,
        }
    }
}

/// The poll loop over an injected run of OK snapshots: queries one snapshot
/// after the other, retrying on `InProgress` only, until one dictates a
/// terminal step. Returns how many queries were made and the terminal step,
/// or `None` if the run ended while the job was still in progress.
pub fn poll_snapshots(snapshots: &Vec<JobStatus>) -> (r: (usize, Option<PollStep>))
    ensures
        match first_terminal(snapshots@) {
            Some(i) => r.0 == i + 1 && r.1 is Some && step_matches_snapshot(
                r.1->0,
                snapshots@[i],
            ),
            None => r.0 == snapshots@.len() && r.1 is None,
        },
{
    let n = snapshots.len();
    let mut i: usize = 0;
    while i < n
        invariant
            n == snapshots@.len(),
            i <= n,
            forall|j: int|
                0 <= j < i ==> JobState::of_str(#[trigger] snapshots@[j].status@) == Some(
                    JobState::InProgress,
                ),
        decreases n - i,
    {
        let step = classify_snapshot(&snapshots[i]);
        match step {
            PollStep::Retry => {
                i = i + 1;
            },
            _ => {
                proof {
                    lemma_first_terminal_at(snapshots@, i as int);
                }
                return (i + 1, Some(step));
            },
        }
    }
    proof {
        lemma_first_terminal_none(snapshots@);
    }
    (n, None)
}

/// With every snapshot before `i` in progress and snapshot `i` not, the
/// poll loop stops exactly at query `i + 1`.
proof fn lemma_first_terminal_at(snapshots: Seq<JobStatus>, i: int)
    requires
        0 <= i < snapshots.len(),
        JobState::of_str(snapshots[i].status@) != Some(JobState::InProgress),
        forall|j: int|
            0 <= j < i ==> JobState::of_str(#[trigger] snapshots[j].status@) == Some(
                JobState::InProgress,
            ),
    ensures
        first_terminal(snapshots) == Some(i),
    decreases i,
{
    if i > 0 {
        assert(forall|j: int|
            0 <= j < snapshots.len() - 1 ==> #[trigger] snapshots.drop_first()[j] == snapshots[j
                + 1]);
        lemma_first_terminal_at(snapshots.drop_first(), i - 1);
    }
}

/// With every snapshot in progress, the poll loop never stops.
proof fn lemma_first_terminal_none(snapshots: Seq<JobStatus>)
    requires
        forall|j: int|
            0 <= j < snapshots.len() ==> JobState::of_str(#[trigger] snapshots[j].status@) == Some(
                JobState::InProgress,
            ),
    ensures
        first_terminal(snapshots) is None,
    decreases snapshots.len(),
{
    if snapshots.len() > 0 {
        assert(forall|j: int|
            0 <= j < snapshots.len() - 1 ==> #[trigger] snapshots.drop_first()[j] == snapshots[j
                + 1]);
        lemma_first_terminal_none(snapshots.drop_first());
    }
}

/// A run of exactly two in-progress snapshots followed by a success snapshot
/// ends the loop at the third query — two queries beyond the first — and
/// every step that the success snapshot dictates carries its download URL.
pub proof fn lemma_two_retries_then_success(snapshots: Seq<JobStatus>)
    requires
        snapshots.len() == 3,
        JobState::of_str(snapshots[0].status@) == Some(JobState::InProgress),
        JobState::of_str(snapshots[1].status@) == Some(JobState::InProgress),
        JobState::of_str(snapshots[2].status@) == Some(JobState::Success),
    ensures
        first_terminal(snapshots) == Some(2int),
        forall|step: PollStep|
            #[trigger] step_matches_snapshot(step, snapshots[2]) ==> (step matches PollStep::Done(
                u,
            ) && u@ == snapshots[2].download_url@),
{
    lemma_first_terminal_at(snapshots, 2);
}

/// A snapshot in a failure or expiry terminal state dictates a `MongoJob`
/// failure — never the download URL.
pub proof fn lemma_terminal_failure_never_url(step: PollStep, snapshot: JobStatus)
    requires
        JobState::of_str(snapshot.status@) == Some(JobState::Failure) || JobState::of_str(
            snapshot.status@,
        ) == Some(JobState::Expired),
        step_matches_snapshot(step, snapshot),
    ensures
        step matches PollStep::Failed(e) && (e matches Error::MongoJob(m) && m@
            == mongo_job_message()),
        !(step is Done),
{
}

/// A snapshot whose status string is unrecognized dictates an
/// `InvalidJobState` failure whose message contains the raw string — it is
/// never the in-progress retry path.
pub proof fn lemma_unrecognized_status_rejected(step: PollStep, snapshot: JobStatus)
    requires
        JobState::of_str(snapshot.status@) is None,
        step_matches_snapshot(step, snapshot),
    ensures
        step matches PollStep::Failed(e) && (e matches Error::InvalidJobState(m) && m@
            == snapshot.status@ && contains_seq(m@, snapshot.status@)),
        step != PollStep::Retry,
{
    let raw = snapshot.status@;
    lemma_concat_contains(Seq::empty(), raw, Seq::empty());
    assert(Seq::<char>::empty() + raw + Seq::<char>::empty() =~= raw);
}

/// The failure message of a rejected status query carries the raw response
/// body verbatim, as a contiguous substring.
pub proof fn lemma_check_status_message_contains_body(body: Seq<char>)
    ensures
        contains_seq(check_status_error_message(body), body),
{
    lemma_concat_contains(
        "Something went wrong checking the jobs status. Try again later. Error message: "@,
        body,
        Seq::empty(),
    );
    assert("Something went wrong checking the jobs status. Try again later. Error message: "@
        + body + Seq::<char>::empty() =~= check_status_error_message(body));
}

/// The spinner message shown while the job is still in progress.
pub fn poll_progress_message(job_id: &str) -> (r: String)
    ensures
        r@ == "IN_PROGRESS – job id: "@ + job_id@,
{
    concat2("IN_PROGRESS – job id: ", job_id)
}

/// The spinner message shown when the job reaches a success terminal state.
pub fn poll_success_message(job_id: &str) -> (r: String)
    ensures
        r@ == "SUCCESS – FTDC data for job with id "@ + job_id@ + " will be downloaded."@,
{
    concat3("SUCCESS – FTDC data for job with id ", job_id, " will be downloaded.")
}

/// The spinner message shown when the job reaches a failure terminal state.
pub fn poll_failure_message(job_id: &str) -> (r: String)
    ensures
        r@ == "FAILURE – Something went wrong creating job with id "@ + job_id@ + "."@,
{
    concat3("FAILURE – Something went wrong creating job with id ", job_id, ".")
}

/// The message under which the status-check spinner is created.
pub fn check_status_spinner_message(job_id: &str) -> (r: String)
    ensures
        r@ == "Check job status of job with id: "@ + job_id@,
{
    concat2("Check job status of job with id: ", job_id)
}

} // verus!
