//! The data model of the job lifecycle: process descriptors, the job-creation
//! request, the job identifier and the status snapshots returned by polling.

use vstd::prelude::*;

use crate::error::Error;
use crate::text::str_eq;

verus! {

/// One process descriptor of the group listing. A descriptor with an absent
/// `replica_set_name` can never be the target of a job.
#[derive(Debug, Clone)]
pub struct Shard {
    pub user_alias: String,
    pub kind_name: String,
    pub replica_set_name: Option<String>,
}

/// The group listing: every process descriptor of the group, in listing
/// order.
#[derive(Debug, Clone)]
pub struct Clusters {
    pub results: Vec<Shard>,
}

/// The opaque identifier of a submitted log-collection job: the sole
/// correlation key for polling and download.
#[derive(Debug, Clone, PartialEq, Eq)]
pub struct JobId {
    pub id: String,
}

/// One status snapshot of a job, superseded by the next poll.
#[derive(Debug, Clone)]
pub struct JobStatus {
    pub id: String,
    pub download_url: String,
    pub status: String,
}

/// The state of a job. `InProgress` is the only non-terminal state; all
/// others end the poll loop.
#[derive(Debug, Clone, Copy, PartialEq, Eq, Structural)]
pub enum JobState {
    Success,
    Failure,
    InProgress,
    MarkedForExpiry,
    Expired,
}

impl JobState {
    /// The job state that a status string of the remote API denotes, if any.
    pub open spec fn of_str(s: Seq<char>) -> Option<JobState> {
        if s == "SUCCESS"@ {
            Some(JobState::Success)
        } else if s == "FAILURE"@ {
            Some(JobState::Failure)
        } else if s == "IN_PROGRESS"@ {
            Some(JobState::InProgress)
        } else if s == "MARKED_FOR_EXPIRY"@ {
            Some(JobState::MarkedForExpiry)
        } else if s == "EXPIRED"@ {
            Some(JobState::Expired)
        } else {
            None
        }
    }

    /// Parses a status string of the remote API. An unrecognized string is
    /// rejected with `InvalidJobState` carrying it verbatim — it is never
    /// defaulted to a known state.
    pub fn from_str(s: &str) -> (r: Result<JobState, Error>)
        ensures
            match JobState::of_str(s@) {
                Some(state) => r == Ok::<JobState, Error>(state),
                None => r matches Err(Error::InvalidJobState(m)) && m@ == s@,
            },
    {
        if str_eq(s, "SUCCESS") {
            Ok(JobState::Success)
        } else if str_eq(s, "FAILURE") {
            Ok(JobState::Failure)
        } else if str_eq(s, "IN_PROGRESS") {
            Ok(JobState::InProgress)
        } else if str_eq(s, "MARKED_FOR_EXPIRY") {
            Ok(JobState::MarkedForExpiry)
        } else if str_eq(s, "EXPIRED") {
            Ok(JobState::Expired)
        } else {
            Err(Error::InvalidJobState(s.to_owned()))
        }
    }
}

/// The immutable job-creation request: always a redacted FTDC collection
/// against one replica set.
#[derive(Debug, Clone)]
pub struct LogCollectionJob {
    pub resource_type: String,
    pub resource_name: String,
    pub redacted: bool,
    pub size_requested_per_file_bytes: u64,
    pub log_types: Vec<String>,
}

impl LogCollectionJob {
    /// The one constructor: an FTDC request for `replica_set_name`, asking
    /// for `bytes` bytes per file.
    pub fn from(replica_set_name: &str, bytes: u64) -> (r: LogCollectionJob)
        ensures
            r.resource_type@ == "REPLICASET"@,
            r.resource_name@ == replica_set_name@,
            r.redacted == true,
            r.size_requested_per_file_bytes == bytes,
            r.log_types@.len() == 1,
            r.log_types@[0]@ == "FTDC"@,
    {
        let mut log_types: Vec<String> = Vec::new();
        log_types.push("FTDC".to_owned());
        LogCollectionJob {
            resource_name: replica_set_name.to_owned(),
            size_requested_per_file_bytes: bytes,
            resource_type: "REPLICASET".to_owned(),
            redacted: true,
            log_types,
        }
    }
}

} // verus!
