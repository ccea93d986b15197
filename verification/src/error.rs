//! Failures of the FTDC job lifecycle.

use vstd::prelude::*;

verus! {

/// One failure of the job lifecycle. Every variant carries a human-readable
/// message; `Transport`, `Json` and `Io` carry the message of a collaborator
/// failure (HTTP transport, body decoding, filesystem) passed through
/// unmodified.
#[derive(Debug, Clone, PartialEq, Eq)]
pub enum Error {
    /// The HTTP transport itself failed (connection, authentication exchange).
    Transport(String),
    /// A response body could not be decoded into the expected shape.
    Json(String),
    /// Writing the downloaded artifact to disk failed.
    Io(String),
    /// A status snapshot carried a job state string that is not recognized.
    InvalidJobState(String),
    /// The artifact download request was rejected by the remote system.
    Download(String),
    /// The status query was rejected by the remote system.
    CheckJobStatus(String),
    /// The job submission was rejected by the remote system.
    CreateJob(String),
    /// No descriptor matched the requested replica-set name, or the listing
    /// request was rejected.
    ReplicaSetNotFound(String),
    /// The remote job ended in a failure or expiry terminal state.
    MongoJob(String),
}

impl Error {
    /// The message carried by the variant.
    pub open spec fn message_view(&self) -> Seq<char> {
        match self {
            Error::Transport(m) => m@,
            Error::Json(m) => m@,
            Error::Io(m) => m@,
            Error::InvalidJobState(m) => m@,
            Error::Download(m) => m@,
            Error::CheckJobStatus(m) => m@,
            Error::CreateJob(m) => m@,
            Error::ReplicaSetNotFound(m) => m@,
            Error::MongoJob(m) => m@,
        }
    }

    /// The sole diagnostic surfaced to the caller: the carried message.
    pub fn message(&self) -> (r: String)
        ensures
            r@ == self.message_view(),
    {
        match self {
            Error::Transport(m) => m.clone(),
            Error::Json(m) => m.clone(),
            Error::Io(m) => m.clone(),
            Error::InvalidJobState(m) => m.clone(),
            Error::Download(m) => m.clone(),
            Error::CheckJobStatus(m) => m.clone(),
            Error::CreateJob(m) => m.clone(),
            Error::ReplicaSetNotFound(m) => m.clone(),
            Error::MongoJob(m) => m.clone(),
        }
    }
}

} // verus!
