//! The orchestrator's decision core: the lifecycle as a state machine.
//!
//! The lifecycle is strictly sequential and single-flight: resolve the
//! replica set, submit the job, poll it to a terminal state, download the
//! artifact. Each phase waits for the outcome of exactly one step; a success
//! carries its result into the next phase, and any error aborts the whole
//! lifecycle at once. The caller performs the outside work of each phase and
//! hands its outcome back as an event.

use vstd::prelude::*;

use crate::error::Error;
use crate::model::JobId;

verus! {

/// The phase the lifecycle stands in, with everything later phases depend
/// on. `Finished` and `Stopped` are terminal.
#[derive(Debug, Clone, PartialEq, Eq)]
pub enum Lifecycle {
    /// Resolving the user-supplied fragment to the exact replica-set name.
    Resolving,
    /// Submitting the log-collection job against the resolved replica set.
    Submitting { replica_set: String },
    /// Polling the submitted job until it reaches a terminal state.
    Polling { replica_set: String, job_id: String },
    /// Fetching the finished job's payload from its download URL.
    Downloading { replica_set: String, job_id: String, download_url: String },
    /// The artifact was written; the path is the operation's final result.
    Finished { path: String },
    /// The lifecycle was aborted by this error; nothing is retried.
    Stopped { error: Error },
}

/// The outcome of the one step a phase waits for.
#[derive(Debug, PartialEq, Eq)]
pub enum LifecycleEvent {
    /// The resolved replica-set name, or the resolution failure.
    Resolved(Result<String, Error>),
    /// The handle of the created job, or the submission failure.
    Submitted(Result<JobId, Error>),
    /// The download URL of the terminal-success job, or the poll failure.
    Polled(Result<String, Error>),
    /// The path the artifact was written to, or the download failure.
    Downloaded(Result<String, Error>),
}

/// Whether the event is the outcome of the step the phase waits for. A
/// terminal phase waits for nothing.
pub open spec fn event_fits(state: Lifecycle, event: LifecycleEvent) -> bool {
    match state {
        Lifecycle::Resolving => event is Resolved,
        Lifecycle::Submitting { .. } => event is Submitted,
        Lifecycle::Polling { .. } => event is Polled,
        Lifecycle::Downloading { .. } => event is Downloaded,
        Lifecycle::Finished { .. } => false,
        Lifecycle::Stopped { .. } => false,
    }
}

/// Advances the lifecycle by the outcome of the step it was waiting for:
/// success moves to the next phase carrying the step's result, and every
/// error moves to `Stopped` immediately — there is no partial-success path
/// and no retry.
pub fn lifecycle_step(state: Lifecycle, event: LifecycleEvent) -> (next: Lifecycle)
    requires
        event_fits(state, event),
    ensures
        (match (state, event) {
            (Lifecycle::Resolving, LifecycleEvent::Resolved(outcome)) => match outcome {
                Ok(replica_set) => next == (Lifecycle::Submitting { replica_set }),
                Err(error) => next == (Lifecycle::Stopped { error }),
            },
            (
                Lifecycle::Submitting { replica_set },
                LifecycleEvent::Submitted(outcome),
            ) => match outcome {
                Ok(handle) => next == (Lifecycle::Polling { replica_set, job_id: handle.id }),
                Err(error) => next == (Lifecycle::Stopped { error }),
            },
            (
                Lifecycle::Polling { replica_set, job_id },
                LifecycleEvent::Polled(outcome),
            ) => match outcome {
                Ok(download_url) => next == (Lifecycle::Downloading {
                    replica_set,
                    job_id,
                    download_url,
                }),
                Err(error) => next == (Lifecycle::Stopped { error }),
            },
            (
                Lifecycle::Downloading { .. },
                LifecycleEvent::Downloaded(outcome),
            ) => match outcome {
                Ok(path) => next == (Lifecycle::Finished { path }),
                Err(error) => next == (Lifecycle::Stopped { error }),
            },
            _ => false,
        }),
{
    match (state, event) {
        (Lifecycle::Resolving, LifecycleEvent::Resolved(outcome)) => match outcome {
            Ok(replica_set) => Lifecycle::Submitting { replica_set },
            Err(error) => Lifecycle::Stopped { error },
        },
        (Lifecycle::Submitting { replica_set }, LifecycleEvent::Submitted(outcome)) => match outcome {
            Ok(handle) => Lifecycle::Polling { replica_set, job_id: handle.id },
            Err(error) => Lifecycle::Stopped { error },
        },
        (Lifecycle::Polling { replica_set, job_id }, LifecycleEvent::Polled(outcome)) => match outcome {
            Ok(download_url) => Lifecycle::Downloading { replica_set, job_id, download_url },
            Err(error) => Lifecycle::Stopped { error },
        },
        (Lifecycle::Downloading { .. }, LifecycleEvent::Downloaded(outcome)) => match outcome {
            Ok(path) => Lifecycle::Finished { path },
            Err(error) => Lifecycle::Stopped { error },
        },
        (s, _) => {
            proof {
                assert(false);
            }
            s
        },
    }
}

} // verus!
