//! Verified core of a client that retrieves FTDC (full time diagnostic data
//! capture) archives for a MongoDB Atlas replica set.
//!
//! The library holds the job-lifecycle logic: resolving a shard or replica-set
//! name to the exact replica-set name, classifying the responses of job
//! submission, status polling and artifact download, and sequencing the whole
//! lifecycle as a state machine. The HTTP transport, the progress display and
//! the command line live outside the library and hand it plain values.

pub mod downloader;
pub mod error;
pub mod lifecycle;
pub mod model;
pub mod poller;
pub mod protocol;
pub mod resolver;
pub mod submitter;
pub mod text;
pub mod urls;
