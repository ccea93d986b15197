//! The endpoints of the management API, built from an explicit base URL and
//! the group key — never from an implicit global.

use vstd::prelude::*;
use vstd::string::*;

use crate::text::concat3;

verus! {

/// The endpoint listing every process of the group.
pub fn processes_url(base: &str, group_key: &str) -> (r: String)
    ensures
        r@ == base@ + "/"@ + group_key@ + "/processes"@,
{
    let mut s = concat3(base, "/", group_key);
    s.append("/processes");
    s
}

/// The endpoint that log-collection jobs are submitted against.
pub fn create_job_url(base: &str, group_key: &str) -> (r: String)
    ensures
        r@ == base@ + "/"@ + group_key@ + "/logCollectionJobs"@,
{
    let mut s = concat3(base, "/", group_key);
    s.append("/logCollectionJobs");
    s
}

/// The endpoint answering status queries for one job.
pub fn job_status_url(base: &str, group_key: &str, job_id: &str) -> (r: String)
    ensures
        r@ == base@ + "/"@ + group_key@ + "/logCollectionJobs/"@ + job_id@,
{
    let mut s = concat3(base, "/", group_key);
    s.append("/logCollectionJobs/");
    s.append(job_id);
    s
}

/// The endpoint serving one job's binary payload.
pub fn artifact_url(base: &str, group_key: &str, job_id: &str) -> (r: String)
    ensures
        r@ == base@ + "/"@ + group_key@ + "/logCollectionJobs/"@ + job_id@ + "/download"@,
{
    let mut s = job_status_url(base, group_key, job_id);
    s.append("/download");
    s
}

} // verus!
