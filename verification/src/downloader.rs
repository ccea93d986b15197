//! Artifact download: the deterministic file name, the final path, the
//! classification of the download response, and the progress messages.
//! Writing the bytes to disk is the caller's concern; the downloaded payload
//! is opaque and undergoes no integrity check.

use vstd::prelude::*;
use vstd::string::*;

use crate::error::Error;
use crate::protocol::OK_STATUS;
use crate::text::{concat2, concat3, dec_rep, u64_to_dec};

verus! {

/// The name of the file the artifact is written to, built deterministically
/// from the replica-set name and the job id.
pub fn download_file_name(replica_set: &str, job_id: &str) -> (r: String)
    ensures
        r@ == "ftdc_data_"@ + replica_set@ + "_job_"@ + job_id@ + ".tar.gz"@,
{
    let mut s = concat3("ftdc_data_", replica_set, "_job_");
    s.append(job_id);
    s.append(".tar.gz");
    s
}

/// The final result of the whole operation: the file name under the
/// directory the artifact was written to.
pub fn download_path(current_dir: &str, file_name: &str) -> (r: String)
    ensures
        r@ == current_dir@ + "/"@ + file_name@,
{
    concat3(current_dir, "/", file_name)
}

/// The message of a rejected download: the target URL, the decimal status
/// code and the raw response body behind fixed preambles.
pub open spec fn download_error_message(url: Seq<char>, status: nat, body: Seq<char>) -> Seq<
    char,
> {
    "Something went wrong downloading the FTDC data. Try to download at: "@ + url
        + ". Status code: "@ + dec_rep(status) + ". Body: "@ + body
}

/// Classifies the answer to the artifact download request. Only an OK status
/// lets the payload be written; any other status is a `Download` failure
/// carrying the target URL, the status code and the raw response body.
pub fn evaluate_download_response(status: u16, url: &str, raw_body: &str) -> (r: Result<
    (),
    Error,
>)
    ensures
        r is Ok <==> status == OK_STATUS,
        status != OK_STATUS ==> (r matches Err(Error::Download(m)) && m@
            == download_error_message(url@, status as nat, raw_body@)),
{
    if status == OK_STATUS {
        Ok(())
    } else {
        let mut m = concat2(
            "Something went wrong downloading the FTDC data. Try to download at: ",
            url,
        );
        m.append(". Status code: ");
        let code = u64_to_dec(status as u64);
        m.append(code.as_str());
        m.append(". Body: ");
        m.append(raw_body);
        Err(Error::Download(m))
    }
}

/// The spinner message shown while the payload is being fetched.
pub fn download_progress_message(job_id: &str) -> (r: String)
    ensures
        r@ == "PROGRESS – Download FTDC data for job with id: "@ + job_id@,
{
    concat2("PROGRESS – Download FTDC data for job with id: ", job_id)
}

/// The spinner message shown once the artifact is on disk.
pub fn download_success_message(job_id: &str) -> (r: String)
    ensures
        r@ == "SUCCESS – FTDC data for job with id "@ + job_id@ + " downloaded."@,
{
    concat3("SUCCESS – FTDC data for job with id ", job_id, " downloaded.")
}

/// The message under which the download spinner is created.
pub fn download_spinner_message(job_id: &str) -> (r: String)
    ensures
        r@ == "Start to download FTDC data for job with id: "@ + job_id@,
{
    concat2("Start to download FTDC data for job with id: ", job_id)
}

} // verus!
