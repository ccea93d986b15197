use ftdc_loader::downloader::{
    download_file_name, download_path, download_progress_message, download_spinner_message,
    download_success_message, evaluate_download_response,
};
use ftdc_loader::error::Error;
use ftdc_loader::urls::{artifact_url, create_job_url, job_status_url, processes_url};

#[test]
fn file_name_embeds_replica_set_and_job_id() {
    assert_eq!(
        download_file_name("my-replica-set", "new-job-id-73"),
        "ftdc_data_my-replica-set_job_new-job-id-73.tar.gz"
    );
}

#[test]
fn path_joins_directory_and_file_name() {
    assert_eq!(
        download_path("/home/me", "ftdc_data_rs_job_1.tar.gz"),
        "/home/me/ftdc_data_rs_job_1.tar.gz"
    );
}

#[test]
fn ok_download_is_accepted() {
    assert!(evaluate_download_response(200, "https://example.invalid", "").is_ok());
}

#[test]
fn rejected_download_reports_url_status_and_body() {
    let error = evaluate_download_response(404, "https://example.invalid/a", "gone")
        .unwrap_err();

    assert!(matches!(error, Error::Download(_)));
    assert_eq!(
        error.message(),
        "Something went wrong downloading the FTDC data. Try to download at: \
         https://example.invalid/a. Status code: 404. Body: gone"
    );
}

#[test]
fn download_messages_name_the_job() {
    assert_eq!(
        download_progress_message("job-1"),
        "PROGRESS – Download FTDC data for job with id: job-1"
    );
    assert_eq!(
        download_success_message("job-1"),
        "SUCCESS – FTDC data for job with id job-1 downloaded."
    );
    assert_eq!(
        download_spinner_message("job-1"),
        "Start to download FTDC data for job with id: job-1"
    );
}

#[test]
fn endpoints_are_built_from_the_base_url() {
    let base = "https://cloud.example.invalid/api/atlas/v1.0/groups";

    assert_eq!(
        processes_url(base, "my-group-key"),
        "https://cloud.example.invalid/api/atlas/v1.0/groups/my-group-key/processes"
    );
    assert_eq!(
        create_job_url(base, "my-group-key"),
        "https://cloud.example.invalid/api/atlas/v1.0/groups/my-group-key/logCollectionJobs"
    );
    assert_eq!(
        job_status_url(base, "my-group-key", "new-job-id-73"),
        "https://cloud.example.invalid/api/atlas/v1.0/groups/my-group-key/logCollectionJobs/new-job-id-73"
    );
    assert_eq!(
        artifact_url(base, "my-group-key", "new-job-id-73"),
        "https://cloud.example.invalid/api/atlas/v1.0/groups/my-group-key/logCollectionJobs/new-job-id-73/download"
    );
}
