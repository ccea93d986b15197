use ftdc_loader::error::Error;
use ftdc_loader::model::JobId;
use ftdc_loader::submitter::{evaluate_create_job_response, start_job_notice};

#[test]
fn given_replica_set_when_create_ftdc_job_then_give_job_id() {
    let decoded = Ok(JobId { id: String::from("new-job-id-73") });

    let response =
        evaluate_create_job_response(201, "{\"id\":\"new-job-id-73\"}", decoded).unwrap();

    assert_eq!(response, JobId { id: String::from("new-job-id-73") });
}

#[test]
fn rejected_submission_reports_the_response_body() {
    let error = evaluate_create_job_response(
        400,
        "resource not eligible",
        Err("not decoded".to_string()),
    )
    .unwrap_err();

    assert!(matches!(error, Error::CreateJob(_)));
    assert_eq!(
        error.message(),
        "Something went wrong creating the FTDC job: resource not eligible"
    );
}

#[test]
fn created_response_with_undecodable_body_is_a_json_error() {
    let error = evaluate_create_job_response(
        201,
        "not json",
        Err("missing field `id`".to_string()),
    )
    .unwrap_err();

    assert!(matches!(error, Error::Json(_)));
    assert_eq!(error.message(), "missing field `id`");
}

#[test]
fn start_job_notice_names_the_replica_set() {
    let notice = start_job_notice("my-replica-set");

    assert_eq!(
        notice,
        "Starting FTDC data job for ReplicaSet: my-replica-set"
    );
}
