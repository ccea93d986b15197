use ftdc_loader::error::Error;
use ftdc_loader::model::{Clusters, Shard};
use ftdc_loader::resolver::{evaluate_processes_response, resolve_replica_set};

fn shard(alias: &str, replica_set_name: Option<&str>) -> Shard {
    Shard {
        user_alias: alias.to_string(),
        kind_name: String::new(),
        replica_set_name: replica_set_name.map(|s| s.to_string()),
    }
}

#[test]
fn given_explicit_replica_set_name_when_get_replica_set_then_get_the_same_name() {
    let clusters = Clusters {
        results: vec![shard("something that does not matter", Some("my-replica-set"))],
    };

    let response = resolve_replica_set(&clusters, "my-replica-set").unwrap();

    assert_eq!(&response, "my-replica-set");
}

#[test]
fn given_shard_name_when_get_replica_set_then_get_corresponding_replica_set() {
    let clusters = Clusters {
        results: vec![shard("my-rs-shard-00", Some("my-replica-set"))],
    };

    let response = resolve_replica_set(&clusters, "my-rs-shard-00").unwrap();

    assert_eq!(&response, "my-replica-set");
}

#[test]
fn given_wrong_name_when_get_replica_set_then_no_rs_error() {
    let clusters = Clusters {
        results: vec![shard("my-rs-shard-00", Some("my-replica-set"))],
    };

    let error = resolve_replica_set(&clusters, "another-rs-shard-00").unwrap_err();

    assert!(matches!(error, Error::ReplicaSetNotFound(_)));
    assert_eq!(
        error.message(),
        "No replica set found that corresponds to another-rs-shard-00"
    );
}

#[test]
fn given_no_processes_in_the_given_group_when_get_replica_set_then_no_rs_error() {
    let clusters = Clusters { results: vec![] };

    let error = resolve_replica_set(&clusters, "another-rs-shard-00").unwrap_err();

    assert!(matches!(error, Error::ReplicaSetNotFound(_)));
    assert_eq!(
        error.message(),
        "No replica set found that corresponds to another-rs-shard-00"
    );
}

#[test]
fn first_matching_descriptor_wins() {
    let clusters = Clusters {
        results: vec![
            shard("other", None),
            shard("my-rs-shard-00", Some("first-replica-set")),
            shard("my-rs-shard-00", Some("second-replica-set")),
        ],
    };

    let response = resolve_replica_set(&clusters, "my-rs-shard-00").unwrap();

    assert_eq!(&response, "first-replica-set");
}

#[test]
fn alias_matches_by_substring() {
    let clusters = Clusters {
        results: vec![shard("prod-my-rs-shard-00-suffix", Some("my-replica-set"))],
    };

    let response = resolve_replica_set(&clusters, "my-rs-shard-00").unwrap();

    assert_eq!(&response, "my-replica-set");
}

#[test]
fn descriptor_without_replica_set_name_never_matches() {
    let clusters = Clusters {
        results: vec![shard("my-rs-shard-00", None)],
    };

    let error = resolve_replica_set(&clusters, "my-rs-shard-00").unwrap_err();

    assert!(matches!(error, Error::ReplicaSetNotFound(_)));
}

#[test]
fn rejected_listing_reports_the_response_body() {
    let error = evaluate_processes_response(
        500,
        "server overloaded",
        Err("not decoded".to_string()),
        "my-rs-shard-00",
    )
    .unwrap_err();

    assert!(matches!(error, Error::ReplicaSetNotFound(_)));
    assert_eq!(
        error.message(),
        "Something went wrong trying to get the list of running processes. Please try later. \
         Currently running processes: server overloaded"
    );
}

#[test]
fn undecodable_listing_is_a_json_error() {
    let error = evaluate_processes_response(
        200,
        "<html>",
        Err("expected value at line 1".to_string()),
        "my-rs-shard-00",
    )
    .unwrap_err();

    assert!(matches!(error, Error::Json(_)));
    assert_eq!(error.message(), "expected value at line 1");
}

#[test]
fn ok_listing_is_resolved() {
    let clusters = Clusters {
        results: vec![shard("my-rs-shard-00", Some("my-replica-set"))],
    };

    let response =
        evaluate_processes_response(200, "", Ok(clusters), "my-rs-shard-00").unwrap();

    assert_eq!(&response, "my-replica-set");
}
