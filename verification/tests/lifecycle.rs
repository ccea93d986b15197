use ftdc_loader::error::Error;
use ftdc_loader::lifecycle::{lifecycle_step, Lifecycle, LifecycleEvent};
use ftdc_loader::model::JobId;
use ftdc_loader::text::{contains_substr, str_eq, u64_to_dec};

#[test]
fn happy_path_walks_every_phase() {
    let state = Lifecycle::Resolving;

    let state = lifecycle_step(
        state,
        LifecycleEvent::Resolved(Ok(String::from("my-replica-set"))),
    );
    assert_eq!(
        state,
        Lifecycle::Submitting { replica_set: String::from("my-replica-set") }
    );

    let state = lifecycle_step(
        state,
        LifecycleEvent::Submitted(Ok(JobId { id: String::from("new-job-id-73") })),
    );
    assert_eq!(
        state,
        Lifecycle::Polling {
            replica_set: String::from("my-replica-set"),
            job_id: String::from("new-job-id-73"),
        }
    );

    let state = lifecycle_step(
        state,
        LifecycleEvent::Polled(Ok(String::from("https://example.invalid/artifact"))),
    );
    assert_eq!(
        state,
        Lifecycle::Downloading {
            replica_set: String::from("my-replica-set"),
            job_id: String::from("new-job-id-73"),
            download_url: String::from("https://example.invalid/artifact"),
        }
    );

    let state = lifecycle_step(
        state,
        LifecycleEvent::Downloaded(Ok(String::from("/cwd/ftdc_data.tar.gz"))),
    );
    assert_eq!(state, Lifecycle::Finished { path: String::from("/cwd/ftdc_data.tar.gz") });
}

#[test]
fn any_failed_step_stops_the_lifecycle() {
    let stopped = lifecycle_step(
        Lifecycle::Resolving,
        LifecycleEvent::Resolved(Err(Error::ReplicaSetNotFound(String::from("none")))),
    );
    assert_eq!(
        stopped,
        Lifecycle::Stopped { error: Error::ReplicaSetNotFound(String::from("none")) }
    );

    let stopped = lifecycle_step(
        Lifecycle::Submitting { replica_set: String::from("rs") },
        LifecycleEvent::Submitted(Err(Error::CreateJob(String::from("rejected")))),
    );
    assert_eq!(
        stopped,
        Lifecycle::Stopped { error: Error::CreateJob(String::from("rejected")) }
    );

    let stopped = lifecycle_step(
        Lifecycle::Polling { replica_set: String::from("rs"), job_id: String::from("j") },
        LifecycleEvent::Polled(Err(Error::MongoJob(String::from("failed")))),
    );
    assert_eq!(stopped, Lifecycle::Stopped { error: Error::MongoJob(String::from("failed")) });

    let stopped = lifecycle_step(
        Lifecycle::Downloading {
            replica_set: String::from("rs"),
            job_id: String::from("j"),
            download_url: String::from("u"),
        },
        LifecycleEvent::Downloaded(Err(Error::Download(String::from("gone")))),
    );
    assert_eq!(stopped, Lifecycle::Stopped { error: Error::Download(String::from("gone")) });
}

#[test]
fn substring_search_finds_inner_and_edge_occurrences() {
    assert!(contains_substr("my-rs-shard-00", "my-rs-shard-00"));
    assert!(contains_substr("prod-my-rs-shard-00-x", "my-rs-shard-00"));
    assert!(contains_substr("anything", ""));
    assert!(!contains_substr("", "a"));
    assert!(!contains_substr("my-rs-shard-01", "my-rs-shard-00"));
}

#[test]
fn string_equality_is_exact() {
    assert!(str_eq("my-replica-set", "my-replica-set"));
    assert!(!str_eq("my-replica-set", "my-replica-se"));
    assert!(!str_eq("my-replica-set", "My-replica-set"));
    assert!(str_eq("", ""));
}

#[test]
fn decimal_rendering_is_exact() {
    assert_eq!(u64_to_dec(0), "0");
    assert_eq!(u64_to_dec(7), "7");
    assert_eq!(u64_to_dec(10), "10");
    assert_eq!(u64_to_dec(404), "404");
    assert_eq!(u64_to_dec(3000), "3000");
    assert_eq!(u64_to_dec(u64::MAX), "18446744073709551615");
}
