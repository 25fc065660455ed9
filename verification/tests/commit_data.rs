use delta_commit::actions::{
    has_commit_info, Action, Add, CommitInfo, MetadataEntry, Transaction,
};
use delta_commit::commit_data::{crate_version, CommitData};
use delta_commit::errors::{
    surface_write_error, CommitBuilderError, CommitConflictError, DeltaTableError,
    TransactionError, WriteError,
};
use delta_commit::operation::{DeltaOperation, SaveMode};
use delta_commit::text::split_log_entry;
use delta_commit::transaction::{
    CommitBuilder, CommitMetrics, CommitProperties, Metrics, PostCommitHookProperties,
    PostCommitMetrics, DEFAULT_RETRIES,
};
use serde_json::Value;

fn add(path: &str) -> Action {
    Action::Add(Add {
        path: path.to_string(),
        partition_values: Vec::new(),
        size: 10,
        data_change: true,
        deletion_vector: false,
    })
}

fn write() -> DeltaOperation {
    DeltaOperation::Write {
        mode: SaveMode::Append,
        predicate: None,
    }
}

fn txn(app: &str, version: i64) -> Transaction {
    Transaction {
        app_id: app.to_string(),
        version,
        last_updated: Some(9),
    }
}

fn entry(key: &str, value: &str) -> MetadataEntry {
    MetadataEntry {
        key: key.to_string(),
        value: Value::String(value.to_string()),
    }
}

fn bad_json() -> serde_json::Error {
    serde_json::from_str::<Value>("{").unwrap_err()
}

#[test]
fn commit_info_is_synthesized_when_absent() {
    let data = CommitData::new_at(
        vec![add("f")],
        write(),
        vec![entry("user", "me")],
        vec![txn("a", 1), txn("b", 2)],
        1234,
    );
    assert_eq!(data.actions.len(), 4);
    assert_eq!(data.actions[0], add("f"));
    let stamp = entry("clientVersion", "delta-rs.0.1.0");
    match &data.actions[1] {
        Action::CommitInfo(info) => {
            assert_eq!(info.timestamp, Some(1234));
            assert_eq!(info.operation, Some(String::from("WRITE")));
            assert_eq!(info.info, vec![entry("user", "me"), stamp.clone()]);
        }
        other => panic!("unexpected: {other:?}"),
    }
    assert_eq!(data.actions[2], Action::Txn(txn("a", 1)));
    assert_eq!(data.actions[3], Action::Txn(txn("b", 2)));
    assert_eq!(data.app_metadata, vec![entry("user", "me"), stamp]);
    assert_eq!(data.app_transactions, vec![txn("a", 1), txn("b", 2)]);
    assert_eq!(data.operation, write());
}

#[test]
fn given_commit_info_is_kept_as_it_is() {
    let given = Action::CommitInfo(CommitInfo {
        timestamp: Some(7),
        operation: Some(String::from("CUSTOM")),
        info: Vec::new(),
    });
    let data = CommitData::new_at(
        vec![given.clone(), add("f")],
        write(),
        vec![entry("user", "me")],
        vec![txn("a", 1)],
        1234,
    );
    assert_eq!(
        data.actions,
        vec![given, add("f"), Action::Txn(txn("a", 1))]
    );
    assert_eq!(data.app_metadata, vec![entry("user", "me")]);
}

#[test]
fn the_clock_stamps_a_synthesized_commit_info() {
    let data = CommitData::new(Vec::new(), DeltaOperation::Optimize, Vec::new(), Vec::new());
    assert_eq!(data.actions.len(), 1);
    assert!(has_commit_info(&data.actions));
    match &data.actions[0] {
        Action::CommitInfo(info) => {
            // some time after 2020
            assert!(info.timestamp.unwrap() > 1_577_836_800_000);
            assert_eq!(info.operation, Some(String::from("OPTIMIZE")));
        }
        other => panic!("unexpected: {other:?}"),
    }
}

#[test]
fn commit_info_is_found_anywhere_in_the_actions() {
    assert!(!has_commit_info(&Vec::new()));
    assert!(!has_commit_info(&vec![add("f"), add("g")]));
    let info = Action::CommitInfo(CommitInfo {
        timestamp: None,
        operation: None,
        info: Vec::new(),
    });
    assert!(has_commit_info(&vec![add("f"), info.clone()]));
    assert!(has_commit_info(&vec![info, add("f")]));
}

#[test]
fn the_crate_names_its_version() {
    assert_eq!(crate_version(), "0.1.0");
}

#[test]
fn the_payload_has_one_line_per_action() {
    let data = CommitData::new_at(vec![add("f"), add("g")], write(), Vec::new(), Vec::new(), 1);
    assert_eq!(data.actions.len(), 3);
    let encoded = vec![
        Ok(String::from("{\"add\":\"f\"}")),
        Ok(String::from("{\"add\":\"g\"}")),
        Ok(String::from("{\"commitInfo\":{}}")),
    ];
    let bytes = data.get_bytes(encoded).unwrap();
    assert_eq!(
        bytes.to_vec(),
        b"{\"add\":\"f\"}\n{\"add\":\"g\"}\n{\"commitInfo\":{}}".to_vec()
    );
    // parsing the payload line by line gives the serialized actions back
    assert_eq!(
        split_log_entry(&bytes),
        vec![
            b"{\"add\":\"f\"}".to_vec(),
            b"{\"add\":\"g\"}".to_vec(),
            b"{\"commitInfo\":{}}".to_vec()
        ]
    );
}

#[test]
fn the_first_serialization_failure_is_returned() {
    let data = CommitData::new_at(vec![add("f"), add("g")], write(), Vec::new(), Vec::new(), 1);
    let first = bad_json();
    let first_text = first.to_string();
    let second = serde_json::from_str::<Value>("[1,").unwrap_err();
    assert_ne!(first_text, second.to_string());
    let encoded = vec![Ok(String::from("{}")), Err(first), Err(second)];
    match data.get_bytes(encoded) {
        Err(TransactionError::SerializeLogJson { json_err }) => {
            assert_eq!(json_err.to_string(), first_text)
        }
        other => panic!("unexpected: {other:?}"),
    }
}

#[test]
fn commit_properties_default_to_fifteen_retries_and_checkpoints() {
    let properties = CommitProperties::default();
    assert!(properties.app_metadata.is_empty());
    assert!(properties.app_transaction.is_empty());
    assert_eq!(properties.max_retries, 15);
    assert_eq!(DEFAULT_RETRIES, 15);
    assert!(properties.create_checkpoint);
    assert_eq!(properties.cleanup_expired_logs, None);
}

#[test]
fn commit_properties_are_set_one_by_one() {
    let properties = CommitProperties::default()
        .with_metadata(vec![entry("k", "v")])
        .with_max_retries(3)
        .with_create_checkpoint(false)
        .with_application_transaction(txn("a", 1))
        .with_application_transaction(txn("b", 2))
        .with_cleanup_expired_logs(Some(true));
    assert_eq!(properties.app_metadata, vec![entry("k", "v")]);
    assert_eq!(properties.max_retries, 3);
    assert!(!properties.create_checkpoint);
    assert_eq!(properties.app_transaction, vec![txn("a", 1), txn("b", 2)]);
    assert_eq!(properties.cleanup_expired_logs, Some(true));

    let properties = properties
        .with_application_transactions(vec![txn("c", 3)])
        .with_metadata(Vec::new());
    assert_eq!(properties.app_transaction, vec![txn("c", 3)]);
    assert!(properties.app_metadata.is_empty());
    assert_eq!(properties.max_retries, 3);
}

#[test]
fn a_builder_takes_over_the_properties() {
    let properties = CommitProperties::default()
        .with_metadata(vec![entry("k", "v")])
        .with_max_retries(2)
        .with_create_checkpoint(false)
        .with_cleanup_expired_logs(Some(false))
        .with_application_transaction(txn("a", 1));
    let builder = CommitBuilder::from(properties);
    assert!(builder.actions.is_empty());
    assert_eq!(builder.app_metadata, vec![entry("k", "v")]);
    assert_eq!(builder.app_transaction, vec![txn("a", 1)]);
    assert_eq!(builder.max_retries, 2);
    assert_eq!(
        builder.post_commit_hook,
        Some(PostCommitHookProperties {
            create_checkpoint: false,
            cleanup_expired_logs: Some(false)
        })
    );
    assert!(!builder.post_commit_hook_handler);
}

#[test]
fn a_default_builder_is_empty_and_gets_a_fresh_id() {
    let one = CommitBuilder::default();
    let other = CommitBuilder::default();
    assert!(one.actions.is_empty());
    assert!(one.app_metadata.is_empty());
    assert!(one.app_transaction.is_empty());
    assert_eq!(one.max_retries, 15);
    assert_eq!(one.post_commit_hook, None);
    assert!(!one.post_commit_hook_handler);
    assert_ne!(one.operation_id, other.operation_id);
}

#[test]
fn a_builder_is_set_one_by_one() {
    let hook = PostCommitHookProperties {
        create_checkpoint: true,
        cleanup_expired_logs: None,
    };
    let builder = CommitBuilder::default()
        .with_actions(vec![add("f")])
        .with_app_metadata(vec![entry("k", "v")])
        .with_max_retries(1)
        .with_post_commit_hook(hook)
        .with_operation_id(42)
        .with_post_commit_hook_handler(true);
    assert_eq!(builder.actions, vec![add("f")]);
    assert_eq!(builder.app_metadata, vec![entry("k", "v")]);
    assert_eq!(builder.max_retries, 1);
    assert_eq!(builder.post_commit_hook, Some(hook));
    assert_eq!(builder.operation_id, 42);
    assert!(builder.post_commit_hook_handler);

    let pre = builder.build(None, write());
    assert!(pre.table_data.is_none());
    assert_eq!(pre.max_retries, 1);
    assert_eq!(pre.post_commit_hook, Some(hook));
    assert!(pre.post_commit_hook_handler);
    assert_eq!(pre.operation_id, 42);
    assert_eq!(pre.data.actions.len(), 2);
    assert_eq!(pre.data.actions[0], add("f"));
    assert!(matches!(pre.data.actions[1], Action::CommitInfo(_)));
}

#[test]
fn metrics_start_at_zero() {
    assert_eq!(CommitMetrics::default(), CommitMetrics { num_retries: 0 });
    assert_eq!(
        PostCommitMetrics::default(),
        PostCommitMetrics {
            new_checkpoint_created: false,
            num_log_files_cleaned_up: 0
        }
    );
    assert_eq!(
        Metrics::default(),
        Metrics {
            num_retries: 0,
            new_checkpoint_created: false,
            num_log_files_cleaned_up: 0
        }
    );
}

#[test]
fn metrics_of_both_stages_are_combined() {
    let all = Metrics::combine(
        CommitMetrics { num_retries: 3 },
        PostCommitMetrics {
            new_checkpoint_created: true,
            num_log_files_cleaned_up: 7,
        },
    );
    assert_eq!(
        all,
        Metrics {
            num_retries: 3,
            new_checkpoint_created: true,
            num_log_files_cleaned_up: 7
        }
    );
}

#[test]
fn transaction_errors_surface_under_their_own_name_or_wrapped() {
    assert!(matches!(
        DeltaTableError::from(TransactionError::VersionAlreadyExists(4)),
        DeltaTableError::VersionAlreadyExists(4)
    ));
    assert!(matches!(
        DeltaTableError::from(TransactionError::SerializeLogJson { json_err: bad_json() }),
        DeltaTableError::SerializeLogJson { .. }
    ));
    assert!(matches!(
        DeltaTableError::from(TransactionError::ObjectStore {
            source: object_store::Error::NotImplemented {
                operation: String::from("x"),
                implementer: String::from("y")
            }
        }),
        DeltaTableError::ObjectStore { .. }
    ));
    assert!(matches!(
        DeltaTableError::from(TransactionError::MaxCommitAttempts(3)),
        DeltaTableError::Transaction {
            source: TransactionError::MaxCommitAttempts(3)
        }
    ));
    assert!(matches!(
        DeltaTableError::from(TransactionError::DeltaTableAppendOnly),
        DeltaTableError::Transaction {
            source: TransactionError::DeltaTableAppendOnly
        }
    ));
    assert!(matches!(
        DeltaTableError::from(TransactionError::LogStoreError {
            msg: String::from("m"),
            source: String::from("s")
        }),
        DeltaTableError::Transaction {
            source: TransactionError::LogStoreError { .. }
        }
    ));
    assert!(matches!(
        TransactionError::from(CommitConflictError::ConcurrentAppend),
        TransactionError::CommitConflict(CommitConflictError::ConcurrentAppend)
    ));
    assert!(matches!(
        DeltaTableError::from(CommitBuilderError::Invalid),
        DeltaTableError::CommitValidation {
            source: CommitBuilderError::Invalid
        }
    ));
}

#[test]
fn write_errors_surface_with_their_message() {
    let mismatch = WriteError::SchemaMismatch {
        schema: String::from("id: Int32"),
        expected_schema: String::from("id: Utf8"),
    };
    match surface_write_error(mismatch) {
        DeltaTableError::SchemaMismatch { msg } => assert_eq!(
            msg,
            "Unexpected Arrow schema: got: id: Int32, expected: id: Utf8"
        ),
        other => panic!("unexpected: {other:?}"),
    }
    let mismatch = WriteError::SchemaMismatch {
        schema: String::from("a"),
        expected_schema: String::from("b"),
    };
    match DeltaTableError::from(mismatch) {
        DeltaTableError::SchemaMismatch { msg } => {
            assert_eq!(msg, "Unexpected Arrow schema: got: a, expected: b")
        }
        other => panic!("unexpected: {other:?}"),
    }
    assert!(matches!(
        surface_write_error(WriteError::Partitioning(String::from("p"))),
        DeltaTableError::WriteFailed {
            source: WriteError::Partitioning(_)
        }
    ));
    assert!(matches!(
        surface_write_error(WriteError::CreateAdd {
            source: String::from("c")
        }),
        DeltaTableError::WriteFailed {
            source: WriteError::CreateAdd { .. }
        }
    ));
    assert!(matches!(
        surface_write_error(WriteError::Arrow {
            source: arrow_schema::ArrowError::DivideByZero
        }),
        DeltaTableError::Arrow {
            source: arrow_schema::ArrowError::DivideByZero
        }
    ));
}
