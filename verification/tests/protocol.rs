use delta_commit::actions::{
    Action, Add, Metadata, Protocol, ReaderFeature, Remove, TableConfig, WriterFeature,
};
use delta_commit::errors::TransactionError;
use delta_commit::operation::{DeltaOperation, SaveMode};
use delta_commit::protocol::{
    default_protocol_checker, lists_reader_feature, lists_writer_feature, ProtocolChecker,
};
use delta_commit::snapshot::{DeltaTableConfig, EagerSnapshot};

fn table(append_only: bool, protocol: Protocol) -> EagerSnapshot {
    EagerSnapshot::new(
        3,
        protocol,
        Metadata {
            schema: String::from("s"),
            partition_columns: Vec::new(),
            config: TableConfig {
                append_only,
                enable_expired_log_cleanup: false,
                log_retention_ms: 0,
                checkpoint_interval: 10,
            },
            invariants: false,
        },
        Vec::new(),
        DeltaTableConfig { require_files: true },
    )
}

fn protocol(
    reader: i32,
    writer: i32,
    reader_features: Vec<ReaderFeature>,
    writer_features: Vec<WriterFeature>,
) -> Protocol {
    Protocol {
        min_reader_version: reader,
        min_writer_version: writer,
        reader_features,
        writer_features,
    }
}

fn add(path: &str, deletion_vector: bool) -> Action {
    Action::Add(Add {
        path: path.to_string(),
        partition_values: Vec::new(),
        size: 1,
        data_change: true,
        deletion_vector,
    })
}

fn remove(path: &str, data_change: bool, deletion_vector: bool) -> Action {
    Action::Remove(Remove {
        path: path.to_string(),
        data_change,
        deletion_vector,
    })
}

fn write() -> DeltaOperation {
    DeltaOperation::Write {
        mode: SaveMode::Append,
        predicate: None,
    }
}

fn check(table: &EagerSnapshot, actions: Vec<Action>) -> Result<(), TransactionError> {
    default_protocol_checker().can_commit(table, &actions, &write())
}

#[test]
fn a_plain_append_passes() {
    let t = table(false, protocol(1, 2, vec![], vec![]));
    assert!(check(&t, vec![add("f", false)]).is_ok());
    assert!(check(&t, Vec::new()).is_ok());
}

#[test]
fn an_append_only_table_rejects_removing_data() {
    let t = table(true, protocol(1, 2, vec![], vec![]));
    let res = check(&t, vec![add("f", false), remove("g", true, false)]);
    assert!(matches!(res, Err(TransactionError::DeltaTableAppendOnly)));
}

#[test]
fn an_append_only_table_accepts_removes_that_change_no_data() {
    let t = table(true, protocol(1, 2, vec![], vec![]));
    assert!(check(&t, vec![remove("g", false, false)]).is_ok());
}

#[test]
fn a_table_that_is_not_append_only_accepts_removes() {
    let t = table(false, protocol(1, 2, vec![], vec![]));
    assert!(check(&t, vec![remove("g", true, false)]).is_ok());
}

#[test]
fn unsupported_reader_features_are_named_in_order() {
    let t = table(false, protocol(1, 2, vec![], vec![]));
    let declared = Action::Protocol(protocol(
        3,
        7,
        vec![
            ReaderFeature::V2Checkpoint,
            ReaderFeature::TimestampWithoutTimezone,
            ReaderFeature::ColumnMapping,
        ],
        vec![WriterFeature::RowTracking],
    ));
    match check(&t, vec![declared]) {
        Err(TransactionError::UnsupportedReaderFeatures(features)) => assert_eq!(
            features,
            vec![ReaderFeature::V2Checkpoint, ReaderFeature::ColumnMapping]
        ),
        other => panic!("unexpected: {other:?}"),
    }
}

#[test]
fn unsupported_writer_features_are_named_in_order() {
    let t = table(false, protocol(1, 2, vec![], vec![]));
    let declared = Action::Protocol(protocol(
        3,
        7,
        vec![ReaderFeature::TimestampWithoutTimezone],
        vec![
            WriterFeature::AppendOnly,
            WriterFeature::RowTracking,
            WriterFeature::Invariants,
            WriterFeature::ChangeDataFeed,
        ],
    ));
    match check(&t, vec![declared]) {
        Err(TransactionError::UnsupportedWriterFeatures(features)) => assert_eq!(
            features,
            vec![WriterFeature::RowTracking, WriterFeature::ChangeDataFeed]
        ),
        other => panic!("unexpected: {other:?}"),
    }
}

#[test]
fn a_supported_protocol_action_passes() {
    let t = table(false, protocol(1, 2, vec![], vec![]));
    let declared = Action::Protocol(protocol(
        3,
        7,
        vec![ReaderFeature::TimestampWithoutTimezone],
        vec![WriterFeature::AppendOnly, WriterFeature::Invariants],
    ));
    assert!(check(&t, vec![declared, add("f", false)]).is_ok());
}

#[test]
fn writer_features_must_list_what_the_actions_rely_on() {
    let t = table(
        false,
        protocol(
            3,
            7,
            vec![ReaderFeature::DeletionVectors],
            vec![WriterFeature::AppendOnly],
        ),
    );
    let res = check(&t, vec![add("plain", false), add("f", true)]);
    assert!(matches!(
        res,
        Err(TransactionError::WriterFeaturesRequired(
            WriterFeature::DeletionVectors
        ))
    ));
}

#[test]
fn invariants_in_the_schema_need_the_writer_feature() {
    let t = table(false, protocol(1, 7, vec![], vec![WriterFeature::AppendOnly]));
    let with_invariants = Action::Metadata(Metadata {
        schema: String::from("s"),
        partition_columns: Vec::new(),
        config: TableConfig {
            append_only: false,
            enable_expired_log_cleanup: false,
            log_retention_ms: 0,
            checkpoint_interval: 10,
        },
        invariants: true,
    });
    let res = check(&t, vec![with_invariants]);
    assert!(matches!(
        res,
        Err(TransactionError::WriterFeaturesRequired(
            WriterFeature::Invariants
        ))
    ));
}

#[test]
fn reader_features_must_list_what_the_actions_rely_on() {
    let t = table(
        false,
        protocol(
            3,
            7,
            vec![ReaderFeature::TimestampWithoutTimezone],
            vec![WriterFeature::DeletionVectors],
        ),
    );
    let res = check(&t, vec![remove("f", false, true)]);
    assert!(matches!(
        res,
        Err(TransactionError::ReaderFeaturesRequired(
            ReaderFeature::DeletionVectors
        ))
    ));
}

#[test]
fn below_the_feature_versions_nothing_has_to_be_listed() {
    let t = table(false, protocol(2, 6, vec![], vec![]));
    assert!(check(&t, vec![add("f", true)]).is_ok());
}

#[test]
fn listed_features_satisfy_the_actions() {
    let t = table(
        false,
        protocol(
            3,
            7,
            vec![ReaderFeature::DeletionVectors],
            vec![WriterFeature::DeletionVectors, WriterFeature::Invariants],
        ),
    );
    assert!(check(&t, vec![add("f", true), remove("g", false, true)]).is_ok());
}

#[test]
fn the_protocol_the_commit_declares_is_the_one_in_force() {
    // The table is below the feature versions, the commit raises it and
    // forgets the feature its own files need.
    let t = table(false, protocol(1, 2, vec![], vec![]));
    let declared = Action::Protocol(protocol(
        1,
        7,
        vec![],
        vec![WriterFeature::AppendOnly],
    ));
    let res = check(&t, vec![add("f", true), declared]);
    assert!(matches!(
        res,
        Err(TransactionError::WriterFeaturesRequired(
            WriterFeature::DeletionVectors
        ))
    ));
}

#[test]
fn append_only_is_checked_before_the_features() {
    let t = table(true, protocol(1, 2, vec![], vec![]));
    let declared = Action::Protocol(protocol(3, 7, vec![ReaderFeature::V2Checkpoint], vec![]));
    let res = check(&t, vec![declared, remove("g", true, true)]);
    assert!(matches!(res, Err(TransactionError::DeltaTableAppendOnly)));
}

#[test]
fn a_custom_checker_supports_what_it_is_given() {
    let checker = ProtocolChecker::new(
        vec![ReaderFeature::V2Checkpoint],
        vec![WriterFeature::RowTracking],
    );
    let t = table(false, protocol(1, 2, vec![], vec![]));
    let declared = Action::Protocol(protocol(
        3,
        7,
        vec![ReaderFeature::V2Checkpoint],
        vec![WriterFeature::RowTracking],
    ));
    assert!(checker.can_commit(&t, &vec![declared], &write()).is_ok());
}

#[test]
fn feature_lists_are_searched_by_value() {
    let readers = vec![ReaderFeature::ColumnMapping, ReaderFeature::TypeWidening];
    assert!(lists_reader_feature(&readers, ReaderFeature::TypeWidening));
    assert!(!lists_reader_feature(&readers, ReaderFeature::DeletionVectors));
    assert!(!lists_reader_feature(&Vec::new(), ReaderFeature::ColumnMapping));
    let writers = vec![WriterFeature::AppendOnly];
    assert!(lists_writer_feature(&writers, WriterFeature::AppendOnly));
    assert!(!lists_writer_feature(&writers, WriterFeature::Invariants));
}

#[test]
fn the_default_checker_knows_its_features() {
    let checker = default_protocol_checker();
    assert_eq!(
        checker.reader_features,
        vec![ReaderFeature::TimestampWithoutTimezone]
    );
    assert_eq!(
        checker.writer_features,
        vec![
            WriterFeature::AppendOnly,
            WriterFeature::Invariants,
            WriterFeature::TimestampWithoutTimezone
        ]
    );
}
