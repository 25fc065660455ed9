use delta_commit::actions::{
    Action, Add, CommitInfo, Metadata, PartitionValue, Protocol, Remove, Scalar, TableConfig,
    Transaction,
};
use delta_commit::conflict_checker::{ConflictChecker, TransactionInfo, WinningCommitSummary};
use delta_commit::errors::CommitConflictError;
use delta_commit::operation::{find_partition_value, Comparison, DeltaOperation, Predicate, SaveMode};
use delta_commit::snapshot::{DeltaTableConfig, EagerSnapshot};

fn config() -> TableConfig {
    TableConfig {
        append_only: false,
        enable_expired_log_cleanup: false,
        log_retention_ms: 0,
        checkpoint_interval: 10,
    }
}

fn protocol() -> Protocol {
    Protocol {
        min_reader_version: 1,
        min_writer_version: 2,
        reader_features: Vec::new(),
        writer_features: Vec::new(),
    }
}

fn metadata() -> Metadata {
    Metadata {
        schema: String::from("s"),
        partition_columns: vec![String::from("p")],
        config: config(),
        invariants: false,
    }
}

fn file(path: &str, p: Scalar) -> Add {
    Add {
        path: path.to_string(),
        partition_values: vec![PartitionValue {
            column: String::from("p"),
            value: p,
        }],
        size: 1,
        data_change: true,
        deletion_vector: false,
    }
}

fn add(path: &str, p: i64) -> Action {
    Action::Add(file(path, Scalar::Integer(p)))
}

fn remove(path: &str) -> Action {
    Action::Remove(Remove {
        path: path.to_string(),
        data_change: true,
        deletion_vector: false,
    })
}

fn txn(app: &str) -> Action {
    Action::Txn(Transaction {
        app_id: app.to_string(),
        version: 1,
        last_updated: None,
    })
}

fn snapshot(files: Vec<Add>) -> EagerSnapshot {
    EagerSnapshot::new(
        0,
        protocol(),
        metadata(),
        files,
        DeltaTableConfig { require_files: true },
    )
}

fn p_greater_than(value: i64) -> Predicate {
    Predicate::Compare {
        column: String::from("p"),
        op: Comparison::Gt,
        value,
    }
}

fn verdict(
    read: &EagerSnapshot,
    operation: &DeltaOperation,
    ours: &Vec<Action>,
    winner: Vec<Action>,
) -> Result<(), CommitConflictError> {
    let info = TransactionInfo::new(
        read,
        operation.read_predicate(),
        ours,
        operation.read_whole_table(),
    );
    ConflictChecker::new(info, WinningCommitSummary::new(winner), Some(operation)).check_conflicts()
}

fn write_reading(predicate: Option<Predicate>) -> DeltaOperation {
    DeltaOperation::Write {
        mode: SaveMode::Append,
        predicate,
    }
}

#[test]
fn a_blind_append_conflicts_with_nothing_that_only_adds() {
    let read = snapshot(vec![file("f0", Scalar::Integer(1))]);
    let ours = vec![add("mine", 1)];
    let res = verdict(&read, &write_reading(None), &ours, vec![add("theirs", 1)]);
    assert_eq!(res, Ok(()));
}

#[test]
fn an_append_outside_the_predicate_is_compatible() {
    let read = snapshot(Vec::new());
    let ours = vec![add("mine", 11)];
    let res = verdict(
        &read,
        &write_reading(Some(p_greater_than(10))),
        &ours,
        vec![add("theirs", 5)],
    );
    assert_eq!(res, Ok(()));
}

#[test]
fn an_append_inside_the_predicate_conflicts() {
    let read = snapshot(Vec::new());
    let ours = vec![add("mine", 11)];
    let res = verdict(
        &read,
        &write_reading(Some(p_greater_than(10))),
        &ours,
        vec![add("theirs", 20)],
    );
    assert_eq!(res, Err(CommitConflictError::ConcurrentAppend));
}

#[test]
fn a_protocol_change_conflicts() {
    let read = snapshot(Vec::new());
    let res = verdict(
        &read,
        &write_reading(None),
        &Vec::new(),
        vec![Action::Protocol(protocol())],
    );
    assert_eq!(res, Err(CommitConflictError::ProtocolChanged));
}

#[test]
fn a_protocol_change_does_not_stop_a_protocol_upgrade() {
    let read = snapshot(Vec::new());
    let res = verdict(
        &read,
        &DeltaOperation::AddFeature,
        &vec![Action::Protocol(protocol())],
        vec![Action::Protocol(protocol())],
    );
    assert_eq!(res, Ok(()));
}

#[test]
fn an_unknown_operation_is_no_protocol_upgrade() {
    let read = snapshot(Vec::new());
    let ours = Vec::new();
    let info = TransactionInfo::new(&read, None, &ours, false);
    let res = ConflictChecker::new(
        info,
        WinningCommitSummary::new(vec![Action::Protocol(protocol())]),
        None,
    )
    .check_conflicts();
    assert_eq!(res, Err(CommitConflictError::ProtocolChanged));
}

#[test]
fn a_metadata_change_conflicts() {
    let read = snapshot(Vec::new());
    let res = verdict(
        &read,
        &write_reading(None),
        &vec![add("mine", 1)],
        vec![add("theirs", 1), Action::Metadata(metadata())],
    );
    assert_eq!(res, Err(CommitConflictError::MetadataChanged));
}

#[test]
fn the_protocol_rule_comes_before_the_metadata_rule() {
    let read = snapshot(Vec::new());
    let res = verdict(
        &read,
        &write_reading(None),
        &Vec::new(),
        vec![Action::Metadata(metadata()), Action::Protocol(protocol())],
    );
    assert_eq!(res, Err(CommitConflictError::ProtocolChanged));
}

#[test]
fn removing_a_file_that_was_read_conflicts() {
    let read = snapshot(vec![
        file("low", Scalar::Integer(1)),
        file("high", Scalar::Integer(50)),
    ]);
    let operation = DeltaOperation::Delete {
        predicate: Some(p_greater_than(10)),
    };
    let res = verdict(&read, &operation, &Vec::new(), vec![remove("high")]);
    assert_eq!(res, Err(CommitConflictError::ConcurrentDeleteRead));
}

#[test]
fn removing_a_file_that_was_not_read_is_compatible() {
    let read = snapshot(vec![
        file("low", Scalar::Integer(1)),
        file("high", Scalar::Integer(50)),
    ]);
    let operation = DeltaOperation::Delete {
        predicate: Some(p_greater_than(10)),
    };
    let res = verdict(&read, &operation, &Vec::new(), vec![remove("low")]);
    assert_eq!(res, Ok(()));
}

#[test]
fn reading_the_whole_table_depends_on_every_file() {
    let read = snapshot(vec![file("low", Scalar::Integer(1))]);
    let operation = DeltaOperation::Merge { predicate: None };
    assert!(operation.read_whole_table());
    let res = verdict(&read, &operation, &Vec::new(), vec![remove("low")]);
    assert_eq!(res, Err(CommitConflictError::ConcurrentDeleteRead));
    // a file the snapshot never held is none we depend on
    let res = verdict(&read, &operation, &Vec::new(), vec![remove("other")]);
    assert_eq!(res, Ok(()));
}

#[test]
fn reading_the_whole_table_is_not_subject_to_the_append_rule() {
    let read = snapshot(Vec::new());
    let operation = DeltaOperation::Merge { predicate: None };
    let res = verdict(&read, &operation, &Vec::new(), vec![add("theirs", 20)]);
    assert_eq!(res, Ok(()));
}

#[test]
fn removing_the_same_file_twice_conflicts() {
    let read = snapshot(vec![file("f", Scalar::Integer(1))]);
    let res = verdict(
        &read,
        &write_reading(None),
        &vec![add("new", 1), remove("f")],
        vec![remove("g"), remove("f")],
    );
    assert_eq!(res, Err(CommitConflictError::ConcurrentDeleteDelete));
}

#[test]
fn removing_different_files_is_compatible() {
    let read = snapshot(vec![file("f", Scalar::Integer(1))]);
    let res = verdict(
        &read,
        &write_reading(None),
        &vec![remove("f")],
        vec![remove("g")],
    );
    assert_eq!(res, Ok(()));
}

#[test]
fn the_same_application_in_both_commits_conflicts() {
    let read = snapshot(Vec::new());
    let res = verdict(
        &read,
        &write_reading(None),
        &vec![add("mine", 1), txn("stream")],
        vec![add("theirs", 1), txn("other"), txn("stream")],
    );
    assert_eq!(res, Err(CommitConflictError::ConcurrentTransaction));
}

#[test]
fn different_applications_are_compatible() {
    let read = snapshot(Vec::new());
    let res = verdict(
        &read,
        &write_reading(None),
        &vec![txn("mine")],
        vec![txn("theirs")],
    );
    assert_eq!(res, Ok(()));
}

#[test]
fn bookkeeping_of_the_winner_is_ignored() {
    let read = snapshot(Vec::new());
    let res = verdict(
        &read,
        &write_reading(Some(p_greater_than(10))),
        &vec![add("mine", 11)],
        vec![Action::CommitInfo(CommitInfo {
            timestamp: Some(1),
            operation: Some(String::from("WRITE")),
            info: Vec::new(),
        })],
    );
    assert_eq!(res, Ok(()));
}

#[test]
fn comparisons_hold_as_on_integers() {
    assert!(Comparison::Eq.holds(3, 3));
    assert!(!Comparison::Eq.holds(3, 4));
    assert!(Comparison::NotEq.holds(3, 4));
    assert!(!Comparison::NotEq.holds(3, 3));
    assert!(Comparison::Lt.holds(-1, 0));
    assert!(!Comparison::Lt.holds(0, 0));
    assert!(Comparison::LtEq.holds(0, 0));
    assert!(!Comparison::LtEq.holds(1, 0));
    assert!(Comparison::Gt.holds(i64::MAX, i64::MIN));
    assert!(!Comparison::Gt.holds(5, 5));
    assert!(Comparison::GtEq.holds(5, 5));
    assert!(!Comparison::GtEq.holds(4, 5));
}

#[test]
fn predicates_are_matched_coarsely() {
    let values = vec![
        PartitionValue {
            column: String::from("p"),
            value: Scalar::Integer(5),
        },
        PartitionValue {
            column: String::from("region"),
            value: Scalar::Text(String::from("eu")),
        },
        PartitionValue {
            column: String::from("day"),
            value: Scalar::Null,
        },
    ];
    assert!(!p_greater_than(10).intersects(&values));
    assert!(p_greater_than(4).intersects(&values));
    // a column that is no partition column excludes nothing
    let unknown = Predicate::Compare {
        column: String::from("x"),
        op: Comparison::Eq,
        value: 1,
    };
    assert!(unknown.intersects(&values));
    // a comparison of another type excludes nothing
    let mistyped = Predicate::Compare {
        column: String::from("region"),
        op: Comparison::Eq,
        value: 1,
    };
    assert!(mistyped.intersects(&values));
    // a null value satisfies no comparison
    let on_null = Predicate::Compare {
        column: String::from("day"),
        op: Comparison::NotEq,
        value: 1,
    };
    assert!(!on_null.intersects(&values));
    let eu = Predicate::TextEquals {
        column: String::from("region"),
        value: String::from("eu"),
    };
    let us = Predicate::TextEquals {
        column: String::from("region"),
        value: String::from("us"),
    };
    assert!(eu.intersects(&values));
    assert!(!us.intersects(&values));
    let null_text = Predicate::TextEquals {
        column: String::from("day"),
        value: String::from("x"),
    };
    assert!(!null_text.intersects(&values));
    assert!(Predicate::Opaque.intersects(&values));
    let both = Predicate::And(Box::new(p_greater_than(4)), Box::new(p_greater_than(10)));
    assert!(!both.intersects(&values));
    let either = Predicate::Or(Box::new(p_greater_than(4)), Box::new(p_greater_than(10)));
    assert!(either.intersects(&values));
    let neither = Predicate::Or(
        Box::new(p_greater_than(10)),
        Box::new(Predicate::TextEquals {
            column: String::from("region"),
            value: String::from("us"),
        }),
    );
    assert!(!neither.intersects(&values));
}

#[test]
fn the_first_value_of_a_column_counts() {
    let values = vec![
        PartitionValue {
            column: String::from("p"),
            value: Scalar::Integer(1),
        },
        PartitionValue {
            column: String::from("p"),
            value: Scalar::Integer(2),
        },
    ];
    assert_eq!(
        find_partition_value(&values, &String::from("p")),
        Some(&Scalar::Integer(1))
    );
    assert_eq!(find_partition_value(&values, &String::from("q")), None);
    assert_eq!(find_partition_value(&Vec::new(), &String::from("p")), None);
}

#[test]
fn operations_say_what_they_read() {
    assert_eq!(DeltaOperation::Create { mode: SaveMode::ErrorIfExists }.name(), "CREATE TABLE");
    assert_eq!(write_reading(None).name(), "WRITE");
    assert_eq!(DeltaOperation::Delete { predicate: None }.name(), "DELETE");
    assert_eq!(DeltaOperation::Update { predicate: None }.name(), "UPDATE");
    assert_eq!(DeltaOperation::Merge { predicate: None }.name(), "MERGE");
    assert_eq!(DeltaOperation::Optimize.name(), "OPTIMIZE");
    assert_eq!(DeltaOperation::VacuumStart.name(), "VACUUM START");
    assert_eq!(DeltaOperation::VacuumEnd.name(), "VACUUM END");
    assert_eq!(DeltaOperation::AddFeature.name(), "ADD FEATURE");

    assert_eq!(write_reading(None).read_predicate(), None);
    assert_eq!(
        write_reading(Some(p_greater_than(1))).read_predicate(),
        Some(&p_greater_than(1))
    );
    assert_eq!(
        DeltaOperation::Delete { predicate: Some(Predicate::Opaque) }.read_predicate(),
        Some(&Predicate::Opaque)
    );
    assert_eq!(
        DeltaOperation::Update { predicate: Some(Predicate::Opaque) }.read_predicate(),
        Some(&Predicate::Opaque)
    );
    assert_eq!(
        DeltaOperation::Merge { predicate: Some(Predicate::Opaque) }.read_predicate(),
        Some(&Predicate::Opaque)
    );
    assert_eq!(DeltaOperation::Optimize.read_predicate(), None);

    assert!(DeltaOperation::Merge { predicate: None }.read_whole_table());
    assert!(!DeltaOperation::Merge { predicate: Some(Predicate::Opaque) }.read_whole_table());
    assert!(!write_reading(None).read_whole_table());
    assert!(!DeltaOperation::Delete { predicate: None }.read_whole_table());

    assert!(DeltaOperation::AddFeature.is_protocol_upgrade());
    assert!(!write_reading(None).is_protocol_upgrade());

    let info = DeltaOperation::Optimize.get_commit_info();
    assert_eq!(info.timestamp, None);
    assert_eq!(info.operation, Some(String::from("OPTIMIZE")));
    assert!(info.info.is_empty());
}
