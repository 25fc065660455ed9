use delta_commit::actions::{Action, Add, Metadata, Protocol, TableConfig};
use delta_commit::commit_data::CommitData;
use delta_commit::operation::{DeltaOperation, SaveMode};
use delta_commit::post_commit::{
    cleanup_cutoff, is_checkpoint_due, FinalizedCommit, PostCommit, PostCommitEvent,
    PostCommitPhase, PostCommitProgress, PostCommitRequest,
};
use delta_commit::snapshot::{DeltaTableConfig, DeltaTableState, EagerSnapshot};
use delta_commit::transaction::{CommitMetrics, Metrics};

fn config(cleanup: bool, interval: u32) -> TableConfig {
    TableConfig {
        append_only: false,
        enable_expired_log_cleanup: cleanup,
        log_retention_ms: 1_000,
        checkpoint_interval: interval,
    }
}

fn snapshot(version: i64, cleanup: bool, interval: u32, require_files: bool) -> EagerSnapshot {
    EagerSnapshot::new(
        version,
        Protocol {
            min_reader_version: 1,
            min_writer_version: 2,
            reader_features: Vec::new(),
            writer_features: Vec::new(),
        },
        Metadata {
            schema: String::from("s"),
            partition_columns: Vec::new(),
            config: config(cleanup, interval),
            invariants: false,
        },
        Vec::new(),
        DeltaTableConfig { require_files },
    )
}

fn add(path: &str) -> Action {
    Action::Add(Add {
        path: path.to_string(),
        partition_values: Vec::new(),
        size: 1,
        data_change: true,
        deletion_vector: false,
    })
}

fn data() -> CommitData {
    CommitData::new_at(
        vec![add("new")],
        DeltaOperation::Write {
            mode: SaveMode::Append,
            predicate: None,
        },
        Vec::new(),
        Vec::new(),
        5,
    )
}

fn post(
    version: i64,
    table: Option<EagerSnapshot>,
    create_checkpoint: bool,
    cleanup: Option<bool>,
    handler: bool,
) -> PostCommit {
    PostCommit {
        version,
        data: data(),
        create_checkpoint,
        cleanup_expired_logs: cleanup,
        table_data: table,
        custom_execute_handler: handler,
        metrics: CommitMetrics { num_retries: 2 },
    }
}

// Runs the housekeeping with the clock at `now`; log cleanup reports `cleaned`.
fn run(post: PostCommit, now: i64, cleaned: u64) -> (FinalizedCommit, Vec<PostCommitRequest>) {
    let mut requests = Vec::new();
    let mut progress = post.begin_at(99, now);
    loop {
        let (run, request) = match progress {
            PostCommitProgress::Ask(run, request) => (run, request),
            PostCommitProgress::Done(done) => return (done, requests),
        };
        requests.push(request);
        let event = match request {
            PostCommitRequest::UpdateSnapshot { target } => {
                PostCommitEvent::SnapshotUpdated(snapshot(target, true, 5, true))
            }
            PostCommitRequest::BeforePostCommitHook { .. } => PostCommitEvent::HookDone,
            PostCommitRequest::AfterPostCommitHook { .. } => PostCommitEvent::HookDone,
            PostCommitRequest::CreateCheckpoint { .. } => PostCommitEvent::CheckpointCreated,
            PostCommitRequest::CleanupExpiredLogs { .. } => PostCommitEvent::LogsCleaned(cleaned),
            PostCommitRequest::LoadState { version } => {
                PostCommitEvent::StateLoaded(DeltaTableState {
                    snapshot: snapshot(version, false, 10, true),
                })
            }
        };
        assert!(run.accepts(&event));
        progress = run.resume_at(event, now);
    }
}

#[test]
fn a_checkpoint_is_due_when_the_next_version_is_a_multiple() {
    assert!(is_checkpoint_due(9, 10));
    assert!(is_checkpoint_due(19, 10));
    assert!(!is_checkpoint_due(10, 10));
    assert!(!is_checkpoint_due(0, 10));
    assert!(is_checkpoint_due(0, 1));
    assert!(is_checkpoint_due(7, 1));
    assert!(is_checkpoint_due(i64::MAX, 2));
    assert!(!is_checkpoint_due(i64::MAX - 1, 2));
    // no interval, no checkpoint
    assert!(!is_checkpoint_due(9, 0));
    // the rule is the same on either side of zero
    assert!(is_checkpoint_due(-1, 1));
    assert!(is_checkpoint_due(-1, 10));
    assert!(is_checkpoint_due(-11, 10));
    assert!(!is_checkpoint_due(-10, 10));
    assert!(!is_checkpoint_due(-2, 10));
    assert!(is_checkpoint_due(i64::MIN, 1));
    assert!(!is_checkpoint_due(i64::MIN, 2));
    assert!(is_checkpoint_due(i64::MIN + 1, 2));
}

#[test]
fn the_cutoff_lies_the_retention_before_now() {
    assert_eq!(cleanup_cutoff(10_000, 1_000), 9_000);
    assert_eq!(cleanup_cutoff(0, 0), 0);
    assert_eq!(cleanup_cutoff(5, 10), -5);
    assert_eq!(cleanup_cutoff(i64::MIN, 1), i64::MIN);
    assert_eq!(cleanup_cutoff(i64::MAX, -1), i64::MAX);
    assert_eq!(cleanup_cutoff(i64::MIN, i64::MIN), 0);
    assert_eq!(cleanup_cutoff(-2, i64::MAX), i64::MIN);
}

#[test]
fn a_checkpoint_is_created_exactly_when_wanted_due_and_possible() {
    for create_checkpoint in [false, true] {
        for require_files in [false, true] {
            for version in [8i64, 9, 10] {
                let table = snapshot(version - 1, false, 10, require_files);
                let (done, requests) = run(
                    post(version, Some(table), create_checkpoint, Some(false), false),
                    0,
                    0,
                );
                let expected = create_checkpoint && require_files && (version + 1) % 10 == 0;
                assert_eq!(done.metrics.new_checkpoint_created, expected);
                let asked = requests
                    .iter()
                    .any(|r| matches!(r, PostCommitRequest::CreateCheckpoint { .. }));
                assert_eq!(asked, expected);
                assert_eq!(done.version(), version);
                assert_eq!(done.snapshot().version(), version);
            }
        }
    }
}

#[test]
fn the_common_path_advances_the_snapshot_without_reading_the_log() {
    let table = snapshot(4, false, 10, true);
    let (done, requests) = run(post(5, Some(table), false, None, false), 0, 0);
    assert!(requests.is_empty());
    assert_eq!(done.version(), 5);
    assert_eq!(done.snapshot().version(), 5);
    assert_eq!(done.snapshot().snapshot.files.len(), 1);
    assert_eq!(done.snapshot().snapshot.files[0].path, "new");
    assert_eq!(
        done.metrics,
        Metrics {
            num_retries: 2,
            new_checkpoint_created: false,
            num_log_files_cleaned_up: 0
        }
    );
}

#[test]
fn a_snapshot_that_fell_behind_is_updated_first() {
    let table = snapshot(2, false, 10, true);
    let (done, requests) = run(post(5, Some(table), false, Some(false), false), 0, 0);
    assert_eq!(
        requests,
        vec![PostCommitRequest::UpdateSnapshot { target: 4 }]
    );
    assert_eq!(done.version(), 5);
    assert_eq!(done.snapshot().version(), 5);
    assert_eq!(done.snapshot().snapshot.files.len(), 1);
}

#[test]
fn the_updated_snapshot_decides_on_checkpoint_and_cleanup() {
    // the updated snapshot has cleanup on and an interval of 5
    let table = snapshot(1, false, 10, true);
    let (done, requests) = run(post(4, Some(table), true, None, false), 10_000, 0);
    assert_eq!(
        requests,
        vec![
            PostCommitRequest::UpdateSnapshot { target: 3 },
            PostCommitRequest::CreateCheckpoint {
                version: 4,
                operation_id: 99
            },
            PostCommitRequest::CleanupExpiredLogs {
                version: 4,
                cutoff: 9_000,
                operation_id: 99
            },
        ]
    );
    assert!(done.metrics.new_checkpoint_created);
    assert_eq!(done.metrics.num_log_files_cleaned_up, 0);
}

#[test]
fn the_table_setting_decides_on_cleanup_unless_overridden() {
    for (setting, wish, expected) in [
        (false, None, false),
        (true, None, true),
        (false, Some(true), true),
        (true, Some(false), false),
        (true, Some(true), true),
        (false, Some(false), false),
    ] {
        let table = snapshot(0, setting, 10, true);
        let (done, requests) = run(post(1, Some(table), false, wish, false), 5_000, 0);
        let asked = requests.contains(&PostCommitRequest::CleanupExpiredLogs {
            version: 1,
            cutoff: 4_000,
            operation_id: 99,
        });
        assert_eq!(asked, expected);
        assert_eq!(requests.len(), if expected { 1 } else { 0 });
        assert_eq!(done.metrics.num_log_files_cleaned_up, 0);
    }
}

#[test]
fn the_table_is_loaded_again_after_log_entries_went_away() {
    let table = snapshot(0, true, 10, true);
    let (done, requests) = run(post(1, Some(table), false, None, false), 5_000, 3);
    assert_eq!(
        requests,
        vec![
            PostCommitRequest::CleanupExpiredLogs {
                version: 1,
                cutoff: 4_000,
                operation_id: 99
            },
            PostCommitRequest::LoadState { version: 1 },
        ]
    );
    assert_eq!(done.metrics.num_log_files_cleaned_up, 3);
    // the state that was loaded, not the one that was advanced
    assert!(done.snapshot().snapshot.files.is_empty());
    assert_eq!(done.snapshot().version(), 1);
}

#[test]
fn the_hooks_of_the_caller_frame_the_housekeeping() {
    let table = snapshot(8, true, 10, true);
    let (done, requests) = run(post(9, Some(table), true, None, true), 5_000, 0);
    assert_eq!(
        requests,
        vec![
            PostCommitRequest::BeforePostCommitHook {
                will_run_side_effects: true,
                operation_id: 99
            },
            PostCommitRequest::CreateCheckpoint {
                version: 9,
                operation_id: 99
            },
            PostCommitRequest::CleanupExpiredLogs {
                version: 9,
                cutoff: 4_000,
                operation_id: 99
            },
            PostCommitRequest::AfterPostCommitHook {
                will_run_side_effects: true,
                operation_id: 99
            },
        ]
    );
    assert!(done.metrics.new_checkpoint_created);
}

#[test]
fn the_hooks_are_told_when_nothing_will_happen() {
    let table = snapshot(8, false, 10, true);
    let (_, requests) = run(post(9, Some(table), false, None, true), 5_000, 0);
    assert_eq!(
        requests,
        vec![
            PostCommitRequest::BeforePostCommitHook {
                will_run_side_effects: false,
                operation_id: 99
            },
            PostCommitRequest::AfterPostCommitHook {
                will_run_side_effects: false,
                operation_id: 99
            },
        ]
    );
}

#[test]
fn the_hooks_are_told_of_a_wanted_checkpoint_even_if_none_is_due() {
    let table = snapshot(3, false, 10, true);
    let (done, requests) = run(post(4, Some(table), true, None, true), 5_000, 0);
    assert_eq!(
        requests,
        vec![
            PostCommitRequest::BeforePostCommitHook {
                will_run_side_effects: true,
                operation_id: 99
            },
            PostCommitRequest::AfterPostCommitHook {
                will_run_side_effects: true,
                operation_id: 99
            },
        ]
    );
    assert!(!done.metrics.new_checkpoint_created);
}

#[test]
fn a_created_table_is_loaded_and_nothing_else_happens() {
    let (done, requests) = run(post(0, None, true, Some(true), true), 5_000, 0);
    assert_eq!(requests, vec![PostCommitRequest::LoadState { version: 0 }]);
    assert_eq!(done.version(), 0);
    assert_eq!(
        done.metrics,
        Metrics {
            num_retries: 2,
            new_checkpoint_created: false,
            num_log_files_cleaned_up: 0
        }
    );
}

#[test]
fn the_housekeeping_reads_the_clock_for_the_cutoff() {
    let table = snapshot(0, true, 10, true);
    match post(1, Some(table), false, None, false).begin() {
        PostCommitProgress::Ask(
            run,
            PostCommitRequest::CleanupExpiredLogs {
                version: 1,
                cutoff,
                ..
            },
        ) => {
            // some time after 2020, less the retention
            assert!(cutoff > 1_577_836_800_000);
            assert_eq!(run.phase, PostCommitPhase::CleaningLogs);
            assert!(run.accepts(&PostCommitEvent::LogsCleaned(0)));
            assert_eq!(
                run.post_commit_metrics(),
                delta_commit::transaction::PostCommitMetrics {
                    new_checkpoint_created: false,
                    num_log_files_cleaned_up: 0
                }
            );
            assert!(!run.accepts(&PostCommitEvent::HookDone));
            assert!(!run.accepts(&PostCommitEvent::CheckpointCreated));
            match run.resume(PostCommitEvent::LogsCleaned(0)) {
                PostCommitProgress::Done(done) => assert_eq!(done.version(), 1),
                other => panic!("unexpected: {other:?}"),
            }
        }
        other => panic!("unexpected: {other:?}"),
    }
}

#[test]
fn a_reported_table_must_stand_at_the_version_asked_for() {
    // an update is asked for: the snapshot must stand before the commit
    let table = snapshot(2, false, 10, true);
    match post(5, Some(table), false, Some(false), false).begin_at(99, 0) {
        PostCommitProgress::Ask(run, PostCommitRequest::UpdateSnapshot { target: 4 }) => {
            assert!(!run.accepts(&PostCommitEvent::SnapshotUpdated(snapshot(3, false, 10, true))));
            assert!(!run.accepts(&PostCommitEvent::SnapshotUpdated(snapshot(5, false, 10, true))));
            assert!(run.accepts(&PostCommitEvent::SnapshotUpdated(snapshot(4, false, 10, true))));
        }
        other => panic!("unexpected: {other:?}"),
    }
    // a load is asked for: the table must stand at the commit
    match post(0, None, false, None, false).begin_at(99, 0) {
        PostCommitProgress::Ask(run, PostCommitRequest::LoadState { version: 0 }) => {
            let at = |version| {
                PostCommitEvent::StateLoaded(DeltaTableState {
                    snapshot: snapshot(version, false, 10, true),
                })
            };
            assert!(!run.accepts(&at(1)));
            assert!(!run.accepts(&at(-1)));
            assert!(run.accepts(&at(0)));
        }
        other => panic!("unexpected: {other:?}"),
    }
}

#[test]
fn a_finalized_commit_hands_out_what_it_holds() {
    let done = FinalizedCommit {
        snapshot: DeltaTableState {
            snapshot: snapshot(7, false, 10, true),
        },
        version: 7,
        metrics: Metrics::default(),
    };
    assert_eq!(done.version(), 7);
    assert_eq!(
        done.snapshot(),
        &DeltaTableState {
            snapshot: snapshot(7, false, 10, true)
        }
    );
}
