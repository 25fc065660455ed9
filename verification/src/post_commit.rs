//! Housekeeping after a commit went in: bringing the snapshot forward,
//! checkpointing on the interval, cleaning up expired log entries.
//!
//! Like the retry loop, the housekeeping is a machine that asks the caller to
//! do one thing at a time. The commit is durable before any of this starts;
//! a failing hook ends the housekeeping but never undoes the commit.

use crate::actions::Action;
use crate::commit_data::CommitData;
use crate::foreign::{fresh_uuid, now_millis};
use crate::snapshot::{apply_commit, DeltaTableState, EagerSnapshot};
use crate::transaction::{CommitMetrics, Metrics, PostCommitMetrics};
use vstd::prelude::*;

verus! {

/// A commit that is installed and whose hooks are still to run.
#[derive(Debug)]
pub struct PostCommit {
    /// The version the commit was installed as.
    pub version: i64,
    /// The data that was committed.
    pub data: CommitData,
    pub create_checkpoint: bool,
    pub cleanup_expired_logs: Option<bool>,
    /// The snapshot the commit was checked against last; `None` where the
    /// commit created the table.
    pub table_data: Option<EagerSnapshot>,
    pub custom_execute_handler: bool,
    pub metrics: CommitMetrics,
}

/// A commit that is complete.
#[derive(Debug)]
pub struct FinalizedCommit {
    /// The table after the commit.
    pub snapshot: DeltaTableState,
    /// The version of the commit.
    pub version: i64,
    /// What the commit took.
    pub metrics: Metrics,
}

impl FinalizedCommit {
    /// The table after the commit.
    pub fn snapshot(&self) -> (s: &DeltaTableState)
        ensures
            *s == self.snapshot,
    {
        &self.snapshot
    }

    /// The version of the commit.
    pub fn version(&self) -> (v: i64)
        ensures
            v == self.version,
    {
        self.version
    }
}

/// Where the housekeeping stands.
#[derive(Clone, Copy, Debug, PartialEq, Eq, Structural)]
pub enum PostCommitPhase {
    /// The snapshot is being brought to the version before the commit.
    UpdatingSnapshot,
    /// The caller's hook before the housekeeping runs.
    BeforeHook,
    /// A checkpoint is being created.
    CreatingCheckpoint,
    /// Expired log entries are being cleaned up.
    CleaningLogs,
    /// The table is being loaded again after log entries went away.
    Reloading,
    /// The caller's hook after the housekeeping runs.
    AfterHook,
    /// The table that the commit created is being loaded.
    LoadingState,
}

/// What the caller is asked to do.
#[derive(Clone, Copy, Debug, PartialEq, Eq, Structural)]
pub enum PostCommitRequest {
    /// Bring the snapshot of the run to version `target` and report it.
    UpdateSnapshot { target: i64 },
    /// Run the hook that precedes the housekeeping.
    BeforePostCommitHook { will_run_side_effects: bool, operation_id: u128 },
    /// Create a checkpoint of the table state of the run at `version`.
    CreateCheckpoint { version: i64, operation_id: u128 },
    /// Delete the log entries before `version` that are older than `cutoff`
    /// (milliseconds since the epoch) and report how many went away.
    CleanupExpiredLogs { version: i64, cutoff: i64, operation_id: u128 },
    /// Load the table at `version` from the log and report it.
    LoadState { version: i64 },
    /// Run the hook that follows the housekeeping.
    AfterPostCommitHook { will_run_side_effects: bool, operation_id: u128 },
}

/// What the caller reports back.
#[derive(Debug)]
pub enum PostCommitEvent {
    /// The snapshot at the version that was asked for.
    SnapshotUpdated(EagerSnapshot),
    /// The hook returned.
    HookDone,
    /// The checkpoint is written.
    CheckpointCreated,
    /// This many log entries were deleted.
    LogsCleaned(u64),
    /// The table as loaded from the log.
    StateLoaded(DeltaTableState),
}

/// The housekeeping of one commit in progress.
#[derive(Debug)]
pub struct PostCommitRun {
    /// The version the commit was installed as.
    pub version: i64,
    pub create_checkpoint: bool,
    pub custom_execute_handler: bool,
    /// Identifies the housekeeping towards the log store.
    pub operation_id: u128,
    /// Expired log entries are to be cleaned up.
    pub cleanup_logs: bool,
    pub cleanup_expired_logs: Option<bool>,
    /// The actions of the commit while the snapshot has not taken them in.
    pub pending: Vec<Action>,
    /// The table after the commit, once known.
    pub state: Option<DeltaTableState>,
    pub num_retries: u64,
    pub new_checkpoint_created: bool,
    pub num_log_files_cleaned_up: u64,
    pub phase: PostCommitPhase,
}

/// How far the housekeeping has come.
#[derive(Debug)]
pub enum PostCommitProgress {
    /// The housekeeping goes on once the request is answered.
    Ask(PostCommitRun, PostCommitRequest),
    /// The housekeeping is done.
    Done(FinalizedCommit),
}

/// Whether a checkpoint is due after installing `version`: the following
/// version is a multiple of the interval. Without an interval none is ever
/// due.
pub open spec fn checkpoint_due(version: i64, interval: u32) -> bool {
    interval > 0 && (version + 1) % (interval as int) == 0
}

/// The negative of a multiple is a multiple.
proof fn lemma_negated_multiple(m: int, d: int)
    requires
        d > 0,
        m % d == 0,
    ensures
        (-m) % d == 0,
{
    vstd::arithmetic::div_mod::lemma_fundamental_div_mod(m, d);
    let q = m / d;
    assert(-m == (-q) * d) by (nonlinear_arith)
        requires
            m == d * q,
    ;
    vstd::arithmetic::div_mod::lemma_mod_multiples_basic(-q, d);
}

/// Decides whether a checkpoint is due after installing `version`.
pub fn is_checkpoint_due(version: i64, interval: u32) -> (due: bool)
    ensures
        due == checkpoint_due(version, interval),
{
    if interval == 0 {
        return false;
    }
    // How far the following version is from zero; a number is a multiple of
    // the interval exactly when its distance from zero is.
    let distance: u64 = if version >= 0 {
        version as u64 + 1
    } else {
        (-(version + 1)) as u64
    };
    let due = distance % (interval as u64) == 0;
    proof {
        let following: int = version + 1;
        let d = interval as int;
        if version < 0 {
            assert(distance as int == -following);
            if following % d == 0 {
                lemma_negated_multiple(following, d);
            }
            if (-following) % d == 0 {
                lemma_negated_multiple(-following, d);
            }
        }
    }
    due
}

/// The difference `now - retention`, held within the range of `i64`.
pub open spec fn cutoff_of(now: i64, retention: i64) -> i64 {
    let exact = now - retention;
    if exact < i64::MIN {
        i64::MIN
    } else if exact > i64::MAX {
        i64::MAX
    } else {
        exact as i64
    }
}

/// The instant before which log entries count as expired: `retention`
/// milliseconds before `now`, saturating at the ends of the range.
pub fn cleanup_cutoff(now: i64, retention: i64) -> (cutoff: i64)
    ensures
        cutoff == cutoff_of(now, retention),
{
    match now.checked_sub(retention) {
        Some(cutoff) => cutoff,
        None => if retention > 0 {
            i64::MIN
        } else {
            i64::MAX
        },
    }
}

impl PostCommitRun {
    /// Whether anything with side effects is going to run.
    pub open spec fn will_run_side_effects(self) -> bool {
        self.cleanup_logs || self.create_checkpoint
    }

    /// The result of the run as it stands.
    pub open spec fn finalized(self) -> FinalizedCommit {
        FinalizedCommit {
            snapshot: self.state->Some_0,
            version: self.version,
            metrics: Metrics {
                num_retries: self.num_retries,
                new_checkpoint_created: self.new_checkpoint_created,
                num_log_files_cleaned_up: self.num_log_files_cleaned_up,
            },
        }
    }

    /// Whether a checkpoint is to be created for the table as it stands: the
    /// commit asks for it, the table was loaded with its files, and the
    /// interval is met.
    pub open spec fn wants_checkpoint(self) -> bool {
        let snapshot = self.state->Some_0.snapshot;
        self.create_checkpoint && snapshot.load_config.require_files && checkpoint_due(
            self.version,
            snapshot.metadata.config.checkpoint_interval,
        )
    }

    /// The step that ends the run: the caller's hook, if there is one.
    pub open spec fn finish_step(self) -> PostCommitProgress {
        if self.custom_execute_handler {
            PostCommitProgress::Ask(
                PostCommitRun { phase: PostCommitPhase::AfterHook, ..self },
                PostCommitRequest::AfterPostCommitHook {
                    will_run_side_effects: self.will_run_side_effects(),
                    operation_id: self.operation_id,
                },
            )
        } else {
            PostCommitProgress::Done(self.finalized())
        }
    }

    /// The cleanup step: expired log entries go if cleanup is on.
    pub open spec fn cleanup_step(self, now: i64) -> PostCommitProgress {
        if self.cleanup_logs {
            PostCommitProgress::Ask(
                PostCommitRun { phase: PostCommitPhase::CleaningLogs, ..self },
                PostCommitRequest::CleanupExpiredLogs {
                    version: self.version,
                    cutoff: cutoff_of(
                        now,
                        self.state->Some_0.snapshot.metadata.config.log_retention_ms,
                    ),
                    operation_id: self.operation_id,
                },
            )
        } else {
            self.finish_step()
        }
    }

    /// The checkpoint step: a checkpoint is created where one is wanted.
    pub open spec fn checkpoint_step(self, now: i64) -> PostCommitProgress {
        if self.wants_checkpoint() {
            PostCommitProgress::Ask(
                PostCommitRun { phase: PostCommitPhase::CreatingCheckpoint, ..self },
                PostCommitRequest::CreateCheckpoint {
                    version: self.version,
                    operation_id: self.operation_id,
                },
            )
        } else {
            self.cleanup_step(now)
        }
    }

    /// The step once the table after the commit is known: cleanup is decided
    /// by the commit's own wish or else the table setting, then the caller's
    /// hook runs if there is one.
    pub open spec fn hooks_step(self, now: i64) -> PostCommitProgress {
        let cleanup_logs = match self.cleanup_expired_logs {
            Some(wish) => wish,
            None => self.state->Some_0.snapshot.metadata.config.enable_expired_log_cleanup,
        };
        let run = PostCommitRun { cleanup_logs, ..self };
        if run.custom_execute_handler {
            PostCommitProgress::Ask(
                PostCommitRun { phase: PostCommitPhase::BeforeHook, ..run },
                PostCommitRequest::BeforePostCommitHook {
                    will_run_side_effects: run.will_run_side_effects(),
                    operation_id: run.operation_id,
                },
            )
        } else {
            run.checkpoint_step(now)
        }
    }

    /// Whether `run` is this run after `snapshot` took in the pending actions
    /// of the commit: its table is the snapshot moved one version forward by
    /// them, nothing is pending any more, and all else is as before.
    pub open spec fn advanced_to(self, run: PostCommitRun, snapshot: EagerSnapshot) -> bool {
        &&& run.state matches Some(state)
        &&& state.snapshot@ == apply_commit(snapshot@, self.pending@)
        &&& run.pending@.len() == 0
        &&& run.version == self.version
        &&& run.create_checkpoint == self.create_checkpoint
        &&& run.custom_execute_handler == self.custom_execute_handler
        &&& run.operation_id == self.operation_id
        &&& run.cleanup_logs == self.cleanup_logs
        &&& run.cleanup_expired_logs == self.cleanup_expired_logs
        &&& run.num_retries == self.num_retries
        &&& run.new_checkpoint_created == self.new_checkpoint_created
        &&& run.num_log_files_cleaned_up == self.num_log_files_cleaned_up
        &&& run.phase == self.phase
    }

    /// Whether `event` answers what the run last asked for. A snapshot or a
    /// table that is reported must stand at the version that was asked for:
    /// the version before the commit for an update, the version of the
    /// commit for a load.
    pub open spec fn expects(self, event: PostCommitEvent) -> bool {
        match (self.phase, event) {
            (PostCommitPhase::UpdatingSnapshot, PostCommitEvent::SnapshotUpdated(snapshot)) => {
                snapshot.version == self.version - 1
            },
            (PostCommitPhase::BeforeHook, PostCommitEvent::HookDone) => self.state is Some,
            (PostCommitPhase::CreatingCheckpoint, PostCommitEvent::CheckpointCreated) => self.state
                is Some,
            (PostCommitPhase::CleaningLogs, PostCommitEvent::LogsCleaned(_)) => self.state is Some,
            (PostCommitPhase::Reloading, PostCommitEvent::StateLoaded(state)) => {
                state.snapshot.version == self.version
            },
            (PostCommitPhase::AfterHook, PostCommitEvent::HookDone) => self.state is Some,
            (PostCommitPhase::LoadingState, PostCommitEvent::StateLoaded(state)) => {
                state.snapshot.version == self.version
            },
            _ => false,
        }
    }

    /// The step taken on an event that was expected, when the clock reads
    /// `now`. The step that takes the commit into an updated snapshot is
    /// described by `steps_to` instead.
    pub open spec fn next_step(self, event: PostCommitEvent, now: i64) -> PostCommitProgress {
        match (self.phase, event) {
            (PostCommitPhase::BeforeHook, PostCommitEvent::HookDone) => self.checkpoint_step(now),
            (PostCommitPhase::CreatingCheckpoint, PostCommitEvent::CheckpointCreated) => {
                (PostCommitRun { new_checkpoint_created: true, ..self }).cleanup_step(now)
            },
            (PostCommitPhase::CleaningLogs, PostCommitEvent::LogsCleaned(count)) => {
                let run = PostCommitRun { num_log_files_cleaned_up: count, ..self };
                if count > 0 {
                    PostCommitProgress::Ask(
                        PostCommitRun { phase: PostCommitPhase::Reloading, ..run },
                        PostCommitRequest::LoadState { version: run.version },
                    )
                } else {
                    run.finish_step()
                }
            },
            (PostCommitPhase::Reloading, PostCommitEvent::StateLoaded(state)) => {
                (PostCommitRun { state: Some(state), ..self }).finish_step()
            },
            (PostCommitPhase::AfterHook, PostCommitEvent::HookDone) => PostCommitProgress::Done(
                self.finalized(),
            ),
            (PostCommitPhase::LoadingState, PostCommitEvent::StateLoaded(state)) => {
                PostCommitProgress::Done((PostCommitRun { state: Some(state), ..self }).finalized())
            },
            _ => PostCommitProgress::Done(self.finalized()),
        }
    }

    /// Whether `progress` is the step taken on `event` when the clock reads
    /// `now`.
    pub open spec fn steps_to(
        self,
        event: PostCommitEvent,
        now: i64,
        progress: PostCommitProgress,
    ) -> bool {
        match (self.phase, event) {
            (PostCommitPhase::UpdatingSnapshot, PostCommitEvent::SnapshotUpdated(snapshot)) => {
                exists|run: PostCommitRun|
                    self.advanced_to(run, snapshot) && progress == run.hooks_step(now)
            },
            _ => progress == self.next_step(event, now),
        }
    }

    /// Whether `event` answers what the run last asked for.
    pub fn accepts(&self, event: &PostCommitEvent) -> (ok: bool)
        ensures
            ok == self.expects(*event),
    {
        match (self.phase, event) {
            (PostCommitPhase::UpdatingSnapshot, PostCommitEvent::SnapshotUpdated(snapshot)) => {
                snapshot.version < i64::MAX && snapshot.version + 1 == self.version
            },
            (PostCommitPhase::BeforeHook, PostCommitEvent::HookDone) => self.state.is_some(),
            (PostCommitPhase::CreatingCheckpoint, PostCommitEvent::CheckpointCreated) => {
                self.state.is_some()
            },
            (PostCommitPhase::CleaningLogs, PostCommitEvent::LogsCleaned(_)) => {
                self.state.is_some()
            },
            (PostCommitPhase::Reloading, PostCommitEvent::StateLoaded(state)) => {
                state.snapshot.version == self.version
            },
            (PostCommitPhase::AfterHook, PostCommitEvent::HookDone) => self.state.is_some(),
            (PostCommitPhase::LoadingState, PostCommitEvent::StateLoaded(state)) => {
                state.snapshot.version == self.version
            },
            _ => false,
        }
    }

    fn finish(self) -> (progress: PostCommitProgress)
        requires
            self.state is Some,
        ensures
            progress == self.finish_step(),
    {
        if self.custom_execute_handler {
            let will_run_side_effects = self.cleanup_logs || self.create_checkpoint;
            let operation_id = self.operation_id;
            PostCommitProgress::Ask(
                PostCommitRun { phase: PostCommitPhase::AfterHook, ..self },
                PostCommitRequest::AfterPostCommitHook { will_run_side_effects, operation_id },
            )
        } else {
            self.finalize()
        }
    }

    /// What the housekeeping did so far.
    pub fn post_commit_metrics(&self) -> (m: PostCommitMetrics)
        ensures
            m == (PostCommitMetrics {
                new_checkpoint_created: self.new_checkpoint_created,
                num_log_files_cleaned_up: self.num_log_files_cleaned_up,
            }),
    {
        PostCommitMetrics {
            new_checkpoint_created: self.new_checkpoint_created,
            num_log_files_cleaned_up: self.num_log_files_cleaned_up,
        }
    }

    fn finalize(self) -> (progress: PostCommitProgress)
        requires
            self.state is Some,
        ensures
            progress == PostCommitProgress::Done(self.finalized()),
    {
        let metrics = Metrics::combine(
            CommitMetrics { num_retries: self.num_retries },
            self.post_commit_metrics(),
        );
        let version = self.version;
        let snapshot = self.state.unwrap();
        PostCommitProgress::Done(FinalizedCommit { snapshot, version, metrics })
    }

    fn cleanup(self, now: i64) -> (progress: PostCommitProgress)
        requires
            self.state is Some,
        ensures
            progress == self.cleanup_step(now),
    {
        if self.cleanup_logs {
            let retention = match &self.state {
                Some(state) => state.snapshot.metadata.config.log_retention_ms,
                None => 0,
            };
            let request = PostCommitRequest::CleanupExpiredLogs {
                version: self.version,
                cutoff: cleanup_cutoff(now, retention),
                operation_id: self.operation_id,
            };
            PostCommitProgress::Ask(
                PostCommitRun { phase: PostCommitPhase::CleaningLogs, ..self },
                request,
            )
        } else {
            self.finish()
        }
    }

    fn checkpoint(self, now: i64) -> (progress: PostCommitProgress)
        requires
            self.state is Some,
        ensures
            progress == self.checkpoint_step(now),
    {
        let wanted = match &self.state {
            Some(state) => self.create_checkpoint && state.snapshot.load_config.require_files
                && is_checkpoint_due(
                self.version,
                state.snapshot.metadata.config.checkpoint_interval,
            ),
            None => false,
        };
        if wanted {
            let request = PostCommitRequest::CreateCheckpoint {
                version: self.version,
                operation_id: self.operation_id,
            };
            PostCommitProgress::Ask(
                PostCommitRun { phase: PostCommitPhase::CreatingCheckpoint, ..self },
                request,
            )
        } else {
            self.cleanup(now)
        }
    }

    fn hooks(self, now: i64) -> (progress: PostCommitProgress)
        requires
            self.state is Some,
        ensures
            progress == self.hooks_step(now),
    {
        let cleanup_logs = match self.cleanup_expired_logs {
            Some(wish) => wish,
            None => match &self.state {
                Some(state) => state.snapshot.metadata.config.enable_expired_log_cleanup,
                None => false,
            },
        };
        let run = PostCommitRun { cleanup_logs, ..self };
        if run.custom_execute_handler {
            let request = PostCommitRequest::BeforePostCommitHook {
                will_run_side_effects: run.cleanup_logs || run.create_checkpoint,
                operation_id: run.operation_id,
            };
            PostCommitProgress::Ask(
                PostCommitRun { phase: PostCommitPhase::BeforeHook, ..run },
                request,
            )
        } else {
            run.checkpoint(now)
        }
    }

    fn take_in(self, snapshot: EagerSnapshot, now: i64) -> (progress: PostCommitProgress)
        requires
            snapshot.version < i64::MAX,
        ensures
            exists|run: PostCommitRun|
                self.advanced_to(run, snapshot) && progress == run.hooks_step(now),
    {
        let PostCommitRun {
            version,
            create_checkpoint,
            custom_execute_handler,
            operation_id,
            cleanup_logs,
            cleanup_expired_logs,
            pending,
            state,
            num_retries,
            new_checkpoint_created,
            num_log_files_cleaned_up,
            phase,
        } = self;
        let mut advanced = snapshot;
        advanced.advance(pending);
        let run = PostCommitRun {
            version,
            create_checkpoint,
            custom_execute_handler,
            operation_id,
            cleanup_logs,
            cleanup_expired_logs,
            pending: Vec::new(),
            state: Some(DeltaTableState { snapshot: advanced }),
            num_retries,
            new_checkpoint_created,
            num_log_files_cleaned_up,
            phase,
        };
        assert(self.advanced_to(run, snapshot));
        run.hooks(now)
    }

    /// Takes the next step of the housekeeping for a given reading of the
    /// clock.
    pub fn resume_at(self, event: PostCommitEvent, now: i64) -> (progress: PostCommitProgress)
        requires
            self.expects(event),
        ensures
            self.steps_to(event, now, progress),
    {
        match (self.phase, event) {
            (PostCommitPhase::UpdatingSnapshot, PostCommitEvent::SnapshotUpdated(snapshot)) => {
                self.take_in(snapshot, now)
            },
            (PostCommitPhase::BeforeHook, PostCommitEvent::HookDone) => self.checkpoint(now),
            (PostCommitPhase::CreatingCheckpoint, PostCommitEvent::CheckpointCreated) => {
                (PostCommitRun { new_checkpoint_created: true, ..self }).cleanup(now)
            },
            (PostCommitPhase::CleaningLogs, PostCommitEvent::LogsCleaned(count)) => {
                let run = PostCommitRun { num_log_files_cleaned_up: count, ..self };
                if count > 0 {
                    let request = PostCommitRequest::LoadState { version: run.version };
                    PostCommitProgress::Ask(
                        PostCommitRun { phase: PostCommitPhase::Reloading, ..run },
                        request,
                    )
                } else {
                    run.finish()
                }
            },
            (PostCommitPhase::Reloading, PostCommitEvent::StateLoaded(state)) => {
                (PostCommitRun { state: Some(state), ..self }).finish()
            },
            (PostCommitPhase::AfterHook, PostCommitEvent::HookDone) => self.finalize(),
            (PostCommitPhase::LoadingState, PostCommitEvent::StateLoaded(state)) => {
                (PostCommitRun { state: Some(state), ..self }).finalize()
            },
            _ => {
                assert(false);
                self.finalize()
            },
        }
    }

    /// Takes the next step of the housekeeping on the answer to its last
    /// request, reading the clock where a cutoff is needed.
    pub fn resume(self, event: PostCommitEvent) -> (progress: PostCommitProgress)
        requires
            self.expects(event),
        ensures
            exists|now: i64| self.steps_to(event, now, progress),
    {
        let now = now_millis();
        self.resume_at(event, now)
    }
}

impl PostCommit {
    /// Whether the commit went in more than one version after the snapshot
    /// it was checked against, so that the snapshot has to catch up first.
    pub open spec fn behind(self) -> bool {
        self.table_data matches Some(snapshot) && self.version - snapshot.version > 1
    }

    /// The run before anything happened, in the given phase.
    pub open spec fn fresh_run(self, operation_id: u128, phase: PostCommitPhase) -> PostCommitRun {
        PostCommitRun {
            version: self.version,
            create_checkpoint: self.create_checkpoint,
            custom_execute_handler: self.custom_execute_handler,
            operation_id,
            cleanup_logs: false,
            cleanup_expired_logs: self.cleanup_expired_logs,
            pending: self.data.actions,
            state: None,
            num_retries: self.metrics.num_retries,
            new_checkpoint_created: false,
            num_log_files_cleaned_up: 0,
            phase,
        }
    }

    /// Whether `progress` is the first step of the housekeeping.
    ///
    /// * The commit created the table: the table is loaded from the log and
    ///   nothing else happens.
    /// * The commit went in more than one version after its snapshot: the
    ///   snapshot is first brought to the version before the commit.
    /// * Otherwise the snapshot takes in the commit at once and the hooks
    ///   follow.
    pub open spec fn begins_with(
        self,
        operation_id: u128,
        now: i64,
        progress: PostCommitProgress,
    ) -> bool {
        match self.table_data {
            None => progress == PostCommitProgress::Ask(
                self.fresh_run(operation_id, PostCommitPhase::LoadingState),
                PostCommitRequest::LoadState { version: self.version },
            ),
            Some(snapshot) => if self.version - snapshot.version > 1 {
                progress == PostCommitProgress::Ask(
                    self.fresh_run(operation_id, PostCommitPhase::UpdatingSnapshot),
                    PostCommitRequest::UpdateSnapshot { target: (self.version - 1) as i64 },
                )
            } else {
                exists|run: PostCommitRun|
                    self.fresh_run(operation_id, PostCommitPhase::UpdatingSnapshot).advanced_to(
                        run,
                        snapshot,
                    ) && progress == run.hooks_step(now)
            },
        }
    }

    /// Starts the housekeeping under the given operation id, for a given
    /// reading of the clock.
    pub fn begin_at(self, operation_id: u128, now: i64) -> (progress: PostCommitProgress)
        requires
            self.table_data matches Some(snapshot) ==> snapshot.version < i64::MAX,
        ensures
            self.begins_with(operation_id, now, progress),
    {
        let PostCommit {
            version,
            data,
            create_checkpoint,
            cleanup_expired_logs,
            table_data,
            custom_execute_handler,
            metrics,
        } = self;
        let run = PostCommitRun {
            version,
            create_checkpoint,
            custom_execute_handler,
            operation_id,
            cleanup_logs: false,
            cleanup_expired_logs,
            pending: data.actions,
            state: None,
            num_retries: metrics.num_retries,
            new_checkpoint_created: false,
            num_log_files_cleaned_up: 0,
            phase: PostCommitPhase::UpdatingSnapshot,
        };
        match table_data {
            None => PostCommitProgress::Ask(
                PostCommitRun { phase: PostCommitPhase::LoadingState, ..run },
                PostCommitRequest::LoadState { version },
            ),
            Some(snapshot) => {
                if version as i128 - snapshot.version as i128 > 1 {
                    let target: i64 = version - 1;
                    PostCommitProgress::Ask(run, PostCommitRequest::UpdateSnapshot { target })
                } else {
                    run.take_in(snapshot, now)
                }
            },
        }
    }

    /// Starts the housekeeping under a fresh operation id.
    pub fn begin(self) -> (progress: PostCommitProgress)
        requires
            self.table_data matches Some(snapshot) ==> snapshot.version < i64::MAX,
        ensures
            exists|operation_id: u128, now: i64| self.begins_with(operation_id, now, progress),
    {
        let operation_id = fresh_uuid();
        let now = now_millis();
        self.begin_at(operation_id, now)
    }
}

/// Where the housekeeping stands after the given events were fed to it in
/// order, each with the reading of the clock at its step. An event the run
/// does not expect, and any event after the run has ended, changes nothing.
pub open spec fn post_run(
    progress: PostCommitProgress,
    events: Seq<(PostCommitEvent, i64)>,
) -> PostCommitProgress
    decreases events.len(),
{
    if events.len() == 0 {
        progress
    } else {
        match progress {
            PostCommitProgress::Ask(run, _) => if run.expects(events[0].0) {
                post_run(run.next_step(events[0].0, events[0].1), events.skip(1))
            } else {
                progress
            },
            _ => progress,
        }
    }
}

/// Whether the housekeeping has come to `decision` on the checkpoint, or is
/// bound to.
pub open spec fn settled(progress: PostCommitProgress, decision: bool) -> bool {
    match progress {
        PostCommitProgress::Done(done) => done.metrics.new_checkpoint_created == decision,
        PostCommitProgress::Ask(run, _) => match run.phase {
            PostCommitPhase::BeforeHook => !run.new_checkpoint_created && run.wants_checkpoint()
                == decision,
            PostCommitPhase::CreatingCheckpoint => !run.new_checkpoint_created && decision,
            PostCommitPhase::CleaningLogs => run.new_checkpoint_created == decision,
            PostCommitPhase::Reloading => run.new_checkpoint_created == decision,
            PostCommitPhase::AfterHook => run.new_checkpoint_created == decision,
            _ => false,
        },
    }
}

/// A decision on the checkpoint, once settled, is what the run ends with.
pub proof fn lemma_settled_stays(
    progress: PostCommitProgress,
    decision: bool,
    events: Seq<(PostCommitEvent, i64)>,
)
    requires
        settled(progress, decision),
    ensures
        settled(post_run(progress, events), decision),
    decreases events.len(),
{
    if events.len() > 0 {
        match progress {
            PostCommitProgress::Ask(run, _) => {
                if run.expects(events[0].0) {
                    let next = run.next_step(events[0].0, events[0].1);
                    assert(settled(next, decision));
                    lemma_settled_stays(next, decision, events.skip(1));
                }
            },
            _ => {},
        }
    }
}

/// A checkpoint is created after a commit exactly when the commit asks for
/// one, the table was loaded with its files, and the version after the commit
/// is a multiple of the checkpoint interval.
pub proof fn lemma_checkpoint_iff_due(
    run: PostCommitRun,
    now: i64,
    events: Seq<(PostCommitEvent, i64)>,
)
    requires
        run.state is Some,
        !run.new_checkpoint_created,
        post_run(run.hooks_step(now), events) is Done,
    ensures
        post_run(run.hooks_step(now), events)->Done_0.metrics.new_checkpoint_created == (
        run.create_checkpoint && run.state->Some_0.snapshot.load_config.require_files
            && checkpoint_due(
            run.version,
            run.state->Some_0.snapshot.metadata.config.checkpoint_interval,
        )),
{
    let decision = run.wants_checkpoint();
    assert(settled(run.hooks_step(now), decision));
    lemma_settled_stays(run.hooks_step(now), decision, events);
}

/// For a table with a checkpoint interval of at least one, a checkpoint is
/// created after a commit if and only if the commit asks for one, the version
/// after it is a multiple of the interval, and the table was loaded with its
/// files.
pub proof fn lemma_checkpoint_created_iff(
    run: PostCommitRun,
    now: i64,
    events: Seq<(PostCommitEvent, i64)>,
)
    requires
        run.state is Some,
        !run.new_checkpoint_created,
        run.state->Some_0.snapshot.metadata.config.checkpoint_interval >= 1,
        post_run(run.hooks_step(now), events) is Done,
    ensures
        post_run(run.hooks_step(now), events)->Done_0.metrics.new_checkpoint_created == (
        run.create_checkpoint && (run.version + 1) % (
        run.state->Some_0.snapshot.metadata.config.checkpoint_interval as int) == 0
            && run.state->Some_0.snapshot.load_config.require_files),
{
    lemma_checkpoint_iff_due(run, now, events);
}

/// Whether the table of the housekeeping stands at the version of the
/// commit, now and at its end.
pub open spec fn at_commit_version(progress: PostCommitProgress) -> bool {
    match progress {
        PostCommitProgress::Done(done) => done.snapshot.snapshot.version == done.version,
        PostCommitProgress::Ask(run, _) => match run.phase {
            PostCommitPhase::UpdatingSnapshot => false,
            PostCommitPhase::LoadingState => true,
            PostCommitPhase::Reloading => true,
            _ => run.state matches Some(state) && state.snapshot.version == run.version,
        },
    }
}

/// Once the table of the housekeeping stands at the version of the commit,
/// it does so to the end, whatever is loaded in between.
pub proof fn lemma_stays_at_commit_version(
    progress: PostCommitProgress,
    events: Seq<(PostCommitEvent, i64)>,
)
    requires
        at_commit_version(progress),
    ensures
        at_commit_version(post_run(progress, events)),
    decreases events.len(),
{
    if events.len() > 0 {
        match progress {
            PostCommitProgress::Ask(run, _) => {
                if run.expects(events[0].0) {
                    let next = run.next_step(events[0].0, events[0].1);
                    assert(at_commit_version(next));
                    lemma_stays_at_commit_version(next, events.skip(1));
                }
            },
            _ => {},
        }
    }
}

/// The table a finalized commit hands out stands at the version of the
/// commit, provided the snapshot that took the commit in stood at the
/// version before it.
pub proof fn lemma_finalized_at_commit_version(
    run: PostCommitRun,
    now: i64,
    events: Seq<(PostCommitEvent, i64)>,
)
    requires
        run.state matches Some(state) && state.snapshot.version == run.version,
        post_run(run.hooks_step(now), events) is Done,
    ensures
        post_run(run.hooks_step(now), events)->Done_0.snapshot.snapshot.version == run.version,
        post_run(run.hooks_step(now), events)->Done_0.version == run.version,
{
    assert(at_commit_version(run.hooks_step(now)));
    lemma_stays_at_commit_version(run.hooks_step(now), events);
    lemma_version_is_kept(run.hooks_step(now), run.version, events);
}

/// Whether the housekeeping is about the commit at `version`.
pub open spec fn about_version(progress: PostCommitProgress, version: i64) -> bool {
    match progress {
        PostCommitProgress::Done(done) => done.version == version,
        PostCommitProgress::Ask(run, _) => run.version == version,
    }
}

/// The housekeeping never changes which commit it is about.
pub proof fn lemma_version_is_kept(
    progress: PostCommitProgress,
    version: i64,
    events: Seq<(PostCommitEvent, i64)>,
)
    requires
        about_version(progress, version),
    ensures
        about_version(post_run(progress, events), version),
    decreases events.len(),
{
    if events.len() > 0 {
        match progress {
            PostCommitProgress::Ask(run, _) => {
                if run.expects(events[0].0) {
                    let next = run.next_step(events[0].0, events[0].1);
                    assert(about_version(next, version));
                    lemma_version_is_kept(next, version, events.skip(1));
                }
            },
            _ => {},
        }
    }
}

} // verus!
