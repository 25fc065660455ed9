//! Installing a prepared commit: the bounded retry loop.
//!
//! The loop is written as a machine that never touches storage itself. It
//! asks for one thing at a time, the caller does it against the log store and
//! reports back, and the machine decides what comes next. The only failure it
//! recovers from is losing the race for a version.

use crate::actions::Action;
use crate::commit_data::CommitData;
use crate::conflict_checker::{
    conflict_verdict,
    ConflictChecker,
    TransactionInfo,
    WinningCommitSummary,
};
use crate::errors::{CommitConflictError, DeltaTableError, TransactionError};
use crate::logstore::CommitOrBytes;
use crate::post_commit::PostCommit;
use crate::snapshot::EagerSnapshot;
use crate::transaction::{CommitMetrics, PostCommitHookProperties};
use vstd::prelude::*;

verus! {

/// Where the retry loop stands.
#[derive(Debug)]
pub enum CommitPhase {
    /// Nothing has been asked for yet.
    Ready,
    /// Version 0 is being installed: the commit creates the table.
    Creating,
    /// The latest installed version has been asked for.
    AwaitingLatest,
    /// The log entry at `version` has been asked for, to be checked for
    /// conflicts; entries up to `latest` are to follow.
    Checking { latest: i64, version: i64 },
    /// The read snapshot is being brought to `latest`.
    Updating { latest: i64 },
    /// The payload is being installed at `version`.
    Installing { version: i64 },
    /// A failed install is being cleaned up; `error` is why it failed.
    Aborting { error: TransactionError },
}

/// What the caller is asked to do against the log store.
#[derive(Clone, Copy, Debug, PartialEq, Eq, Structural)]
pub enum CommitRequest {
    /// Report the highest installed version that is at least `current`.
    GetLatestVersion { current: i64 },
    /// Read the log entry at `version` and report its actions.
    ReadCommitEntry { version: i64 },
    /// Bring the read snapshot to version `target` and report it.
    UpdateSnapshot { target: i64 },
    /// Install the payload as `version`, atomically.
    WriteCommitEntry { version: i64 },
    /// Clean up after a failed install at `version`.
    AbortCommitEntry { version: i64 },
}

/// What the caller reports back.
#[derive(Debug)]
pub enum CommitEvent {
    /// The highest installed version.
    LatestVersion(i64),
    /// The actions of the log entry that was asked for.
    WinningCommit(Vec<Action>),
    /// The read snapshot at the version that was asked for.
    SnapshotUpdated(EagerSnapshot),
    /// The payload was installed.
    Written,
    /// The payload was not installed.
    WriteFailed(TransactionError),
    /// The cleanup is done.
    Aborted,
    /// The cleanup itself failed, and this is why.
    AbortFailed(TransactionError),
}

/// A commit whose payload is staged and which is being installed.
#[derive(Debug)]
pub struct PreparedCommit {
    /// The payload handed to the log store, unchanged across attempts.
    pub commit_or_bytes: CommitOrBytes,
    pub data: CommitData,
    /// The snapshot the commit is checked against; replaced whenever the
    /// loop has caught up with winning commits.
    pub table_data: Option<EagerSnapshot>,
    pub max_retries: usize,
    pub post_commit: Option<PostCommitHookProperties>,
    pub post_commit_hook_handler: bool,
    pub operation_id: u128,
    /// How often the race for a version was lost so far.
    pub retries: usize,
    pub phase: CommitPhase,
}

/// How far the loop has come.
#[derive(Debug)]
pub enum CommitProgress {
    /// The loop goes on once the request is answered.
    Ask(PreparedCommit, CommitRequest),
    /// The commit is installed.
    Done(PostCommit),
    /// The commit failed for good.
    Failed(DeltaTableError),
}

/// The error a transaction error surfaces as.
pub open spec fn surfaced(error: TransactionError) -> DeltaTableError {
    <DeltaTableError as vstd::std_specs::convert::FromSpec<TransactionError>>::from_spec(error)
}

impl PreparedCommit {
    /// The payload that is handed to the log store on every attempt.
    pub fn commit_or_bytes(&self) -> (payload: &CommitOrBytes)
        ensures
            *payload == self.commit_or_bytes,
    {
        &self.commit_or_bytes
    }

    /// The verdict of the conflict checker on a winning commit.
    pub open spec fn conflict_with(self, winner: Seq<Action>) -> Option<CommitConflictError> {
        conflict_verdict(
            self.table_data->Some_0@,
            self.data.operation.spec_read_predicate(),
            self.data.actions@,
            self.data.operation.spec_read_whole_table(),
            winner,
            self.data.operation.spec_is_protocol_upgrade(),
        )
    }

    /// The post-commit stage after a successful install at `version`.
    pub open spec fn installed_at(self, version: i64) -> PostCommit {
        PostCommit {
            version,
            data: self.data,
            create_checkpoint: match self.post_commit {
                Some(hook) => hook.create_checkpoint,
                None => false,
            },
            cleanup_expired_logs: match self.post_commit {
                Some(hook) => hook.cleanup_expired_logs,
                None => None,
            },
            table_data: self.table_data,
            custom_execute_handler: self.post_commit_hook_handler,
            metrics: CommitMetrics { num_retries: self.retries as u64 },
        }
    }

    /// The post-commit stage after the table was created.
    pub open spec fn created(self) -> PostCommit {
        PostCommit {
            version: 0,
            data: self.data,
            create_checkpoint: false,
            cleanup_expired_logs: None,
            table_data: None,
            custom_execute_handler: self.post_commit_hook_handler,
            metrics: CommitMetrics { num_retries: 0 },
        }
    }

    /// The first step.
    ///
    /// Without a table the commit creates it: version 0 is installed right
    /// away. Otherwise the first attempt starts by asking for the latest
    /// version.
    pub open spec fn first_step(self) -> CommitProgress {
        match self.table_data {
            None => CommitProgress::Ask(
                PreparedCommit { phase: CommitPhase::Creating, ..self },
                CommitRequest::WriteCommitEntry { version: 0 },
            ),
            Some(snapshot) => CommitProgress::Ask(
                PreparedCommit { phase: CommitPhase::AwaitingLatest, retries: 0, ..self },
                CommitRequest::GetLatestVersion { current: snapshot.version },
            ),
        }
    }

    /// Whether `event` answers what the loop last asked for. The latest
    /// version must leave room for one more version, and an updated snapshot
    /// must stand at the version that was asked for.
    pub open spec fn expects(self, event: CommitEvent) -> bool {
        match (self.phase, event) {
            (CommitPhase::Creating, CommitEvent::Written) => true,
            (CommitPhase::Creating, CommitEvent::WriteFailed(_)) => true,
            (CommitPhase::AwaitingLatest, CommitEvent::LatestVersion(latest)) => {
                &&& self.table_data is Some
                &&& latest < i64::MAX
            },
            (CommitPhase::Checking { latest, version }, CommitEvent::WinningCommit(_)) => {
                &&& self.table_data is Some
                &&& version <= latest < i64::MAX
            },
            (CommitPhase::Updating { latest }, CommitEvent::SnapshotUpdated(snapshot)) => {
                &&& latest < i64::MAX
                &&& snapshot.version == latest
            },
            (CommitPhase::Installing { .. }, CommitEvent::Written) => self.table_data is Some,
            (CommitPhase::Installing { .. }, CommitEvent::WriteFailed(_)) => self.table_data
                is Some,
            (CommitPhase::Aborting { .. }, CommitEvent::Aborted) => true,
            (CommitPhase::Aborting { .. }, CommitEvent::AbortFailed(_)) => true,
            _ => false,
        }
    }

    /// The step taken on an event that was expected.
    ///
    /// * The latest version is ahead of the read snapshot: with no retries
    ///   allowed the commit fails at once; otherwise every version in between
    ///   is read and checked, oldest first.
    /// * A winning commit conflicts: the commit fails with the conflict.
    /// * All winning commits pass: the read snapshot is brought up to date.
    /// * Nothing is ahead, or the snapshot is up to date: the payload is
    ///   installed at the version after the latest.
    /// * The install lost the race: one retry is used up and the loop starts
    ///   over, unless no retry is left.
    /// * The install failed otherwise: the staged payload is cleaned up and
    ///   the failure of the install surfaces, whether or not the cleanup
    ///   itself went through.
    ///
    /// A commit that creates the table has one attempt: a version 0 that is
    /// there already surfaces as it is, and any other failure is cleaned up
    /// like that of any install.
    pub open spec fn next_step(self, event: CommitEvent) -> CommitProgress {
        match (self.phase, event) {
            (CommitPhase::Creating, CommitEvent::Written) => CommitProgress::Done(self.created()),
            (CommitPhase::Creating, CommitEvent::WriteFailed(error)) => {
                if error is VersionAlreadyExists {
                    CommitProgress::Failed(surfaced(error))
                } else {
                    CommitProgress::Ask(
                        PreparedCommit { phase: CommitPhase::Aborting { error }, ..self },
                        CommitRequest::AbortCommitEntry { version: 0 },
                    )
                }
            },
            (CommitPhase::AwaitingLatest, CommitEvent::LatestVersion(latest)) => {
                let current = self.table_data->Some_0.version;
                if latest > current {
                    if self.max_retries == 0 {
                        CommitProgress::Failed(
                            surfaced(TransactionError::MaxCommitAttempts(self.max_retries as i32)),
                        )
                    } else {
                        CommitProgress::Ask(
                            PreparedCommit {
                                phase: CommitPhase::Checking {
                                    latest,
                                    version: (current + 1) as i64,
                                },
                                ..self
                            },
                            CommitRequest::ReadCommitEntry { version: (current + 1) as i64 },
                        )
                    }
                } else {
                    self.install_after(latest)
                }
            },
            (CommitPhase::Checking { latest, version }, CommitEvent::WinningCommit(winner)) => {
                match self.conflict_with(winner@) {
                    Some(kind) => CommitProgress::Failed(
                        surfaced(TransactionError::CommitConflict(kind)),
                    ),
                    None => if version < latest {
                        CommitProgress::Ask(
                            PreparedCommit {
                                phase: CommitPhase::Checking {
                                    latest,
                                    version: (version + 1) as i64,
                                },
                                ..self
                            },
                            CommitRequest::ReadCommitEntry { version: (version + 1) as i64 },
                        )
                    } else {
                        CommitProgress::Ask(
                            PreparedCommit { phase: CommitPhase::Updating { latest }, ..self },
                            CommitRequest::UpdateSnapshot { target: latest },
                        )
                    },
                }
            },
            (CommitPhase::Updating { latest }, CommitEvent::SnapshotUpdated(snapshot)) => {
                (PreparedCommit { table_data: Some(snapshot), ..self }).install_after(latest)
            },
            (CommitPhase::Installing { version }, CommitEvent::Written) => CommitProgress::Done(
                self.installed_at(version),
            ),
            (CommitPhase::Installing { version }, CommitEvent::WriteFailed(error)) => {
                if error is VersionAlreadyExists {
                    if self.retries < self.max_retries {
                        CommitProgress::Ask(
                            PreparedCommit {
                                phase: CommitPhase::AwaitingLatest,
                                retries: (self.retries + 1) as usize,
                                ..self
                            },
                            CommitRequest::GetLatestVersion {
                                current: self.table_data->Some_0.version,
                            },
                        )
                    } else {
                        CommitProgress::Failed(
                            surfaced(TransactionError::MaxCommitAttempts(self.max_retries as i32)),
                        )
                    }
                } else {
                    CommitProgress::Ask(
                        PreparedCommit { phase: CommitPhase::Aborting { error }, ..self },
                        CommitRequest::AbortCommitEntry { version },
                    )
                }
            },
            (CommitPhase::Aborting { error }, CommitEvent::Aborted) => CommitProgress::Failed(
                surfaced(error),
            ),
            (CommitPhase::Aborting { error }, CommitEvent::AbortFailed(_)) => {
                CommitProgress::Failed(surfaced(error))
            },
            _ => CommitProgress::Ask(self, CommitRequest::GetLatestVersion { current: 0 }),
        }
    }

    /// The request to install the payload at the version after `latest`.
    pub open spec fn install_after(self, latest: i64) -> CommitProgress {
        CommitProgress::Ask(
            PreparedCommit {
                phase: CommitPhase::Installing { version: (latest + 1) as i64 },
                ..self
            },
            CommitRequest::WriteCommitEntry { version: (latest + 1) as i64 },
        )
    }

    /// Starts installing the commit.
    pub fn begin(self) -> (progress: CommitProgress)
        ensures
            progress == self.first_step(),
    {
        let current = match &self.table_data {
            None => None,
            Some(snapshot) => Some(snapshot.version),
        };
        match current {
            None => CommitProgress::Ask(
                PreparedCommit { phase: CommitPhase::Creating, ..self },
                CommitRequest::WriteCommitEntry { version: 0 },
            ),
            Some(current) => CommitProgress::Ask(
                PreparedCommit { phase: CommitPhase::AwaitingLatest, retries: 0, ..self },
                CommitRequest::GetLatestVersion { current },
            ),
        }
    }

    /// Whether `event` answers what the loop last asked for.
    pub fn accepts(&self, event: &CommitEvent) -> (ok: bool)
        ensures
            ok == self.expects(*event),
    {
        match (&self.phase, event) {
            (CommitPhase::Creating, CommitEvent::Written) => true,
            (CommitPhase::Creating, CommitEvent::WriteFailed(_)) => true,
            (CommitPhase::AwaitingLatest, CommitEvent::LatestVersion(latest)) => {
                self.table_data.is_some() && *latest < i64::MAX
            },
            (CommitPhase::Checking { latest, version }, CommitEvent::WinningCommit(_)) => {
                self.table_data.is_some() && *version <= *latest && *latest < i64::MAX
            },
            (CommitPhase::Updating { latest }, CommitEvent::SnapshotUpdated(snapshot)) => {
                *latest < i64::MAX && snapshot.version == *latest
            },
            (CommitPhase::Installing { .. }, CommitEvent::Written) => self.table_data.is_some(),
            (CommitPhase::Installing { .. }, CommitEvent::WriteFailed(_)) => {
                self.table_data.is_some()
            },
            (CommitPhase::Aborting { .. }, CommitEvent::Aborted) => true,
            (CommitPhase::Aborting { .. }, CommitEvent::AbortFailed(_)) => true,
            _ => false,
        }
    }

    fn install(self, latest: i64) -> (progress: CommitProgress)
        requires
            latest < i64::MAX,
        ensures
            progress == self.install_after(latest),
    {
        let version: i64 = latest + 1;
        CommitProgress::Ask(
            PreparedCommit { phase: CommitPhase::Installing { version }, ..self },
            CommitRequest::WriteCommitEntry { version },
        )
    }

    fn check(&self, winner: Vec<Action>) -> (res: Result<(), CommitConflictError>)
        requires
            self.table_data is Some,
        ensures
            match res {
                Ok(_) => self.conflict_with(winner@) is None,
                Err(kind) => self.conflict_with(winner@) == Some(kind),
            },
    {
        let snapshot = match &self.table_data {
            Some(snapshot) => snapshot,
            None => {
                assert(false);
                return Ok(());
            },
        };
        let info = TransactionInfo::new(
            snapshot,
            self.data.operation.read_predicate(),
            &self.data.actions,
            self.data.operation.read_whole_table(),
        );
        let checker = ConflictChecker::new(
            info,
            WinningCommitSummary::new(winner),
            Some(&self.data.operation),
        );
        checker.check_conflicts()
    }

    /// Takes the next step of the loop on the answer to its last request.
    pub fn resume(self, event: CommitEvent) -> (progress: CommitProgress)
        requires
            self.expects(event),
        ensures
            progress == self.next_step(event),
    {
        let PreparedCommit {
            commit_or_bytes,
            data,
            table_data,
            max_retries,
            post_commit,
            post_commit_hook_handler,
            operation_id,
            retries,
            phase,
        } = self;
        match (phase, event) {
            (CommitPhase::Creating, CommitEvent::Written) => CommitProgress::Done(
                PostCommit {
                    version: 0,
                    data,
                    create_checkpoint: false,
                    cleanup_expired_logs: None,
                    table_data: None,
                    custom_execute_handler: post_commit_hook_handler,
                    metrics: CommitMetrics { num_retries: 0 },
                },
            ),
            (CommitPhase::Creating, CommitEvent::WriteFailed(error)) => {
                let exists_already = match &error {
                    TransactionError::VersionAlreadyExists(_) => true,
                    _ => false,
                };
                if exists_already {
                    CommitProgress::Failed(DeltaTableError::from(error))
                } else {
                    CommitProgress::Ask(
                        PreparedCommit {
                            commit_or_bytes,
                            data,
                            table_data,
                            max_retries,
                            post_commit,
                            post_commit_hook_handler,
                            operation_id,
                            retries,
                            phase: CommitPhase::Aborting { error },
                        },
                        CommitRequest::AbortCommitEntry { version: 0 },
                    )
                }
            },
            (CommitPhase::AwaitingLatest, CommitEvent::LatestVersion(latest)) => {
                let current = match &table_data {
                    Some(snapshot) => snapshot.version,
                    None => 0,
                };
                let this = PreparedCommit {
                    commit_or_bytes,
                    data,
                    table_data,
                    max_retries,
                    post_commit,
                    post_commit_hook_handler,
                    operation_id,
                    retries,
                    phase: CommitPhase::AwaitingLatest,
                };
                if latest > current {
                    if max_retries == 0 {
                        CommitProgress::Failed(
                            DeltaTableError::from(
                                TransactionError::MaxCommitAttempts(max_retries as i32),
                            ),
                        )
                    } else {
                        let version: i64 = current + 1;
                        CommitProgress::Ask(
                            PreparedCommit {
                                phase: CommitPhase::Checking { latest, version },
                                ..this
                            },
                            CommitRequest::ReadCommitEntry { version },
                        )
                    }
                } else {
                    this.install(latest)
                }
            },
            (CommitPhase::Checking { latest, version }, CommitEvent::WinningCommit(winner)) => {
                let this = PreparedCommit {
                    commit_or_bytes,
                    data,
                    table_data,
                    max_retries,
                    post_commit,
                    post_commit_hook_handler,
                    operation_id,
                    retries,
                    phase: CommitPhase::Checking { latest, version },
                };
                match this.check(winner) {
                    Err(kind) => CommitProgress::Failed(
                        DeltaTableError::from(TransactionError::CommitConflict(kind)),
                    ),
                    Ok(_) => if version < latest {
                        let following: i64 = version + 1;
                        CommitProgress::Ask(
                            PreparedCommit {
                                phase: CommitPhase::Checking { latest, version: following },
                                ..this
                            },
                            CommitRequest::ReadCommitEntry { version: following },
                        )
                    } else {
                        CommitProgress::Ask(
                            PreparedCommit { phase: CommitPhase::Updating { latest }, ..this },
                            CommitRequest::UpdateSnapshot { target: latest },
                        )
                    },
                }
            },
            (CommitPhase::Updating { latest }, CommitEvent::SnapshotUpdated(snapshot)) => {
                let this = PreparedCommit {
                    commit_or_bytes,
                    data,
                    table_data: Some(snapshot),
                    max_retries,
                    post_commit,
                    post_commit_hook_handler,
                    operation_id,
                    retries,
                    phase: CommitPhase::Updating { latest },
                };
                this.install(latest)
            },
            (CommitPhase::Installing { version }, CommitEvent::Written) => CommitProgress::Done(
                PostCommit {
                    version,
                    data,
                    create_checkpoint: match post_commit {
                        Some(hook) => hook.create_checkpoint,
                        None => false,
                    },
                    cleanup_expired_logs: match post_commit {
                        Some(hook) => hook.cleanup_expired_logs,
                        None => None,
                    },
                    table_data,
                    custom_execute_handler: post_commit_hook_handler,
                    metrics: CommitMetrics { num_retries: retries as u64 },
                },
            ),
            (CommitPhase::Installing { version }, CommitEvent::WriteFailed(error)) => {
                let lost_race = match &error {
                    TransactionError::VersionAlreadyExists(_) => true,
                    _ => false,
                };
                if lost_race {
                    if retries < max_retries {
                        let current = match &table_data {
                            Some(snapshot) => snapshot.version,
                            None => 0,
                        };
                        CommitProgress::Ask(
                            PreparedCommit {
                                commit_or_bytes,
                                data,
                                table_data,
                                max_retries,
                                post_commit,
                                post_commit_hook_handler,
                                operation_id,
                                retries: retries + 1,
                                phase: CommitPhase::AwaitingLatest,
                            },
                            CommitRequest::GetLatestVersion { current },
                        )
                    } else {
                        CommitProgress::Failed(
                            DeltaTableError::from(
                                TransactionError::MaxCommitAttempts(max_retries as i32),
                            ),
                        )
                    }
                } else {
                    CommitProgress::Ask(
                        PreparedCommit {
                            commit_or_bytes,
                            data,
                            table_data,
                            max_retries,
                            post_commit,
                            post_commit_hook_handler,
                            operation_id,
                            retries,
                            phase: CommitPhase::Aborting { error },
                        },
                        CommitRequest::AbortCommitEntry { version },
                    )
                }
            },
            (CommitPhase::Aborting { error }, CommitEvent::Aborted) => CommitProgress::Failed(
                DeltaTableError::from(error),
            ),
            (CommitPhase::Aborting { error }, CommitEvent::AbortFailed(_)) => {
                CommitProgress::Failed(DeltaTableError::from(error))
            },
            _ => {
                assert(false);
                CommitProgress::Failed(
                    DeltaTableError::from(TransactionError::MaxCommitAttempts(0)),
                )
            },
        }
    }
}

/// Whether `progress` asks for the payload to be installed.
pub open spec fn asks_install(progress: CommitProgress) -> bool {
    progress matches CommitProgress::Ask(_, CommitRequest::WriteCommitEntry { .. })
}

/// Where the loop stands after the given events were fed to it in order.
/// An event the loop does not expect, and any event after the loop has
/// ended, changes nothing.
pub open spec fn run(progress: CommitProgress, events: Seq<CommitEvent>) -> CommitProgress
    decreases events.len(),
{
    if events.len() == 0 {
        progress
    } else {
        match progress {
            CommitProgress::Ask(commit, _) => if commit.expects(events[0]) {
                run(commit.next_step(events[0]), events.skip(1))
            } else {
                progress
            },
            _ => progress,
        }
    }
}

/// How often the steps taken on the given events ask for an install.
pub open spec fn installs(progress: CommitProgress, events: Seq<CommitEvent>) -> nat
    decreases events.len(),
{
    if events.len() == 0 {
        0
    } else {
        match progress {
            CommitProgress::Ask(commit, _) => if commit.expects(events[0]) {
                let next = commit.next_step(events[0]);
                installs(next, events.skip(1)) + if asks_install(next) {
                    1nat
                } else {
                    0nat
                }
            } else {
                0
            },
            _ => 0,
        }
    }
}

/// From any point of the loop on a table, a run that ends in success reports
/// the retries used so far plus the installs still asked for, less the one
/// install that every attempt still has before it unless it is under way.
pub proof fn lemma_retries_from(
    commit: PreparedCommit,
    request: CommitRequest,
    events: Seq<CommitEvent>,
)
    requires
        commit.table_data is Some,
        !(commit.phase is Creating),
        !(commit.phase is Ready),
        run(CommitProgress::Ask(commit, request), events) is Done,
    ensures
        run(CommitProgress::Ask(commit, request), events)->Done_0.metrics.num_retries
            == commit.retries + installs(CommitProgress::Ask(commit, request), events)
            - if commit.phase is Installing {
            0int
        } else {
            1int
        },
    decreases events.len(),
{
    let progress = CommitProgress::Ask(commit, request);
    if events.len() > 0 && commit.expects(events[0]) {
        let next = commit.next_step(events[0]);
        let rest = events.skip(1);
        assert(run(progress, events) == run(next, rest));
        assert(installs(progress, events) == installs(next, rest) + if asks_install(next) {
            1nat
        } else {
            0nat
        });
        match next {
            CommitProgress::Ask(following, asked) => {
                assert(following.table_data is Some);
                assert(asks_install(next) == (following.phase is Installing));
                if following.phase is Aborting {
                    lemma_aborting_fails(following, asked, rest);
                } else {
                    assert(following.retries == commit.retries + if commit.phase is Installing {
                        1int
                    } else {
                        0int
                    });
                    lemma_retries_from(following, asked, rest);
                }
            },
            CommitProgress::Done(post) => {
                lemma_run_ended(next, rest);
                assert(commit.phase is Installing);
                assert(post.metrics.num_retries == commit.retries);
            },
            CommitProgress::Failed(_) => {
                lemma_run_ended(next, rest);
            },
        }
    }
}

/// A commit whose failed install is being cleaned up never succeeds.
pub proof fn lemma_aborting_fails(
    commit: PreparedCommit,
    request: CommitRequest,
    events: Seq<CommitEvent>,
)
    requires
        commit.phase is Aborting,
    ensures
        !(run(CommitProgress::Ask(commit, request), events) is Done),
{
    if events.len() > 0 && commit.expects(events[0]) {
        lemma_run_ended(commit.next_step(events[0]), events.skip(1));
    }
}

/// Once the loop has ended, further events change nothing and ask for
/// nothing.
pub proof fn lemma_run_ended(progress: CommitProgress, events: Seq<CommitEvent>)
    requires
        !(progress is Ask),
    ensures
        run(progress, events) == progress,
        installs(progress, events) == 0,
{
}

/// The retries a successful commit reports are the number of times the
/// install was entered again: one less than the installs asked for.
pub proof fn lemma_retries_count_reinstalls(commit: PreparedCommit, events: Seq<CommitEvent>)
    requires
        commit.table_data is Some,
        run(commit.first_step(), events) is Done,
    ensures
        run(commit.first_step(), events)->Done_0.metrics.num_retries + 1 == installs(
            commit.first_step(),
            events,
        ),
{
    let started = PreparedCommit { phase: CommitPhase::AwaitingLatest, retries: 0, ..commit };
    lemma_retries_from(
        started,
        CommitRequest::GetLatestVersion { current: commit.table_data->Some_0.version },
        events,
    );
}

/// Losing the race leaves the commit as it was: the same payload, the same
/// data and the same read snapshot go into the next attempt, and nothing is
/// cleaned up.
pub proof fn lemma_lost_race_keeps_commit(commit: PreparedCommit, version: i64)
    requires
        commit.phase is Installing,
        commit.table_data is Some,
        commit.retries < commit.max_retries,
    ensures
        commit.next_step(
            CommitEvent::WriteFailed(TransactionError::VersionAlreadyExists(version)),
        ) matches CommitProgress::Ask(next, request) && next.commit_or_bytes
            == commit.commit_or_bytes && next.data == commit.data && next.table_data
            == commit.table_data && request == (CommitRequest::GetLatestVersion {
            current: commit.table_data->Some_0.version,
        }),
{
}

/// What a log store with atomic installs answers to the request to install
/// `version` when `latest` is the highest version it holds: the install goes
/// through exactly for the version that follows.
pub open spec fn install_answer(latest: int, version: i64) -> CommitEvent {
    if version == latest + 1 {
        CommitEvent::Written
    } else {
        CommitEvent::WriteFailed(TransactionError::VersionAlreadyExists(version))
    }
}

/// The events the loser of a race for `version` sees at a log store with
/// atomic installs once the winner's entry is in: its own install fails,
/// the latest version is `version`, the entry there holds the winner's
/// actions, the snapshot is brought up to date, and the install of the next
/// version is answered.
pub open spec fn events_after_losing(
    version: i64,
    winner: Vec<Action>,
    updated: EagerSnapshot,
) -> Seq<CommitEvent> {
    seq![
        install_answer(version as int, version),
        CommitEvent::LatestVersion(version),
        CommitEvent::WinningCommit(winner),
        CommitEvent::SnapshotUpdated(updated),
        install_answer(version as int, (version + 1) as i64),
    ]
}

/// Two commits prepared against the same snapshot race for the same version
/// at a log store with atomic installs. The one whose install comes first
/// goes in at that version and never sees the version taken. The other sees
/// it taken once, checks itself against the winner, and then either goes in
/// at the next version with one more retry on its count, or fails with the
/// conflict the checker names.
pub proof fn lemma_race_for_a_version(
    first: PreparedCommit,
    second: PreparedCommit,
    version: i64,
    updated: EagerSnapshot,
)
    requires
        first.phase == (CommitPhase::Installing { version }),
        second.phase == (CommitPhase::Installing { version }),
        first.table_data matches Some(snapshot) && snapshot.version + 1 == version,
        second.table_data matches Some(snapshot) && snapshot.version + 1 == version,
        second.retries < second.max_retries,
        version + 1 < i64::MAX,
        updated.version == version,
    ensures
        first.next_step(install_answer(version - 1, version)) matches CommitProgress::Done(post)
            && post.version == version && post.metrics.num_retries == first.retries,
        match second.conflict_with(first.data.actions@) {
            None => run(
                CommitProgress::Ask(second, CommitRequest::WriteCommitEntry { version }),
                events_after_losing(version, first.data.actions, updated),
            ) matches CommitProgress::Done(post) && post.version == version + 1
                && post.metrics.num_retries == second.retries + 1,
            Some(kind) => run(
                CommitProgress::Ask(second, CommitRequest::WriteCommitEntry { version }),
                events_after_losing(version, first.data.actions, updated),
            ) == CommitProgress::Failed(surfaced(TransactionError::CommitConflict(kind))),
        },
{
    let events = events_after_losing(version, first.data.actions, updated);
    let start = CommitProgress::Ask(second, CommitRequest::WriteCommitEntry { version });
    let after_loss = events.skip(1);
    let after_latest = after_loss.skip(1);
    let after_winner = after_latest.skip(1);
    let after_update = after_winner.skip(1);
    let after_install = after_update.skip(1);
    assert(after_install.len() == 0);
    let lost = second.next_step(events[0]);
    assert(second.expects(events[0]));
    assert(run(start, events) == run(lost, after_loss));
    let retrying = lost->Ask_0;
    assert(retrying.phase is AwaitingLatest);
    assert(after_loss[0] == events[1]);
    assert(retrying.expects(after_loss[0]));
    let caught_up = retrying.next_step(after_loss[0]);
    assert(run(lost, after_loss) == run(caught_up, after_latest));
    let checking = caught_up->Ask_0;
    assert(checking.phase == (CommitPhase::Checking { latest: version, version }));
    assert(after_latest[0] == events[2]);
    assert(checking.expects(after_latest[0]));
    let checked = checking.next_step(after_latest[0]);
    assert(run(caught_up, after_latest) == run(checked, after_winner));
    assert(checking.conflict_with(first.data.actions@) == second.conflict_with(
        first.data.actions@,
    ));
    match second.conflict_with(first.data.actions@) {
        Some(kind) => {
            lemma_run_ended(checked, after_winner);
        },
        None => {
            let updating = checked->Ask_0;
            assert(updating.phase == (CommitPhase::Updating { latest: version }));
            assert(after_winner[0] == events[3]);
            assert(updating.expects(after_winner[0]));
            let updated = updating.next_step(after_winner[0]);
            assert(run(checked, after_winner) == run(updated, after_update));
            let installing = updated->Ask_0;
            assert(installing.phase == (CommitPhase::Installing { version: (version + 1) as i64 }));
            assert(after_update[0] == events[4]);
            assert(installing.expects(after_update[0]));
            let answered = installing.next_step(after_update[0]);
            assert(run(updated, after_update) == run(answered, after_install));
            assert(run(answered, after_install) == answered);
        },
    }
}

/// An install that fails for another reason than a lost race is always
/// cleaned up after, at the version it was tried at, and it is the failure of
/// the install that surfaces: whether the cleanup went through or failed
/// itself. This holds for a commit on a table and for one that creates it.
pub proof fn lemma_failed_install_is_cleaned_up(
    commit: PreparedCommit,
    error: TransactionError,
    cleanup_error: TransactionError,
)
    requires
        commit.phase is Installing || commit.phase is Creating,
        commit.phase is Installing ==> commit.table_data is Some,
        !(error is VersionAlreadyExists),
    ensures
        commit.expects(CommitEvent::WriteFailed(error)),
        commit.next_step(CommitEvent::WriteFailed(error)) matches CommitProgress::Ask(
            cleaning,
            CommitRequest::AbortCommitEntry { version },
        ) && version == (match commit.phase {
            CommitPhase::Installing { version } => version,
            _ => 0i64,
        }) && cleaning.commit_or_bytes == commit.commit_or_bytes && cleaning.expects(
            CommitEvent::Aborted,
        ) && cleaning.expects(CommitEvent::AbortFailed(cleanup_error)) && cleaning.next_step(
            CommitEvent::Aborted,
        ) == CommitProgress::Failed(surfaced(error)) && cleaning.next_step(
            CommitEvent::AbortFailed(cleanup_error),
        ) == CommitProgress::Failed(surfaced(error)),
{
}

/// The events the winner of a race sees from its start: nothing is ahead of
/// its snapshot at `version`, and its install of the next version goes
/// through.
pub open spec fn events_of_the_winner(version: i64) -> Seq<CommitEvent> {
    seq![
        CommitEvent::LatestVersion(version),
        install_answer(version as int, (version + 1) as i64),
    ]
}

/// The events the loser of a race sees from its start: nothing is ahead of
/// its snapshot at `version` when it looks, but by the time it installs, the
/// winner's entry is in.
pub open spec fn events_of_the_loser(
    version: i64,
    winner: Vec<Action>,
    updated: EagerSnapshot,
) -> Seq<CommitEvent> {
    seq![CommitEvent::LatestVersion(version)] + events_after_losing(
        (version + 1) as i64,
        winner,
        updated,
    )
}

/// Two commits are prepared against the same snapshot and installed, from
/// their start, against a log store with atomic installs that no one else
/// writes to. The one whose install comes first goes in at the next version
/// without a retry and never sees the version taken. The other sees it taken
/// exactly once, and then either goes in at the version after, with one
/// retry, or fails with the conflict the checker names for the winner's
/// actions. The two never go in at the same version.
pub proof fn lemma_race_from_the_start(
    first: PreparedCommit,
    second: PreparedCommit,
    updated: EagerSnapshot,
)
    requires
        first.table_data is Some,
        second.table_data is Some,
        first.table_data->Some_0.version == second.table_data->Some_0.version,
        second.table_data->Some_0.version + 2 < i64::MAX,
        second.max_retries >= 1,
        updated.version == second.table_data->Some_0.version + 1,
    ensures
        ({
            let version = first.table_data->Some_0.version;
            &&& run(
                first.first_step(),
                events_of_the_winner(version),
            ) matches CommitProgress::Done(post)
            &&& post.version == version + 1
            &&& post.metrics.num_retries == 0
        }),
        ({
            let version = second.table_data->Some_0.version;
            let outcome = run(
                second.first_step(),
                events_of_the_loser(version, first.data.actions, updated),
            );
            match second.conflict_with(first.data.actions@) {
                None => outcome matches CommitProgress::Done(post) && post.version == version + 2
                    && post.metrics.num_retries == 1,
                Some(kind) => outcome == CommitProgress::Failed(
                    surfaced(TransactionError::CommitConflict(kind)),
                ),
            }
        }),
{
    let version = first.table_data->Some_0.version;
    let next = (version + 1) as i64;
    // the winner
    let winning = events_of_the_winner(version);
    let started = first.first_step()->Ask_0;
    assert(started.expects(winning[0]));
    let installing_first = started.next_step(winning[0])->Ask_0;
    assert(installing_first.phase == (CommitPhase::Installing { version: next }));
    assert(run(first.first_step(), winning) == run(
        started.next_step(winning[0]),
        winning.skip(1),
    ));
    assert(winning.skip(1)[0] == winning[1]);
    assert(installing_first.expects(winning[1]));
    assert(winning.skip(1).skip(1).len() == 0);
    assert(run(started.next_step(winning[0]), winning.skip(1)) == run(
        installing_first.next_step(winning[1]),
        winning.skip(1).skip(1),
    ));
    // the loser
    let losing = events_of_the_loser(version, first.data.actions, updated);
    let late = second.first_step()->Ask_0;
    assert(losing[0] == CommitEvent::LatestVersion(version));
    assert(late.expects(losing[0]));
    let installing_second = late.next_step(losing[0])->Ask_0;
    assert(installing_second.phase == (CommitPhase::Installing { version: next }));
    assert(losing.skip(1) =~= events_after_losing(next, first.data.actions, updated));
    assert(run(second.first_step(), losing) == run(late.next_step(losing[0]), losing.skip(1)));
    assert(installing_second.retries == 0);
    lemma_race_for_a_version(installing_first, installing_second, next, updated);
    assert(installing_second.conflict_with(first.data.actions@) == second.conflict_with(
        first.data.actions@,
    ));
}

} // verus!
