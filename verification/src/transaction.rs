//! Assembling a commit: properties, builder, and the step that stages the
//! payload.
//!
//! A commit moves through four stages. The builder collects what goes into
//! it and yields a `PreCommit`. Staging checks the protocol rules, frames the
//! payload and yields a `PreparedCommit`. Installing runs the retry loop and
//! yields a `PostCommit`. Housekeeping runs the post-commit hooks and yields a
//! `FinalizedCommit`. Each stage can be peeled off and inspected before the
//! next one is entered.

use crate::actions::{Action, MetadataEntry, Transaction};
use crate::commit_data::{first_failure, lemma_first_failure, payload_of, CommitData};
use crate::errors::{DeltaTableError, TransactionError};
use crate::foreign::{bytes_content, fresh_uuid};
use crate::logstore::{
    conditional_put_driver,
    supports_conditional_put,
    tmp_commit_path,
    tmp_commit_uri,
    CommitOrBytes,
    PayloadView,
};
use crate::operation::DeltaOperation;
use crate::prepared_commit::{CommitPhase, PreparedCommit};
use crate::protocol::{
    can_commit_verdict,
    default_protocol_checker,
    supported_reader_features,
    supported_writer_features,
    verdict_of,
    ProtocolVerdict,
};
use crate::snapshot::EagerSnapshot;
use vstd::prelude::*;

verus! {

/// How often a commit is retried when nothing else is asked for.
pub const DEFAULT_RETRIES: usize = 15;

/// What installing a commit took.
#[derive(Clone, Copy, Debug, PartialEq, Eq, Structural)]
pub struct CommitMetrics {
    /// Number of retries before the commit went in.
    pub num_retries: u64,
}

/// What the housekeeping after a commit did.
#[derive(Clone, Copy, Debug, PartialEq, Eq, Structural)]
pub struct PostCommitMetrics {
    /// A checkpoint was created as part of this commit.
    pub new_checkpoint_created: bool,
    /// Number of log files cleaned up.
    pub num_log_files_cleaned_up: u64,
}

/// Everything measured about one commit.
#[derive(Clone, Copy, Debug, PartialEq, Eq, Structural)]
pub struct Metrics {
    /// Number of retries before the commit went in.
    pub num_retries: u64,
    /// A checkpoint was created as part of this commit.
    pub new_checkpoint_created: bool,
    /// Number of log files cleaned up.
    pub num_log_files_cleaned_up: u64,
}

impl Default for CommitMetrics {
    fn default() -> (m: Self)
        ensures
            m.num_retries == 0,
    {
        CommitMetrics { num_retries: 0 }
    }
}

impl Default for PostCommitMetrics {
    fn default() -> (m: Self)
        ensures
            !m.new_checkpoint_created,
            m.num_log_files_cleaned_up == 0,
    {
        PostCommitMetrics { new_checkpoint_created: false, num_log_files_cleaned_up: 0 }
    }
}

impl Default for Metrics {
    fn default() -> (m: Self)
        ensures
            m.num_retries == 0,
            !m.new_checkpoint_created,
            m.num_log_files_cleaned_up == 0,
    {
        Metrics { num_retries: 0, new_checkpoint_created: false, num_log_files_cleaned_up: 0 }
    }
}

impl Metrics {
    /// What a commit took altogether: what installing it took and what the
    /// housekeeping after it did.
    pub fn combine(commit: CommitMetrics, post_commit: PostCommitMetrics) -> (m: Self)
        ensures
            m == (Metrics {
                num_retries: commit.num_retries,
                new_checkpoint_created: post_commit.new_checkpoint_created,
                num_log_files_cleaned_up: post_commit.num_log_files_cleaned_up,
            }),
    {
        Metrics {
            num_retries: commit.num_retries,
            new_checkpoint_created: post_commit.new_checkpoint_created,
            num_log_files_cleaned_up: post_commit.num_log_files_cleaned_up,
        }
    }
}

/// What to do after a commit went in.
#[derive(Clone, Copy, Debug, PartialEq, Eq)]
pub struct PostCommitHookProperties {
    /// Create a checkpoint when the checkpoint interval is met.
    pub create_checkpoint: bool,
    /// Overrides the table setting on cleaning up expired log entries; with
    /// `None` the table setting decides.
    pub cleanup_expired_logs: Option<bool>,
}

/// How a table operation wants its commit done.
#[derive(Debug)]
pub struct CommitProperties {
    pub app_metadata: Vec<MetadataEntry>,
    pub app_transaction: Vec<Transaction>,
    pub max_retries: usize,
    pub create_checkpoint: bool,
    pub cleanup_expired_logs: Option<bool>,
}

impl Default for CommitProperties {
    fn default() -> (p: Self)
        ensures
            p.app_metadata@.len() == 0,
            p.app_transaction@.len() == 0,
            p.max_retries == DEFAULT_RETRIES,
            p.create_checkpoint,
            p.cleanup_expired_logs is None,
    {
        CommitProperties {
            app_metadata: Vec::new(),
            app_transaction: Vec::new(),
            max_retries: DEFAULT_RETRIES,
            create_checkpoint: true,
            cleanup_expired_logs: None,
        }
    }
}

impl CommitProperties {
    /// Sets the metadata to be committed, replacing what was set before.
    pub fn with_metadata(self, metadata: Vec<MetadataEntry>) -> (p: Self)
        ensures
            p == (CommitProperties { app_metadata: metadata, ..self }),
    {
        let mut p = self;
        p.app_metadata = metadata;
        p
    }

    /// Sets how often the commit is retried before it fails.
    pub fn with_max_retries(self, max_retries: usize) -> (p: Self)
        ensures
            p == (CommitProperties { max_retries, ..self }),
    {
        let mut p = self;
        p.max_retries = max_retries;
        p
    }

    /// Sets whether a checkpoint is created when the interval is met.
    pub fn with_create_checkpoint(self, create_checkpoint: bool) -> (p: Self)
        ensures
            p == (CommitProperties { create_checkpoint, ..self }),
    {
        let mut p = self;
        p.create_checkpoint = create_checkpoint;
        p
    }

    /// Adds one application transaction to the commit.
    pub fn with_application_transaction(self, txn: Transaction) -> (p: Self)
        ensures
            p.app_transaction@ == self.app_transaction@.push(txn),
            p.app_metadata == self.app_metadata,
            p.max_retries == self.max_retries,
            p.create_checkpoint == self.create_checkpoint,
            p.cleanup_expired_logs == self.cleanup_expired_logs,
    {
        let mut p = self;
        p.app_transaction.push(txn);
        p
    }

    /// Sets the application transactions of the commit, replacing what was
    /// set before.
    pub fn with_application_transactions(self, txn: Vec<Transaction>) -> (p: Self)
        ensures
            p == (CommitProperties { app_transaction: txn, ..self }),
    {
        let mut p = self;
        p.app_transaction = txn;
        p
    }

    /// Sets whether expired log entries are cleaned up; `None` leaves it to
    /// the table setting.
    pub fn with_cleanup_expired_logs(self, cleanup_expired_logs: Option<bool>) -> (p: Self)
        ensures
            p == (CommitProperties { cleanup_expired_logs, ..self }),
    {
        let mut p = self;
        p.cleanup_expired_logs = cleanup_expired_logs;
        p
    }
}

/// Collects what goes into a commit and how it is to be performed.
#[derive(Debug)]
pub struct CommitBuilder {
    pub actions: Vec<Action>,
    pub app_metadata: Vec<MetadataEntry>,
    pub app_transaction: Vec<Transaction>,
    pub max_retries: usize,
    pub post_commit_hook: Option<PostCommitHookProperties>,
    /// The caller wants to be told before and after the post-commit hooks.
    pub post_commit_hook_handler: bool,
    /// Identifies this commit towards the log store.
    pub operation_id: u128,
}

impl Default for CommitBuilder {
    /// An empty builder with a fresh operation id.
    fn default() -> (b: Self)
        ensures
            b.actions@.len() == 0,
            b.app_metadata@.len() == 0,
            b.app_transaction@.len() == 0,
            b.max_retries == DEFAULT_RETRIES,
            b.post_commit_hook is None,
            !b.post_commit_hook_handler,
    {
        CommitBuilder {
            actions: Vec::new(),
            app_metadata: Vec::new(),
            app_transaction: Vec::new(),
            max_retries: DEFAULT_RETRIES,
            post_commit_hook: None,
            post_commit_hook_handler: false,
            operation_id: fresh_uuid(),
        }
    }
}

impl From<CommitProperties> for CommitBuilder {
    /// A builder that performs the commit as the properties ask, with a
    /// fresh operation id and no actions yet.
    fn from(value: CommitProperties) -> (b: Self)
        ensures
            b.actions@.len() == 0,
            b.app_metadata == value.app_metadata,
            b.app_transaction == value.app_transaction,
            b.max_retries == value.max_retries,
            b.post_commit_hook == Some(
                PostCommitHookProperties {
                    create_checkpoint: value.create_checkpoint,
                    cleanup_expired_logs: value.cleanup_expired_logs,
                },
            ),
            !b.post_commit_hook_handler,
    {
        CommitBuilder {
            actions: Vec::new(),
            app_metadata: value.app_metadata,
            app_transaction: value.app_transaction,
            max_retries: value.max_retries,
            post_commit_hook: Some(
                PostCommitHookProperties {
                    create_checkpoint: value.create_checkpoint,
                    cleanup_expired_logs: value.cleanup_expired_logs,
                },
            ),
            post_commit_hook_handler: false,
            operation_id: fresh_uuid(),
        }
    }
}

impl vstd::std_specs::convert::FromSpecImpl<CommitProperties> for CommitBuilder {
    /// The conversion draws a fresh operation id, so it is no function of
    /// its argument.
    open spec fn obeys_from_spec() -> bool {
        false
    }

    open spec fn from_spec(value: CommitProperties) -> Self {
        arbitrary()
    }
}

impl CommitBuilder {
    /// Sets the actions of the commit.
    pub fn with_actions(self, actions: Vec<Action>) -> (b: Self)
        ensures
            b == (CommitBuilder { actions, ..self }),
    {
        let mut b = self;
        b.actions = actions;
        b
    }

    /// Sets the metadata of the operation, such as metrics or the user.
    pub fn with_app_metadata(self, app_metadata: Vec<MetadataEntry>) -> (b: Self)
        ensures
            b == (CommitBuilder { app_metadata, ..self }),
    {
        let mut b = self;
        b.app_metadata = app_metadata;
        b
    }

    /// Sets how often the commit is retried before it fails.
    pub fn with_max_retries(self, max_retries: usize) -> (b: Self)
        ensures
            b == (CommitBuilder { max_retries, ..self }),
    {
        let mut b = self;
        b.max_retries = max_retries;
        b
    }

    /// Sets all post-commit hook properties.
    pub fn with_post_commit_hook(self, post_commit_hook: PostCommitHookProperties) -> (b: Self)
        ensures
            b == (CommitBuilder { post_commit_hook: Some(post_commit_hook), ..self }),
    {
        let mut b = self;
        b.post_commit_hook = Some(post_commit_hook);
        b
    }

    /// Sets the id under which the log store sees this commit.
    pub fn with_operation_id(self, operation_id: u128) -> (b: Self)
        ensures
            b == (CommitBuilder { operation_id, ..self }),
    {
        let mut b = self;
        b.operation_id = operation_id;
        b
    }

    /// Sets whether the caller is told before and after the post-commit
    /// hooks.
    pub fn with_post_commit_hook_handler(self, handler: bool) -> (b: Self)
        ensures
            b == (CommitBuilder { post_commit_hook_handler: handler, ..self }),
    {
        let mut b = self;
        b.post_commit_hook_handler = handler;
        b
    }

    /// Fixes the details of the commit.
    ///
    /// `table_data` is the snapshot the commit was prepared against; without
    /// one the commit creates the table.
    pub fn build(self, table_data: Option<EagerSnapshot>, operation: DeltaOperation) -> (pre:
        PreCommit)
        ensures
            pre.table_data == table_data,
            pre.max_retries == self.max_retries,
            pre.post_commit_hook == self.post_commit_hook,
            pre.post_commit_hook_handler == self.post_commit_hook_handler,
            pre.operation_id == self.operation_id,
            exists|now: i64|
                crate::commit_data::is_commit_data_for(
                    pre.data,
                    self.actions@,
                    operation,
                    self.app_metadata@,
                    self.app_transaction@,
                    now,
                ),
    {
        let data = CommitData::new(
            self.actions,
            operation,
            self.app_metadata,
            self.app_transaction,
        );
        PreCommit {
            table_data,
            max_retries: self.max_retries,
            data,
            post_commit_hook: self.post_commit_hook,
            post_commit_hook_handler: self.post_commit_hook_handler,
            operation_id: self.operation_id,
        }
    }
}

/// A commit that has not started yet but whose details are fixed.
#[derive(Debug)]
pub struct PreCommit {
    pub table_data: Option<EagerSnapshot>,
    pub data: CommitData,
    pub max_retries: usize,
    pub post_commit_hook: Option<PostCommitHookProperties>,
    pub post_commit_hook_handler: bool,
    pub operation_id: u128,
}

/// A prepared commit together with what is still to be staged for it.
#[derive(Debug)]
pub struct StagedCommit {
    /// The commit, ready for the retry loop once staging is done.
    pub prepared: PreparedCommit,
    /// The bytes that must be put at the staged path of the payload before
    /// the commit is installed; `None` where the payload carries the bytes
    /// itself.
    pub to_stage: Option<bytes::Bytes>,
}

impl PreCommit {
    /// What the protocol rules say about this commit. A commit that creates
    /// the table passes.
    pub open spec fn protocol_verdict(self) -> ProtocolVerdict {
        match self.table_data {
            Some(table) => can_commit_verdict(
                supported_reader_features(),
                supported_writer_features(),
                table@,
                self.data.actions@,
            ),
            None => ProtocolVerdict::Pass,
        }
    }

    /// The prepared commit this stage turns into, given its payload.
    pub open spec fn prepared_with(self, commit_or_bytes: CommitOrBytes) -> PreparedCommit {
        PreparedCommit {
            commit_or_bytes,
            data: self.data,
            table_data: self.table_data,
            max_retries: self.max_retries,
            post_commit: self.post_commit_hook,
            post_commit_hook_handler: self.post_commit_hook_handler,
            operation_id: self.operation_id,
            retries: 0,
            phase: CommitPhase::Ready,
        }
    }

    /// Whether `res` is what preparing the commit yields.
    ///
    /// A commit that breaks a protocol rule fails with that rule's error. A
    /// commit with an action that did not serialize fails with the first such
    /// failure. Any other commit is staged: for a driver with conditional
    /// puts the payload carries the framed bytes; otherwise it names the
    /// staged path of some token and the framed bytes wait to be put there.
    pub open spec fn prepares_to(
        self,
        encoded: Seq<Result<String, serde_json::Error>>,
        log_store_name: Seq<char>,
        res: Result<StagedCommit, DeltaTableError>,
    ) -> bool {
        if self.protocol_verdict() != ProtocolVerdict::Pass {
            &&& res matches Err(DeltaTableError::Transaction { source })
            &&& verdict_of(Err(source)) == self.protocol_verdict()
        } else {
            match first_failure(encoded) {
                Some(i) => {
                    &&& res matches Err(DeltaTableError::SerializeLogJson { json_err })
                    &&& encoded[i] == Err::<String, serde_json::Error>(json_err)
                },
                None => {
                    &&& res matches Ok(staged)
                    &&& staged.prepared == self.prepared_with(staged.prepared.commit_or_bytes)
                    &&& if conditional_put_driver(log_store_name) {
                        &&& staged.prepared.commit_or_bytes@ == PayloadView::LogBytes(
                            payload_of(encoded),
                        )
                        &&& staged.to_stage is None
                    } else {
                        &&& exists|token: u128|
                            staged.prepared.commit_or_bytes@ == PayloadView::TmpCommit(
                                tmp_commit_uri(token),
                            )
                        &&& staged.to_stage matches Some(bytes)
                        &&& bytes_content(bytes) == payload_of(encoded)
                    }
                },
            }
        }
    }

    /// Prepares the commit without installing it.
    ///
    /// `encoded` holds the serialization of each action, in order, and
    /// `log_store_name` names the driver of the log store. The protocol rules
    /// are checked first, then the payload is framed. For a driver with
    /// conditional puts the payload carries the bytes. For any other driver
    /// the payload names a fresh staged path and the bytes are handed back to
    /// be put there.
    pub fn into_prepared_commit_future(
        self,
        encoded: Vec<Result<String, serde_json::Error>>,
        log_store_name: &String,
    ) -> (res: Result<StagedCommit, DeltaTableError>)
        requires
            encoded@.len() == self.data.actions@.len(),
        ensures
            self.prepares_to(encoded@, log_store_name@, res),
    {
        if let Some(table) = &self.table_data {
            let checker = default_protocol_checker();
            match checker.can_commit(table, &self.data.actions, &self.data.operation) {
                Ok(_) => {},
                Err(source) => {
                    proof {
                        lemma_protocol_errors_are_wrapped(source);
                    }
                    return Err(DeltaTableError::from(source));
                },
            }
        }
        proof {
            lemma_first_failure(encoded@);
        }
        let log_entry = match self.data.get_bytes(encoded) {
            Ok(bytes) => bytes,
            Err(e) => {
                return Err(DeltaTableError::from(e));
            },
        };
        let (commit_or_bytes, to_stage) = if supports_conditional_put(log_store_name) {
            (CommitOrBytes::LogBytes(log_entry), None)
        } else {
            let token = fresh_uuid();
            (CommitOrBytes::TmpCommit(tmp_commit_path(token)), Some(log_entry))
        };
        let prepared = PreparedCommit {
            commit_or_bytes,
            data: self.data,
            table_data: self.table_data,
            max_retries: self.max_retries,
            post_commit: self.post_commit_hook,
            post_commit_hook_handler: self.post_commit_hook_handler,
            operation_id: self.operation_id,
            retries: 0,
            phase: CommitPhase::Ready,
        };
        Ok(StagedCommit { prepared, to_stage })
    }
}

/// An error of the protocol rules surfaces wrapped as a transaction error.
pub proof fn lemma_protocol_errors_are_wrapped(source: TransactionError)
    requires
        verdict_of(Err(source)) != ProtocolVerdict::Other,
    ensures
        <DeltaTableError as vstd::std_specs::convert::FromSpec<TransactionError>>::from_spec(
            source,
        ) == (DeltaTableError::Transaction { source }),
{
}

} // verus!
