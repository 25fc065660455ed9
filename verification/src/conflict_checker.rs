//! The conflict checker.
//!
//! Given the snapshot a transaction read, one commit that was installed after
//! that snapshot, and what the transaction proposes, it decides whether the
//! proposal can still be installed right after the winner.

use crate::actions::{Action, Add};
use crate::errors::CommitConflictError;
use crate::operation::{DeltaOperation, Predicate};
use crate::snapshot::{EagerSnapshot, SnapshotView};
use vstd::prelude::*;

verus! {

/// What the transaction read and what it wants to commit.
pub struct TransactionInfo<'a> {
    /// The snapshot the transaction was prepared against.
    pub read_snapshot: &'a EagerSnapshot,
    /// What the transaction logically read, if it says so.
    pub read_predicate: Option<&'a Predicate>,
    /// The actions the transaction proposes.
    pub actions: &'a Vec<Action>,
    /// The transaction read the whole table.
    pub read_whole_table: bool,
}

/// The commit that won the race at one version.
#[derive(Debug)]
pub struct WinningCommitSummary {
    /// The actions of the winning log entry.
    pub actions: Vec<Action>,
}

/// One check of a proposal against one winning commit.
pub struct ConflictChecker<'a> {
    pub txn_info: TransactionInfo<'a>,
    pub winning_commit_summary: WinningCommitSummary,
    pub operation: Option<&'a DeltaOperation>,
}

/// Whether `action` changes the protocol.
pub open spec fn changes_protocol(action: Action) -> bool {
    action is Protocol
}

/// Whether `action` changes schema, partitioning or settings.
pub open spec fn changes_metadata(action: Action) -> bool {
    action is Metadata
}

/// Whether `action` adds a file whose partition values meet `predicate`.
pub open spec fn adds_into(action: Action, predicate: Predicate) -> bool {
    action matches Action::Add(add) && predicate.may_match(add.partition_values@)
}

/// Whether `action` removes the file at `path`.
pub open spec fn removes_path(action: Action, path: Seq<char>) -> bool {
    action matches Action::Remove(remove) && remove.path@ == path
}

/// Whether `action` records a transaction of application `app_id`.
pub open spec fn records_app(action: Action, app_id: Seq<char>) -> bool {
    action matches Action::Txn(txn) && txn.app_id@ == app_id
}

/// Whether the transaction logically read `file`: it read the whole table, or
/// it states a predicate that the file's partition values meet.
pub open spec fn was_read(file: Add, predicate: Option<Predicate>, whole_table: bool) -> bool {
    whole_table || (predicate matches Some(p) && p.may_match(file.partition_values@))
}

/// Whether the transaction depends on the file at `path`: the snapshot it
/// read holds a file there that it logically read.
pub open spec fn depends_on_path(
    files: Seq<Add>,
    predicate: Option<Predicate>,
    whole_table: bool,
    path: Seq<char>,
) -> bool {
    exists|k: int|
        0 <= k < files.len() && (#[trigger] files[k]).path@ == path && was_read(
            files[k],
            predicate,
            whole_table,
        )
}

/// Whether `action` removes a file the transaction depends on.
pub open spec fn removes_read_file(
    action: Action,
    files: Seq<Add>,
    predicate: Option<Predicate>,
    whole_table: bool,
) -> bool {
    action matches Action::Remove(remove) && depends_on_path(
        files,
        predicate,
        whole_table,
        remove.path@,
    )
}

/// Whether `action` removes a file that one of `ours` removes too.
pub open spec fn removes_what_we_remove(action: Action, ours: Seq<Action>) -> bool {
    action matches Action::Remove(remove) && exists|j: int|
        0 <= j < ours.len() && removes_path(#[trigger] ours[j], remove.path@)
}

/// Whether `action` records a transaction of an application that one of
/// `ours` records too.
pub open spec fn records_what_we_record(action: Action, ours: Seq<Action>) -> bool {
    action matches Action::Txn(txn) && exists|j: int|
        0 <= j < ours.len() && records_app(#[trigger] ours[j], txn.app_id@)
}

/// Protocol stability: the winner did not change the protocol, unless our
/// own operation is a protocol upgrade.
pub open spec fn protocol_conflict(winner: Seq<Action>, upgrade: bool) -> bool {
    !upgrade && exists|i: int| 0 <= i < winner.len() && changes_protocol(#[trigger] winner[i])
}

/// Metadata stability: the winner did not change the metadata.
pub open spec fn metadata_conflict(winner: Seq<Action>) -> bool {
    exists|i: int| 0 <= i < winner.len() && changes_metadata(#[trigger] winner[i])
}

/// Concurrent append: we did not read the whole table, we state a predicate,
/// and the winner added a file whose partition values meet it.
pub open spec fn append_conflict(
    winner: Seq<Action>,
    predicate: Option<Predicate>,
    whole_table: bool,
) -> bool {
    !whole_table && predicate is Some && exists|i: int|
        0 <= i < winner.len() && adds_into(#[trigger] winner[i], predicate->Some_0)
}

/// Concurrent delete-read: the winner removed a file we depend on.
pub open spec fn delete_read_conflict(
    winner: Seq<Action>,
    files: Seq<Add>,
    predicate: Option<Predicate>,
    whole_table: bool,
) -> bool {
    exists|i: int|
        0 <= i < winner.len() && removes_read_file(
            #[trigger] winner[i],
            files,
            predicate,
            whole_table,
        )
}

/// Concurrent delete-delete: the winner removed a file we remove too.
pub open spec fn delete_delete_conflict(winner: Seq<Action>, ours: Seq<Action>) -> bool {
    exists|i: int| 0 <= i < winner.len() && removes_what_we_remove(#[trigger] winner[i], ours)
}

/// Concurrent transaction: the winner recorded an application we record too.
pub open spec fn transaction_conflict(winner: Seq<Action>, ours: Seq<Action>) -> bool {
    exists|i: int| 0 <= i < winner.len() && records_what_we_record(#[trigger] winner[i], ours)
}

/// The decision: the first rule the winner breaks, in the order protocol,
/// metadata, append, delete-read, delete-delete, transaction; `None` when the
/// proposal can be installed after the winner.
pub open spec fn conflict_verdict(
    read: SnapshotView,
    predicate: Option<Predicate>,
    ours: Seq<Action>,
    whole_table: bool,
    winner: Seq<Action>,
    upgrade: bool,
) -> Option<CommitConflictError> {
    if protocol_conflict(winner, upgrade) {
        Some(CommitConflictError::ProtocolChanged)
    } else if metadata_conflict(winner) {
        Some(CommitConflictError::MetadataChanged)
    } else if append_conflict(winner, predicate, whole_table) {
        Some(CommitConflictError::ConcurrentAppend)
    } else if delete_read_conflict(winner, read.files, predicate, whole_table) {
        Some(CommitConflictError::ConcurrentDeleteRead)
    } else if delete_delete_conflict(winner, ours) {
        Some(CommitConflictError::ConcurrentDeleteDelete)
    } else if transaction_conflict(winner, ours) {
        Some(CommitConflictError::ConcurrentTransaction)
    } else {
        None
    }
}

/// The predicate behind an optional reference.
pub open spec fn deref_predicate(p: Option<&Predicate>) -> Option<Predicate> {
    match p {
        Some(q) => Some(*q),
        None => None,
    }
}

/// Whether the operation, if known, is a protocol upgrade.
pub open spec fn is_upgrade(operation: Option<&DeltaOperation>) -> bool {
    operation matches Some(op) && op.spec_is_protocol_upgrade()
}

fn any_protocol(actions: &Vec<Action>) -> (found: bool)
    ensures
        found == (exists|i: int|
            0 <= i < actions@.len() && changes_protocol(#[trigger] actions@[i])),
{
    let mut i: usize = 0;
    while i < actions.len()
        invariant
            i <= actions.len(),
            forall|j: int| 0 <= j < i ==> !changes_protocol(#[trigger] actions@[j]),
        decreases actions.len() - i,
    {
        if let Action::Protocol(_) = &actions[i] {
            assert(changes_protocol(actions@[i as int]));
            return true;
        }
        i += 1;
    }
    false
}

fn any_metadata(actions: &Vec<Action>) -> (found: bool)
    ensures
        found == metadata_conflict(actions@),
{
    let mut i: usize = 0;
    while i < actions.len()
        invariant
            i <= actions.len(),
            forall|j: int| 0 <= j < i ==> !changes_metadata(#[trigger] actions@[j]),
        decreases actions.len() - i,
    {
        if let Action::Metadata(_) = &actions[i] {
            assert(changes_metadata(actions@[i as int]));
            return true;
        }
        i += 1;
    }
    false
}

fn any_add_into(actions: &Vec<Action>, predicate: &Predicate) -> (found: bool)
    ensures
        found == (exists|i: int|
            0 <= i < actions@.len() && adds_into(#[trigger] actions@[i], *predicate)),
{
    let mut i: usize = 0;
    while i < actions.len()
        invariant
            i <= actions.len(),
            forall|j: int| 0 <= j < i ==> !adds_into(#[trigger] actions@[j], *predicate),
        decreases actions.len() - i,
    {
        if let Action::Add(add) = &actions[i] {
            if predicate.intersects(&add.partition_values) {
                assert(adds_into(actions@[i as int], *predicate));
                return true;
            }
        }
        i += 1;
    }
    false
}

fn file_was_read(file: &Add, predicate: Option<&Predicate>, whole_table: bool) -> (read: bool)
    ensures
        read == was_read(*file, deref_predicate(predicate), whole_table),
{
    if whole_table {
        return true;
    }
    match predicate {
        Some(p) => p.intersects(&file.partition_values),
        None => false,
    }
}

fn depends_on(
    files: &Vec<Add>,
    predicate: Option<&Predicate>,
    whole_table: bool,
    path: &String,
) -> (found: bool)
    ensures
        found == depends_on_path(files@, deref_predicate(predicate), whole_table, path@),
{
    let mut k: usize = 0;
    while k < files.len()
        invariant
            k <= files.len(),
            forall|j: int|
                0 <= j < k ==> !((#[trigger] files@[j]).path@ == path@ && was_read(
                    files@[j],
                    deref_predicate(predicate),
                    whole_table,
                )),
        decreases files.len() - k,
    {
        if files[k].path == *path && file_was_read(&files[k], predicate, whole_table) {
            return true;
        }
        k += 1;
    }
    false
}

fn any_remove_of_read_file(
    actions: &Vec<Action>,
    files: &Vec<Add>,
    predicate: Option<&Predicate>,
    whole_table: bool,
) -> (found: bool)
    ensures
        found == delete_read_conflict(actions@, files@, deref_predicate(predicate), whole_table),
{
    let mut i: usize = 0;
    while i < actions.len()
        invariant
            i <= actions.len(),
            forall|j: int|
                0 <= j < i ==> !removes_read_file(
                    #[trigger] actions@[j],
                    files@,
                    deref_predicate(predicate),
                    whole_table,
                ),
        decreases actions.len() - i,
    {
        if let Action::Remove(remove) = &actions[i] {
            if depends_on(files, predicate, whole_table, &remove.path) {
                assert(removes_read_file(
                    actions@[i as int],
                    files@,
                    deref_predicate(predicate),
                    whole_table,
                ));
                return true;
            }
        }
        i += 1;
    }
    false
}

fn any_remove_of(actions: &Vec<Action>, path: &String) -> (found: bool)
    ensures
        found == (exists|j: int|
            0 <= j < actions@.len() && removes_path(#[trigger] actions@[j], path@)),
{
    let mut j: usize = 0;
    while j < actions.len()
        invariant
            j <= actions.len(),
            forall|k: int| 0 <= k < j ==> !removes_path(#[trigger] actions@[k], path@),
        decreases actions.len() - j,
    {
        if let Action::Remove(remove) = &actions[j] {
            if remove.path == *path {
                assert(removes_path(actions@[j as int], path@));
                return true;
            }
        }
        j += 1;
    }
    false
}

fn any_txn_of(actions: &Vec<Action>, app_id: &String) -> (found: bool)
    ensures
        found == (exists|j: int|
            0 <= j < actions@.len() && records_app(#[trigger] actions@[j], app_id@)),
{
    let mut j: usize = 0;
    while j < actions.len()
        invariant
            j <= actions.len(),
            forall|k: int| 0 <= k < j ==> !records_app(#[trigger] actions@[k], app_id@),
        decreases actions.len() - j,
    {
        if let Action::Txn(txn) = &actions[j] {
            if txn.app_id == *app_id {
                assert(records_app(actions@[j as int], app_id@));
                return true;
            }
        }
        j += 1;
    }
    false
}

fn any_double_remove(winner: &Vec<Action>, ours: &Vec<Action>) -> (found: bool)
    ensures
        found == delete_delete_conflict(winner@, ours@),
{
    let mut i: usize = 0;
    while i < winner.len()
        invariant
            i <= winner.len(),
            forall|j: int| 0 <= j < i ==> !removes_what_we_remove(#[trigger] winner@[j], ours@),
        decreases winner.len() - i,
    {
        if let Action::Remove(remove) = &winner[i] {
            if any_remove_of(ours, &remove.path) {
                assert(removes_what_we_remove(winner@[i as int], ours@));
                return true;
            }
        }
        i += 1;
    }
    false
}

fn any_shared_app(winner: &Vec<Action>, ours: &Vec<Action>) -> (found: bool)
    ensures
        found == transaction_conflict(winner@, ours@),
{
    let mut i: usize = 0;
    while i < winner.len()
        invariant
            i <= winner.len(),
            forall|j: int| 0 <= j < i ==> !records_what_we_record(#[trigger] winner@[j], ours@),
        decreases winner.len() - i,
    {
        if let Action::Txn(txn) = &winner[i] {
            if any_txn_of(ours, &txn.app_id) {
                assert(records_what_we_record(winner@[i as int], ours@));
                return true;
            }
        }
        i += 1;
    }
    false
}

impl<'a> TransactionInfo<'a> {
    /// Describes a transaction by what it read and what it proposes.
    pub fn new(
        read_snapshot: &'a EagerSnapshot,
        read_predicate: Option<&'a Predicate>,
        actions: &'a Vec<Action>,
        read_whole_table: bool,
    ) -> (info: Self)
        ensures
            info.read_snapshot == read_snapshot,
            info.read_predicate == read_predicate,
            info.actions == actions,
            info.read_whole_table == read_whole_table,
    {
        TransactionInfo { read_snapshot, read_predicate, actions, read_whole_table }
    }
}

impl WinningCommitSummary {
    /// Summarizes the log entry that won the race.
    pub fn new(actions: Vec<Action>) -> (summary: Self)
        ensures
            summary.actions == actions,
    {
        WinningCommitSummary { actions }
    }
}

impl<'a> ConflictChecker<'a> {
    /// Sets up the check of one proposal against one winner.
    pub fn new(
        txn_info: TransactionInfo<'a>,
        winning_commit_summary: WinningCommitSummary,
        operation: Option<&'a DeltaOperation>,
    ) -> (checker: Self)
        ensures
            checker.txn_info == txn_info,
            checker.winning_commit_summary == winning_commit_summary,
            checker.operation == operation,
    {
        ConflictChecker { txn_info, winning_commit_summary, operation }
    }

    /// What this check decides.
    pub open spec fn verdict(&self) -> Option<CommitConflictError> {
        conflict_verdict(
            self.txn_info.read_snapshot@,
            deref_predicate(self.txn_info.read_predicate),
            self.txn_info.actions@,
            self.txn_info.read_whole_table,
            self.winning_commit_summary.actions@,
            is_upgrade(self.operation),
        )
    }

    /// Runs the rules in order and reports the first one the winner breaks.
    pub fn check_conflicts(&self) -> (res: Result<(), CommitConflictError>)
        ensures
            match res {
                Ok(_) => self.verdict() is None,
                Err(kind) => self.verdict() == Some(kind),
            },
    {
        let winner = &self.winning_commit_summary.actions;
        let upgrade = match self.operation {
            Some(op) => op.is_protocol_upgrade(),
            None => false,
        };
        if !upgrade && any_protocol(winner) {
            return Err(CommitConflictError::ProtocolChanged);
        }
        if any_metadata(winner) {
            return Err(CommitConflictError::MetadataChanged);
        }
        if !self.txn_info.read_whole_table {
            if let Some(predicate) = self.txn_info.read_predicate {
                if any_add_into(winner, predicate) {
                    return Err(CommitConflictError::ConcurrentAppend);
                }
            }
        }
        if any_remove_of_read_file(
            winner,
            &self.txn_info.read_snapshot.files,
            self.txn_info.read_predicate,
            self.txn_info.read_whole_table,
        ) {
            return Err(CommitConflictError::ConcurrentDeleteRead);
        }
        if any_double_remove(winner, self.txn_info.actions) {
            return Err(CommitConflictError::ConcurrentDeleteDelete);
        }
        if any_shared_app(winner, self.txn_info.actions) {
            return Err(CommitConflictError::ConcurrentTransaction);
        }
        Ok(())
    }
}

} // verus!
