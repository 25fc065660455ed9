//! The point-in-time table state a commit is prepared against, and how log
//! entries move it forward.

use crate::actions::{Action, Add, Metadata, Protocol, TableConfig};
use vstd::prelude::*;

verus! {

/// How a table was loaded.
#[derive(Clone, Copy, Debug, PartialEq, Eq, Structural)]
pub struct DeltaTableConfig {
    /// The file list was loaded along with the log.
    pub require_files: bool,
}

/// A table at one version: its protocol, metadata and live files.
#[derive(Clone, Debug, PartialEq, Eq)]
pub struct EagerSnapshot {
    pub version: i64,
    pub protocol: Protocol,
    pub metadata: Metadata,
    pub files: Vec<Add>,
    pub load_config: DeltaTableConfig,
}

/// The mathematical content of a snapshot.
pub struct SnapshotView {
    pub version: int,
    pub protocol: Protocol,
    pub metadata: Metadata,
    pub files: Seq<Add>,
    pub load_config: DeltaTableConfig,
}

impl View for EagerSnapshot {
    type V = SnapshotView;

    open spec fn view(&self) -> SnapshotView {
        SnapshotView {
            version: self.version as int,
            protocol: self.protocol,
            metadata: self.metadata,
            files: self.files@,
            load_config: self.load_config,
        }
    }
}

/// A loaded table.
#[derive(Clone, Debug, PartialEq, Eq)]
pub struct DeltaTableState {
    pub snapshot: EagerSnapshot,
}

/// What the commit pipeline needs to know about the table it commits to.
pub trait TableReference {
    /// The snapshot this reference stands for.
    spec fn snapshot_view(&self) -> SnapshotView;

    /// The table settings.
    fn config(&self) -> (c: TableConfig)
        ensures
            c == self.snapshot_view().metadata.config,
    ;

    /// The protocol of the table.
    fn protocol(&self) -> (p: &Protocol)
        ensures
            *p == self.snapshot_view().protocol,
    ;

    /// The metadata of the table.
    fn metadata(&self) -> (m: &Metadata)
        ensures
            *m == self.snapshot_view().metadata,
    ;

    /// The eager snapshot behind this reference.
    fn eager_snapshot(&self) -> (s: &EagerSnapshot)
        ensures
            s@ == self.snapshot_view(),
    ;
}

/// The files of `files` that do not live at `path`, in their order.
pub open spec fn without_path(files: Seq<Add>, path: Seq<char>) -> Seq<Add>
    decreases files.len(),
{
    if files.len() == 0 {
        files
    } else {
        let rest = without_path(files.drop_last(), path);
        if files.last().path@ == path {
            rest
        } else {
            rest.push(files.last())
        }
    }
}

/// The state after one action.
///
/// An added file replaces whatever lived at its path; a removed file leaves;
/// metadata and protocol are replaced whole. Every other action leaves the
/// state alone.
pub open spec fn apply_action(s: SnapshotView, action: Action) -> SnapshotView {
    match action {
        Action::Add(add) => SnapshotView { files: without_path(s.files, add.path@).push(add), ..s },
        Action::Remove(remove) => SnapshotView { files: without_path(s.files, remove.path@), ..s },
        Action::Metadata(metadata) => SnapshotView { metadata, ..s },
        Action::Protocol(protocol) => SnapshotView { protocol, ..s },
        _ => s,
    }
}

/// The state after the given actions, applied in order.
pub open spec fn apply_actions(s: SnapshotView, actions: Seq<Action>) -> SnapshotView
    decreases actions.len(),
{
    if actions.len() == 0 {
        s
    } else {
        apply_action(apply_actions(s, actions.drop_last()), actions.last())
    }
}

/// The state after one log entry: its actions in order, at the next version.
pub open spec fn apply_commit(s: SnapshotView, actions: Seq<Action>) -> SnapshotView {
    SnapshotView { version: s.version + 1, ..apply_actions(s, actions) }
}

/// The state reached from `base` by replaying the entries of `log` in order,
/// first entry first.
pub open spec fn replay(base: SnapshotView, log: Seq<Seq<Action>>) -> SnapshotView
    decreases log.len(),
{
    if log.len() == 0 {
        base
    } else {
        replay(apply_commit(base, log[0]), log.skip(1))
    }
}

/// Replaying a log and then one more entry is replaying the longer log.
pub proof fn lemma_replay_push(base: SnapshotView, log: Seq<Seq<Action>>, entry: Seq<Action>)
    ensures
        replay(base, log.push(entry)) == apply_commit(replay(base, log), entry),
    decreases log.len(),
{
    let longer = log.push(entry);
    if log.len() == 0 {
        assert(longer.skip(1) =~= Seq::<Seq<Action>>::empty());
        assert(replay(apply_commit(base, entry), longer.skip(1)) == apply_commit(base, entry));
    } else {
        assert(longer.skip(1) =~= log.skip(1).push(entry));
        assert(longer[0] == log[0]);
        lemma_replay_push(apply_commit(base, log[0]), log.skip(1), entry);
    }
}

/// Replaying entries `0..=n` of a log from scratch gives the snapshot that
/// advancing the replay of entries `0..n` by the data committed as entry `n`
/// gives.
pub proof fn lemma_replay_equals_advance(base: SnapshotView, log: Seq<Seq<Action>>, n: int)
    requires
        0 <= n < log.len(),
    ensures
        replay(base, log.take(n + 1)) == apply_commit(replay(base, log.take(n)), log[n]),
{
    assert(log.take(n + 1) =~= log.take(n).push(log[n]));
    lemma_replay_push(base, log.take(n), log[n]);
}

/// What is left of `files` after everything at `path` is taken out.
fn remove_path(files: &mut Vec<Add>, path: &String)
    ensures
        final(files)@ == without_path(old(files)@, path@),
{
    let ghost before = files@;
    let ghost mut seen: int = 0;
    let mut i: usize = 0;
    proof {
        assert(before.take(0) =~= Seq::<Add>::empty());
        assert(before.skip(0) =~= before);
    }
    while i < files.len()
        invariant
            0 <= seen <= before.len(),
            i == without_path(before.take(seen), path@).len(),
            files@ == without_path(before.take(seen), path@) + before.skip(seen),
        decreases before.len() - seen,
    {
        proof {
            assert(files@[i as int] == before[seen]);
            assert(before.take(seen + 1).drop_last() =~= before.take(seen));
            assert(before.take(seen + 1).last() == before[seen]);
        }
        if files[i].path == *path {
            let _ = files.remove(i);
            proof {
                assert(files@ =~= without_path(before.take(seen + 1), path@) + before.skip(
                    seen + 1,
                ));
                seen = seen + 1;
            }
        } else {
            proof {
                assert(files@ =~= without_path(before.take(seen + 1), path@) + before.skip(
                    seen + 1,
                ));
                seen = seen + 1;
            }
            i += 1;
        }
    }
    proof {
        assert(before.skip(seen).len() == 0);
        assert(seen == before.len());
        assert(before.take(seen) =~= before);
        assert(files@ =~= without_path(before, path@));
    }
}

impl EagerSnapshot {
    /// A snapshot with the given content.
    pub fn new(
        version: i64,
        protocol: Protocol,
        metadata: Metadata,
        files: Vec<Add>,
        load_config: DeltaTableConfig,
    ) -> (s: Self)
        ensures
            s@ == (SnapshotView {
                version: version as int,
                protocol,
                metadata,
                files: files@,
                load_config,
            }),
    {
        EagerSnapshot { version, protocol, metadata, files, load_config }
    }

    /// The version this snapshot is at.
    pub fn version(&self) -> (v: i64)
        ensures
            v == self@.version,
    {
        self.version
    }

    /// The table settings in force.
    pub fn table_config(&self) -> (c: TableConfig)
        ensures
            c == self@.metadata.config,
    {
        self.metadata.config
    }

    /// Applies one action to the snapshot.
    fn apply(&mut self, action: Action)
        ensures
            final(self)@ == apply_action(old(self)@, action),
    {
        match action {
            Action::Add(add) => {
                remove_path(&mut self.files, &add.path);
                self.files.push(add);
            },
            Action::Remove(remove) => {
                remove_path(&mut self.files, &remove.path);
            },
            Action::Metadata(metadata) => {
                self.metadata = metadata;
            },
            Action::Protocol(protocol) => {
                self.protocol = protocol;
            },
            _ => {},
        }
    }

    /// Moves the snapshot one version forward by the actions of the entry
    /// committed at that version, without reading the log.
    pub fn advance(&mut self, actions: Vec<Action>)
        requires
            old(self).version < i64::MAX,
        ensures
            final(self)@ == apply_commit(old(self)@, actions@),
    {
        let ghost before = self@;
        let ghost all = actions@;
        proof {
            assert(all.take(0) =~= Seq::<Action>::empty());
        }
        for action in it: actions.into_iter()
            invariant
                it.seq() == all,
                self@ == apply_actions(before, all.take(it.index() as int)),
                self.version == before.version,
        {
            proof {
                let k = it.index() as int;
                assert(all.take(k + 1).drop_last() =~= all.take(k));
                assert(all.take(k + 1).last() == action);
            }
            self.apply(action);
        }
        proof {
            assert(all.take(all.len() as int) =~= all);
        }
        self.version = self.version + 1;
    }

    /// Replays the given log entries, first entry first, on top of this
    /// snapshot.
    pub fn replay_log(&mut self, log: Vec<Vec<Action>>)
        requires
            old(self).version + log@.len() <= i64::MAX,
        ensures
            final(self)@ == replay(old(self)@, entries_of(log@)),
    {
        let ghost before = self@;
        let ghost all = entries_of(log@);
        proof {
            assert(all.take(0) =~= Seq::<Seq<Action>>::empty());
        }
        for entry in it: log.into_iter()
            invariant
                it.seq().len() == all.len(),
                forall|k: int| 0 <= k < all.len() ==> (#[trigger] it.seq()[k])@ == all[k],
                self@ == replay(before, all.take(it.index() as int)),
                before.version + all.len() <= i64::MAX,
        {
            proof {
                let k = it.index() as int;
                assert(all.take(k + 1) =~= all.take(k).push(all[k]));
                lemma_replay_push(before, all.take(k), all[k]);
                lemma_replay_version(before, all.take(k));
            }
            self.advance(entry);
        }
        proof {
            assert(all.take(all.len() as int) =~= all);
        }
    }
}

/// A log as the sequence of its entries' action sequences.
pub open spec fn entries_of(log: Seq<Vec<Action>>) -> Seq<Seq<Action>> {
    Seq::new(log.len(), |k: int| log[k]@)
}

/// Actions never touch the version.
pub proof fn lemma_apply_actions_version(s: SnapshotView, actions: Seq<Action>)
    ensures
        apply_actions(s, actions).version == s.version,
    decreases actions.len(),
{
    if actions.len() > 0 {
        lemma_apply_actions_version(s, actions.drop_last());
    }
}

/// Every replayed entry raises the version by one.
pub proof fn lemma_replay_version(base: SnapshotView, log: Seq<Seq<Action>>)
    ensures
        replay(base, log).version == base.version + log.len(),
    decreases log.len(),
{
    if log.len() > 0 {
        lemma_apply_actions_version(base, log[0]);
        lemma_replay_version(apply_commit(base, log[0]), log.skip(1));
    }
}

impl TableReference for EagerSnapshot {
    open spec fn snapshot_view(&self) -> SnapshotView {
        self@
    }

    fn config(&self) -> TableConfig {
        self.table_config()
    }

    fn protocol(&self) -> &Protocol {
        &self.protocol
    }

    fn metadata(&self) -> &Metadata {
        &self.metadata
    }

    fn eager_snapshot(&self) -> &EagerSnapshot {
        self
    }
}

impl DeltaTableState {
    /// The snapshot of the loaded table.
    pub fn snapshot(&self) -> (s: &EagerSnapshot)
        ensures
            *s == self.snapshot,
    {
        &self.snapshot
    }

    /// How the table was loaded.
    pub fn load_config(&self) -> (c: DeltaTableConfig)
        ensures
            c == self.snapshot.load_config,
    {
        self.snapshot.load_config
    }

    /// The table settings in force.
    pub fn table_config(&self) -> (c: TableConfig)
        ensures
            c == self.snapshot.metadata.config,
    {
        self.snapshot.metadata.config
    }

    /// The version the table is at.
    pub fn version(&self) -> (v: i64)
        ensures
            v == self.snapshot.version,
    {
        self.snapshot.version
    }
}

impl TableReference for DeltaTableState {
    open spec fn snapshot_view(&self) -> SnapshotView {
        self.snapshot@
    }

    fn config(&self) -> TableConfig {
        self.snapshot.table_config()
    }

    fn protocol(&self) -> &Protocol {
        &self.snapshot.protocol
    }

    fn metadata(&self) -> &Metadata {
        &self.snapshot.metadata
    }

    fn eager_snapshot(&self) -> &EagerSnapshot {
        &self.snapshot
    }
}

} // verus!
