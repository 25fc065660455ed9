//! The protocol rules a commit must meet before it touches storage.

use crate::actions::{Action, Protocol, ReaderFeature, WriterFeature};
use crate::errors::TransactionError;
use crate::operation::DeltaOperation;
use crate::snapshot::{SnapshotView, TableReference};
use vstd::prelude::*;

verus! {

/// The features this writer implements.
#[derive(Clone, Debug, PartialEq, Eq)]
pub struct ProtocolChecker {
    pub reader_features: Vec<ReaderFeature>,
    pub writer_features: Vec<WriterFeature>,
}

/// What the protocol rules say about a commit.
pub enum ProtocolVerdict {
    Pass,
    AppendOnly,
    UnsupportedReaderFeatures(Seq<ReaderFeature>),
    UnsupportedWriterFeatures(Seq<WriterFeature>),
    WriterFeaturesRequired(WriterFeature),
    ReaderFeaturesRequired(ReaderFeature),
    /// Some failure the protocol rules do not produce.
    Other,
}

/// The entries of `wanted` that `have` lacks, in their order.
pub open spec fn missing_from<T>(wanted: Seq<T>, have: Seq<T>) -> Seq<T>
    decreases wanted.len(),
{
    if wanted.len() == 0 {
        wanted
    } else {
        let rest = missing_from(wanted.drop_last(), have);
        if have.contains(wanted.last()) {
            rest
        } else {
            rest.push(wanted.last())
        }
    }
}

/// Whether one of the actions removes data.
pub open spec fn removes_data(actions: Seq<Action>) -> bool {
    exists|i: int|
        0 <= i < actions.len() && (#[trigger] actions[i] matches Action::Remove(r)
            && r.data_change)
}

/// The protocol the commit itself declares: its first protocol action.
pub open spec fn committed_protocol(actions: Seq<Action>) -> Option<Protocol>
    decreases actions.len(),
{
    if actions.len() == 0 {
        None
    } else {
        match actions[0] {
            Action::Protocol(p) => Some(p),
            _ => committed_protocol(actions.skip(1)),
        }
    }
}

/// The writer feature an action relies on: deletion vectors for a file that
/// carries one, invariants for a schema that declares them.
pub open spec fn implied_writer_feature(action: Action) -> Option<WriterFeature> {
    match action {
        Action::Add(add) => if add.deletion_vector {
            Some(WriterFeature::DeletionVectors)
        } else {
            None
        },
        Action::Remove(remove) => if remove.deletion_vector {
            Some(WriterFeature::DeletionVectors)
        } else {
            None
        },
        Action::Metadata(metadata) => if metadata.invariants {
            Some(WriterFeature::Invariants)
        } else {
            None
        },
        _ => None,
    }
}

/// The reader feature an action relies on: deletion vectors for a file that
/// carries one.
pub open spec fn implied_reader_feature(action: Action) -> Option<ReaderFeature> {
    match action {
        Action::Add(add) => if add.deletion_vector {
            Some(ReaderFeature::DeletionVectors)
        } else {
            None
        },
        Action::Remove(remove) => if remove.deletion_vector {
            Some(ReaderFeature::DeletionVectors)
        } else {
            None
        },
        _ => None,
    }
}

/// The writer feature of the first action that relies on one `listed` lacks.
pub open spec fn first_unlisted_writer_feature(
    actions: Seq<Action>,
    listed: Seq<WriterFeature>,
) -> Option<WriterFeature>
    decreases actions.len(),
{
    if actions.len() == 0 {
        None
    } else {
        match implied_writer_feature(actions[0]) {
            Some(f) => if listed.contains(f) {
                first_unlisted_writer_feature(actions.skip(1), listed)
            } else {
                Some(f)
            },
            None => first_unlisted_writer_feature(actions.skip(1), listed),
        }
    }
}

/// The reader feature of the first action that relies on one `listed` lacks.
pub open spec fn first_unlisted_reader_feature(
    actions: Seq<Action>,
    listed: Seq<ReaderFeature>,
) -> Option<ReaderFeature>
    decreases actions.len(),
{
    if actions.len() == 0 {
        None
    } else {
        match implied_reader_feature(actions[0]) {
            Some(f) => if listed.contains(f) {
                first_unlisted_reader_feature(actions.skip(1), listed)
            } else {
                Some(f)
            },
            None => first_unlisted_reader_feature(actions.skip(1), listed),
        }
    }
}

/// The protocol rules, first violation first.
///
/// 1. An append-only table takes no action that removes data.
/// 2. A protocol action in the commit lists only reader features, and then
///    only writer features, that this writer implements.
/// 3. Under the protocol in force after the commit (the one it declares, else
///    the table's), from writer version 7 on every writer feature an action
///    relies on is listed, and from reader version 3 on every reader feature.
pub open spec fn can_commit_verdict(
    reader_features: Seq<ReaderFeature>,
    writer_features: Seq<WriterFeature>,
    table: SnapshotView,
    actions: Seq<Action>,
) -> ProtocolVerdict {
    let declared = committed_protocol(actions);
    let in_force = match declared {
        Some(p) => p,
        None => table.protocol,
    };
    let bad_reader = match declared {
        Some(p) => missing_from(p.reader_features@, reader_features),
        None => Seq::empty(),
    };
    let bad_writer = match declared {
        Some(p) => missing_from(p.writer_features@, writer_features),
        None => Seq::empty(),
    };
    let writer_gap = first_unlisted_writer_feature(actions, in_force.writer_features@);
    let reader_gap = first_unlisted_reader_feature(actions, in_force.reader_features@);
    if table.metadata.config.append_only && removes_data(actions) {
        ProtocolVerdict::AppendOnly
    } else if bad_reader.len() > 0 {
        ProtocolVerdict::UnsupportedReaderFeatures(bad_reader)
    } else if bad_writer.len() > 0 {
        ProtocolVerdict::UnsupportedWriterFeatures(bad_writer)
    } else if in_force.min_writer_version >= 7 && writer_gap is Some {
        ProtocolVerdict::WriterFeaturesRequired(writer_gap->Some_0)
    } else if in_force.min_reader_version >= 3 && reader_gap is Some {
        ProtocolVerdict::ReaderFeaturesRequired(reader_gap->Some_0)
    } else {
        ProtocolVerdict::Pass
    }
}

/// The verdict that a result of `can_commit` stands for.
pub open spec fn verdict_of(res: Result<(), TransactionError>) -> ProtocolVerdict {
    match res {
        Ok(_) => ProtocolVerdict::Pass,
        Err(TransactionError::DeltaTableAppendOnly) => ProtocolVerdict::AppendOnly,
        Err(TransactionError::UnsupportedReaderFeatures(f)) => {
            ProtocolVerdict::UnsupportedReaderFeatures(f@)
        },
        Err(TransactionError::UnsupportedWriterFeatures(f)) => {
            ProtocolVerdict::UnsupportedWriterFeatures(f@)
        },
        Err(TransactionError::WriterFeaturesRequired(f)) => {
            ProtocolVerdict::WriterFeaturesRequired(f)
        },
        Err(TransactionError::ReaderFeaturesRequired(f)) => {
            ProtocolVerdict::ReaderFeaturesRequired(f)
        },
        Err(_) => ProtocolVerdict::Other,
    }
}

/// Whether `features` lists `feature`.
pub fn lists_reader_feature(features: &Vec<ReaderFeature>, feature: ReaderFeature) -> (found: bool)
    ensures
        found == features@.contains(feature),
{
    let mut i: usize = 0;
    while i < features.len()
        invariant
            i <= features.len(),
            forall|j: int| 0 <= j < i ==> features@[j] != feature,
        decreases features.len() - i,
    {
        if features[i] == feature {
            return true;
        }
        i += 1;
    }
    false
}

/// Whether `features` lists `feature`.
pub fn lists_writer_feature(features: &Vec<WriterFeature>, feature: WriterFeature) -> (found: bool)
    ensures
        found == features@.contains(feature),
{
    let mut i: usize = 0;
    while i < features.len()
        invariant
            i <= features.len(),
            forall|j: int| 0 <= j < i ==> features@[j] != feature,
        decreases features.len() - i,
    {
        if features[i] == feature {
            return true;
        }
        i += 1;
    }
    false
}

fn unsupported_reader_features(wanted: &Vec<ReaderFeature>, have: &Vec<ReaderFeature>) -> (missing:
    Vec<ReaderFeature>)
    ensures
        missing@ == missing_from(wanted@, have@),
{
    let mut missing: Vec<ReaderFeature> = Vec::new();
    let mut i: usize = 0;
    proof {
        assert(wanted@.take(0) =~= Seq::<ReaderFeature>::empty());
    }
    while i < wanted.len()
        invariant
            i <= wanted.len(),
            missing@ == missing_from(wanted@.take(i as int), have@),
        decreases wanted.len() - i,
    {
        proof {
            assert(wanted@.take(i + 1).drop_last() =~= wanted@.take(i as int));
        }
        if !lists_reader_feature(have, wanted[i]) {
            missing.push(wanted[i]);
        }
        i += 1;
    }
    proof {
        assert(wanted@.take(i as int) =~= wanted@);
    }
    missing
}

fn unsupported_writer_features(wanted: &Vec<WriterFeature>, have: &Vec<WriterFeature>) -> (missing:
    Vec<WriterFeature>)
    ensures
        missing@ == missing_from(wanted@, have@),
{
    let mut missing: Vec<WriterFeature> = Vec::new();
    let mut i: usize = 0;
    proof {
        assert(wanted@.take(0) =~= Seq::<WriterFeature>::empty());
    }
    while i < wanted.len()
        invariant
            i <= wanted.len(),
            missing@ == missing_from(wanted@.take(i as int), have@),
        decreases wanted.len() - i,
    {
        proof {
            assert(wanted@.take(i + 1).drop_last() =~= wanted@.take(i as int));
        }
        if !lists_writer_feature(have, wanted[i]) {
            missing.push(wanted[i]);
        }
        i += 1;
    }
    proof {
        assert(wanted@.take(i as int) =~= wanted@);
    }
    missing
}

fn has_data_removal(actions: &Vec<Action>) -> (found: bool)
    ensures
        found == removes_data(actions@),
{
    let mut i: usize = 0;
    while i < actions.len()
        invariant
            i <= actions.len(),
            forall|j: int|
                0 <= j < i ==> !(#[trigger] actions@[j] matches Action::Remove(r) && r.data_change),
        decreases actions.len() - i,
    {
        if let Action::Remove(remove) = &actions[i] {
            if remove.data_change {
                return true;
            }
        }
        i += 1;
    }
    false
}

fn find_committed_protocol(actions: &Vec<Action>) -> (found: Option<&Protocol>)
    ensures
        match found {
            Some(p) => committed_protocol(actions@) == Some(*p),
            None => committed_protocol(actions@) is None,
        },
{
    let mut i: usize = 0;
    proof {
        assert(actions@.skip(0) =~= actions@);
    }
    while i < actions.len()
        invariant
            i <= actions.len(),
            committed_protocol(actions@) == committed_protocol(actions@.skip(i as int)),
        decreases actions.len() - i,
    {
        proof {
            assert(actions@.skip(i as int)[0] == actions@[i as int]);
            assert(actions@.skip(i as int).skip(1) =~= actions@.skip(i + 1));
        }
        if let Action::Protocol(p) = &actions[i] {
            return Some(p);
        }
        i += 1;
    }
    None
}

fn writer_feature_of(action: &Action) -> (f: Option<WriterFeature>)
    ensures
        f == implied_writer_feature(*action),
{
    match action {
        Action::Add(add) => if add.deletion_vector {
            Some(WriterFeature::DeletionVectors)
        } else {
            None
        },
        Action::Remove(remove) => if remove.deletion_vector {
            Some(WriterFeature::DeletionVectors)
        } else {
            None
        },
        Action::Metadata(metadata) => if metadata.invariants {
            Some(WriterFeature::Invariants)
        } else {
            None
        },
        _ => None,
    }
}

fn reader_feature_of(action: &Action) -> (f: Option<ReaderFeature>)
    ensures
        f == implied_reader_feature(*action),
{
    match action {
        Action::Add(add) => if add.deletion_vector {
            Some(ReaderFeature::DeletionVectors)
        } else {
            None
        },
        Action::Remove(remove) => if remove.deletion_vector {
            Some(ReaderFeature::DeletionVectors)
        } else {
            None
        },
        _ => None,
    }
}

fn find_unlisted_writer_feature(actions: &Vec<Action>, listed: &Vec<WriterFeature>) -> (gap: Option<
    WriterFeature,
>)
    ensures
        gap == first_unlisted_writer_feature(actions@, listed@),
{
    let mut i: usize = 0;
    proof {
        assert(actions@.skip(0) =~= actions@);
    }
    while i < actions.len()
        invariant
            i <= actions.len(),
            first_unlisted_writer_feature(actions@, listed@) == first_unlisted_writer_feature(
                actions@.skip(i as int),
                listed@,
            ),
        decreases actions.len() - i,
    {
        proof {
            assert(actions@.skip(i as int)[0] == actions@[i as int]);
            assert(actions@.skip(i as int).skip(1) =~= actions@.skip(i + 1));
        }
        if let Some(f) = writer_feature_of(&actions[i]) {
            if !lists_writer_feature(listed, f) {
                return Some(f);
            }
        }
        i += 1;
    }
    None
}

fn find_unlisted_reader_feature(actions: &Vec<Action>, listed: &Vec<ReaderFeature>) -> (gap: Option<
    ReaderFeature,
>)
    ensures
        gap == first_unlisted_reader_feature(actions@, listed@),
{
    let mut i: usize = 0;
    proof {
        assert(actions@.skip(0) =~= actions@);
    }
    while i < actions.len()
        invariant
            i <= actions.len(),
            first_unlisted_reader_feature(actions@, listed@) == first_unlisted_reader_feature(
                actions@.skip(i as int),
                listed@,
            ),
        decreases actions.len() - i,
    {
        proof {
            assert(actions@.skip(i as int)[0] == actions@[i as int]);
            assert(actions@.skip(i as int).skip(1) =~= actions@.skip(i + 1));
        }
        if let Some(f) = reader_feature_of(&actions[i]) {
            if !lists_reader_feature(listed, f) {
                return Some(f);
            }
        }
        i += 1;
    }
    None
}

impl ProtocolChecker {
    /// A checker for a writer that implements the given features.
    pub fn new(reader_features: Vec<ReaderFeature>, writer_features: Vec<WriterFeature>) -> (c:
        Self)
        ensures
            c.reader_features == reader_features,
            c.writer_features == writer_features,
    {
        ProtocolChecker { reader_features, writer_features }
    }

    /// Decides whether the commit may go ahead against the given table, and
    /// if not, names the first rule it breaks.
    pub fn can_commit<T: TableReference>(
        &self,
        table: &T,
        actions: &Vec<Action>,
        operation: &DeltaOperation,
    ) -> (res: Result<(), TransactionError>)
        ensures
            verdict_of(res) == can_commit_verdict(
                self.reader_features@,
                self.writer_features@,
                table.snapshot_view(),
                actions@,
            ),
    {
        if table.config().append_only && has_data_removal(actions) {
            return Err(TransactionError::DeltaTableAppendOnly);
        }
        let declared = find_committed_protocol(actions);
        let in_force = match declared {
            Some(p) => {
                let bad_reader = unsupported_reader_features(
                    &p.reader_features,
                    &self.reader_features,
                );
                if bad_reader.len() > 0 {
                    return Err(TransactionError::UnsupportedReaderFeatures(bad_reader));
                }
                let bad_writer = unsupported_writer_features(
                    &p.writer_features,
                    &self.writer_features,
                );
                if bad_writer.len() > 0 {
                    return Err(TransactionError::UnsupportedWriterFeatures(bad_writer));
                }
                p
            },
            None => table.protocol(),
        };
        if in_force.min_writer_version >= 7 {
            if let Some(f) = find_unlisted_writer_feature(actions, &in_force.writer_features) {
                return Err(TransactionError::WriterFeaturesRequired(f));
            }
        }
        if in_force.min_reader_version >= 3 {
            if let Some(f) = find_unlisted_reader_feature(actions, &in_force.reader_features) {
                return Err(TransactionError::ReaderFeaturesRequired(f));
            }
        }
        Ok(())
    }
}

/// The reader features this crate implements: timestamps without time zone.
pub open spec fn supported_reader_features() -> Seq<ReaderFeature> {
    seq![ReaderFeature::TimestampWithoutTimezone]
}

/// The writer features this crate implements: append-only tables, invariants
/// and timestamps without time zone.
pub open spec fn supported_writer_features() -> Seq<WriterFeature> {
    seq![
        WriterFeature::AppendOnly,
        WriterFeature::Invariants,
        WriterFeature::TimestampWithoutTimezone,
    ]
}

/// The checker for what this crate implements.
pub fn default_protocol_checker() -> (c: ProtocolChecker)
    ensures
        c.reader_features@ == supported_reader_features(),
        c.writer_features@ == supported_writer_features(),
{
    let mut reader_features: Vec<ReaderFeature> = Vec::new();
    reader_features.push(ReaderFeature::TimestampWithoutTimezone);
    let mut writer_features: Vec<WriterFeature> = Vec::new();
    writer_features.push(WriterFeature::AppendOnly);
    writer_features.push(WriterFeature::Invariants);
    writer_features.push(WriterFeature::TimestampWithoutTimezone);
    ProtocolChecker { reader_features, writer_features }
}

} // verus!
