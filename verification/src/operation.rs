//! Why a commit happens, and what it logically read.

use crate::actions::{CommitInfo, PartitionValue, Scalar};
use vstd::prelude::*;
use vstd::string::StringExecFns;

verus! {

/// A comparison between a partition column and an integer literal.
#[derive(Clone, Copy, Debug, PartialEq, Eq, Structural)]
pub enum Comparison {
    Eq,
    NotEq,
    Lt,
    LtEq,
    Gt,
    GtEq,
}

/// What a transaction read, as far as partition columns can tell.
///
/// The analysis is deliberately coarse. It looks only at equalities and ranges
/// over partition columns; whatever it cannot bound counts as possibly
/// matching every file.
#[derive(Debug, PartialEq, Eq)]
pub enum Predicate {
    /// `column <op> value`
    Compare { column: String, op: Comparison, value: i64 },
    /// `column = 'value'`
    TextEquals { column: String, value: String },
    And(Box<Predicate>, Box<Predicate>),
    Or(Box<Predicate>, Box<Predicate>),
    /// An expression the analysis does not look into.
    Opaque,
}

/// How a write treats data that is already there.
#[derive(Clone, Copy, Debug, PartialEq, Eq, Structural)]
pub enum SaveMode {
    Append,
    Overwrite,
    ErrorIfExists,
    Ignore,
}

/// The operation a commit records.
#[derive(Debug, PartialEq, Eq)]
pub enum DeltaOperation {
    Create { mode: SaveMode },
    Write { mode: SaveMode, predicate: Option<Predicate> },
    Delete { predicate: Option<Predicate> },
    Update { predicate: Option<Predicate> },
    Merge { predicate: Option<Predicate> },
    Optimize,
    VacuumStart,
    VacuumEnd,
    /// Enables table features; the commit itself raises the protocol.
    AddFeature,
}

/// The outcome of `left <op> right` on integers.
pub open spec fn compare_holds(op: Comparison, left: int, right: int) -> bool {
    match op {
        Comparison::Eq => left == right,
        Comparison::NotEq => left != right,
        Comparison::Lt => left < right,
        Comparison::LtEq => left <= right,
        Comparison::Gt => left > right,
        Comparison::GtEq => left >= right,
    }
}

/// The value recorded for `column`: that of the first entry with this name.
pub open spec fn partition_value(values: Seq<PartitionValue>, column: Seq<char>) -> Option<Scalar>
    decreases values.len(),
{
    if values.len() == 0 {
        None
    } else if values[0].column@ == column {
        Some(values[0].value)
    } else {
        partition_value(values.skip(1), column)
    }
}

impl Comparison {
    /// Evaluates `left <op> right`.
    pub fn holds(self, left: i64, right: i64) -> (r: bool)
        ensures
            r == compare_holds(self, left as int, right as int),
    {
        match self {
            Comparison::Eq => left == right,
            Comparison::NotEq => left != right,
            Comparison::Lt => left < right,
            Comparison::LtEq => left <= right,
            Comparison::Gt => left > right,
            Comparison::GtEq => left >= right,
        }
    }
}

/// Looks up the value recorded for `column`.
pub fn find_partition_value<'a>(values: &'a Vec<PartitionValue>, column: &String) -> (found: Option<
    &'a Scalar,
>)
    ensures
        match found {
            Some(v) => partition_value(values@, column@) == Some(*v),
            None => partition_value(values@, column@) is None,
        },
{
    let mut i: usize = 0;
    proof {
        assert(values@.skip(0) == values@);
    }
    while i < values.len()
        invariant
            i <= values.len(),
            partition_value(values@, column@) == partition_value(values@.skip(i as int), column@),
        decreases values.len() - i,
    {
        proof {
            assert(values@.skip(i as int)[0] == values@[i as int]);
            assert(values@.skip(i as int).skip(1) == values@.skip(i + 1));
        }
        if values[i].column == *column {
            return Some(&values[i].value);
        }
        i += 1;
    }
    None
}

impl Predicate {
    /// Whether a file with these partition values may hold rows the predicate
    /// selects.
    ///
    /// A comparison on a column that is no partition column, or whose value
    /// has another type than the literal, excludes nothing. A null partition
    /// value satisfies no comparison.
    pub open spec fn may_match(self, values: Seq<PartitionValue>) -> bool
        decreases self,
    {
        match self {
            Predicate::Compare { column, op, value } => match partition_value(values, column@) {
                Some(Scalar::Integer(v)) => compare_holds(op, v as int, value as int),
                Some(Scalar::Null) => false,
                _ => true,
            },
            Predicate::TextEquals { column, value } => match partition_value(values, column@) {
                Some(Scalar::Text(t)) => t@ == value@,
                Some(Scalar::Null) => false,
                _ => true,
            },
            Predicate::And(left, right) => left.may_match(values) && right.may_match(values),
            Predicate::Or(left, right) => left.may_match(values) || right.may_match(values),
            Predicate::Opaque => true,
        }
    }

    /// Decides whether the predicate intersects the given partition values.
    pub fn intersects(&self, values: &Vec<PartitionValue>) -> (r: bool)
        ensures
            r == self.may_match(values@),
        decreases self,
    {
        match self {
            Predicate::Compare { column, op, value } => {
                match find_partition_value(values, column) {
                    Some(Scalar::Integer(v)) => op.holds(*v, *value),
                    Some(Scalar::Null) => false,
                    _ => true,
                }
            },
            Predicate::TextEquals { column, value } => {
                match find_partition_value(values, column) {
                    Some(Scalar::Text(t)) => *t == *value,
                    Some(Scalar::Null) => false,
                    _ => true,
                }
            },
            Predicate::And(left, right) => left.intersects(values) && right.intersects(values),
            Predicate::Or(left, right) => left.intersects(values) || right.intersects(values),
            Predicate::Opaque => true,
        }
    }
}

impl DeltaOperation {
    /// The name under which the operation is recorded.
    pub open spec fn spec_name(&self) -> Seq<char> {
        match self {
            DeltaOperation::Create { .. } => "CREATE TABLE"@,
            DeltaOperation::Write { .. } => "WRITE"@,
            DeltaOperation::Delete { .. } => "DELETE"@,
            DeltaOperation::Update { .. } => "UPDATE"@,
            DeltaOperation::Merge { .. } => "MERGE"@,
            DeltaOperation::Optimize => "OPTIMIZE"@,
            DeltaOperation::VacuumStart => "VACUUM START"@,
            DeltaOperation::VacuumEnd => "VACUUM END"@,
            DeltaOperation::AddFeature => "ADD FEATURE"@,
        }
    }

    /// The predicate describing the rows the operation logically read.
    pub open spec fn spec_read_predicate(&self) -> Option<Predicate> {
        match self {
            DeltaOperation::Write { predicate, .. } => *predicate,
            DeltaOperation::Delete { predicate } => *predicate,
            DeltaOperation::Update { predicate } => *predicate,
            DeltaOperation::Merge { predicate } => *predicate,
            _ => None,
        }
    }

    /// Whether the operation had to read the whole table: a merge without a
    /// predicate joins all of it.
    pub open spec fn spec_read_whole_table(&self) -> bool {
        self matches DeltaOperation::Merge { predicate } && predicate is None
    }

    /// Whether the operation itself raises the protocol.
    pub open spec fn spec_is_protocol_upgrade(&self) -> bool {
        self is AddFeature
    }

    /// The name under which the operation is recorded.
    pub fn name(&self) -> (s: &'static str)
        ensures
            s@ == self.spec_name(),
    {
        match self {
            DeltaOperation::Create { .. } => "CREATE TABLE",
            DeltaOperation::Write { .. } => "WRITE",
            DeltaOperation::Delete { .. } => "DELETE",
            DeltaOperation::Update { .. } => "UPDATE",
            DeltaOperation::Merge { .. } => "MERGE",
            DeltaOperation::Optimize => "OPTIMIZE",
            DeltaOperation::VacuumStart => "VACUUM START",
            DeltaOperation::VacuumEnd => "VACUUM END",
            DeltaOperation::AddFeature => "ADD FEATURE",
        }
    }

    /// The predicate describing the rows the operation logically read, if
    /// it states one.
    pub fn read_predicate(&self) -> (p: Option<&Predicate>)
        ensures
            match p {
                Some(q) => self.spec_read_predicate() == Some(*q),
                None => self.spec_read_predicate() is None,
            },
    {
        match self {
            DeltaOperation::Write { predicate, .. } => predicate.as_ref(),
            DeltaOperation::Delete { predicate } => predicate.as_ref(),
            DeltaOperation::Update { predicate } => predicate.as_ref(),
            DeltaOperation::Merge { predicate } => predicate.as_ref(),
            _ => None,
        }
    }

    /// Whether the operation had to read the whole table.
    pub fn read_whole_table(&self) -> (whole: bool)
        ensures
            whole == self.spec_read_whole_table(),
    {
        match self {
            DeltaOperation::Merge { predicate } => predicate.is_none(),
            _ => false,
        }
    }

    /// Whether the operation itself raises the protocol.
    pub fn is_protocol_upgrade(&self) -> (upgrade: bool)
        ensures
            upgrade == self.spec_is_protocol_upgrade(),
    {
        match self {
            DeltaOperation::AddFeature => true,
            _ => false,
        }
    }

    /// The bookkeeping record for a commit of this operation: it names the
    /// operation and carries neither a timestamp nor other entries yet.
    pub fn get_commit_info(&self) -> (info: CommitInfo)
        ensures
            info.timestamp is None,
            info.operation matches Some(name) && name@ == self.spec_name(),
            info.info@.len() == 0,
    {
        CommitInfo {
            timestamp: None,
            operation: Some(String::from_str(self.name())),
            info: Vec::new(),
        }
    }
}

} // verus!
