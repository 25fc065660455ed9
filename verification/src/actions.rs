//! The action model: what one line of a log entry can say.

use vstd::prelude::*;

verus! {

/// A table feature a reader must understand.
#[derive(Clone, Copy, Debug, PartialEq, Eq, Structural, Hash)]
pub enum ReaderFeature {
    ColumnMapping,
    DeletionVectors,
    TimestampWithoutTimezone,
    TypeWidening,
    V2Checkpoint,
    VacuumProtocolCheck,
}

/// A table feature a writer must understand.
#[derive(Clone, Copy, Debug, PartialEq, Eq, Structural, Hash)]
pub enum WriterFeature {
    AppendOnly,
    Invariants,
    CheckConstraints,
    ChangeDataFeed,
    GeneratedColumns,
    ColumnMapping,
    IdentityColumns,
    DeletionVectors,
    RowTracking,
    TimestampWithoutTimezone,
    TypeWidening,
    DomainMetadata,
    V2Checkpoint,
    IcebergCompatV1,
    VacuumProtocolCheck,
}

/// The value of one partition column.
#[derive(Clone, Debug, PartialEq, Eq)]
pub enum Scalar {
    Integer(i64),
    Text(String),
    Boolean(bool),
    Null,
}

/// One partition column together with its value.
#[derive(Clone, Debug, PartialEq, Eq)]
pub struct PartitionValue {
    pub column: String,
    pub value: Scalar,
}

/// The table settings the commit pipeline consults.
#[derive(Clone, Copy, Debug, PartialEq, Eq, Structural)]
pub struct TableConfig {
    /// Data may only be appended; removing data is rejected.
    pub append_only: bool,
    /// Expired log entries are cleaned up after a commit.
    pub enable_expired_log_cleanup: bool,
    /// How long a log entry is kept, in milliseconds.
    pub log_retention_ms: i64,
    /// A checkpoint is due whenever the next version is a multiple of this.
    pub checkpoint_interval: u32,
}

/// A data file added to the table.
#[derive(Clone, Debug, PartialEq, Eq)]
pub struct Add {
    pub path: String,
    pub partition_values: Vec<PartitionValue>,
    pub size: i64,
    pub data_change: bool,
    /// The file comes with a deletion vector.
    pub deletion_vector: bool,
}

/// A data file removed from the table.
#[derive(Clone, Debug, PartialEq, Eq)]
pub struct Remove {
    pub path: String,
    pub data_change: bool,
    /// The removed file carried a deletion vector.
    pub deletion_vector: bool,
}

/// The table's schema, partitioning and settings.
#[derive(Clone, Debug, PartialEq, Eq)]
pub struct Metadata {
    pub schema: String,
    pub partition_columns: Vec<String>,
    pub config: TableConfig,
    /// The schema declares column invariants.
    pub invariants: bool,
}

/// The minimum reader and writer versions and the features a table needs.
#[derive(Clone, Debug, PartialEq, Eq)]
pub struct Protocol {
    pub min_reader_version: i32,
    pub min_writer_version: i32,
    pub reader_features: Vec<ReaderFeature>,
    pub writer_features: Vec<WriterFeature>,
}

/// One entry of the free-form commit metadata.
#[derive(Clone, Debug, PartialEq)]
pub struct MetadataEntry {
    pub key: String,
    pub value: serde_json::Value,
}

/// Bookkeeping about the commit itself.
#[derive(Clone, Debug, PartialEq)]
pub struct CommitInfo {
    pub timestamp: Option<i64>,
    pub operation: Option<String>,
    pub info: Vec<MetadataEntry>,
}

/// An application transaction marker.
#[derive(Clone, Debug, PartialEq, Eq)]
pub struct Transaction {
    pub app_id: String,
    pub version: i64,
    pub last_updated: Option<i64>,
}

/// A change data file.
#[derive(Clone, Debug, PartialEq, Eq)]
pub struct Cdc {
    pub path: String,
    pub size: i64,
}

/// A named block of domain specific settings.
#[derive(Clone, Debug, PartialEq, Eq)]
pub struct DomainMetadata {
    pub domain: String,
    pub configuration: String,
    pub removed: bool,
}

/// One change to the table; a log entry is a list of these.
///
/// Only `Add`, `Remove`, `Metadata` and `Protocol` change the state of the
/// table. The others are bookkeeping.
#[derive(Clone, Debug, PartialEq)]
pub enum Action {
    Add(Add),
    Remove(Remove),
    Metadata(Metadata),
    Protocol(Protocol),
    CommitInfo(CommitInfo),
    Txn(Transaction),
    Cdc(Cdc),
    DomainMetadata(DomainMetadata),
}

impl Protocol {
    /// Versions from which the feature lists are mandatory.
    pub open spec fn well_formed(&self) -> bool {
        &&& self.min_reader_version >= 3 ==> self.reader_features@.len() > 0
        &&& self.min_writer_version >= 7 ==> self.writer_features@.len() > 0
    }

    /// Whether the feature lists are present where the versions demand them.
    pub fn is_well_formed(&self) -> (ok: bool)
        ensures
            ok == self.well_formed(),
    {
        (self.min_reader_version < 3 || self.reader_features.len() > 0) && (
        self.min_writer_version < 7 || self.writer_features.len() > 0)
    }
}

/// How many of `actions` are commit bookkeeping.
pub open spec fn count_commit_info(actions: Seq<Action>) -> nat
    decreases actions.len(),
{
    if actions.len() == 0 {
        0
    } else {
        count_commit_info(actions.drop_last()) + if actions.last() is CommitInfo {
            1nat
        } else {
            0nat
        }
    }
}

/// Whether any of `actions` is commit bookkeeping.
pub fn has_commit_info(actions: &Vec<Action>) -> (found: bool)
    ensures
        found == (exists|i: int| 0 <= i < actions@.len() && actions@[i] is CommitInfo),
        found == (count_commit_info(actions@) > 0),
{
    let mut i: usize = 0;
    while i < actions.len()
        invariant
            i <= actions.len(),
            forall|j: int| 0 <= j < i ==> !(actions@[j] is CommitInfo),
            count_commit_info(actions@.take(i as int)) == 0,
        decreases actions.len() - i,
    {
        if let Action::CommitInfo(_) = &actions[i] {
            proof {
                lemma_count_commit_info_found(actions@, i as int);
            }
            return true;
        }
        proof {
            assert(actions@.take(i + 1).drop_last() == actions@.take(i as int));
        }
        i += 1;
    }
    proof {
        assert(actions@.take(i as int) == actions@);
    }
    false
}

/// A list that holds commit bookkeeping at `i` counts at least one.
pub proof fn lemma_count_commit_info_found(actions: Seq<Action>, i: int)
    requires
        0 <= i < actions.len(),
        actions[i] is CommitInfo,
    ensures
        count_commit_info(actions) > 0,
    decreases actions.len(),
{
    if i < actions.len() - 1 {
        lemma_count_commit_info_found(actions.drop_last(), i);
    }
}

/// Appending one action raises the count by one exactly when it is commit
/// bookkeeping.
pub proof fn lemma_count_commit_info_push(actions: Seq<Action>, action: Action)
    ensures
        count_commit_info(actions.push(action)) == count_commit_info(actions) + if action
            is CommitInfo {
            1nat
        } else {
            0nat
        },
{
    assert(actions.push(action).drop_last() == actions);
}

/// A copy of a partition value.
pub(crate) fn copy_scalar(value: &Scalar) -> (copy: Scalar)
    ensures
        copy == *value,
{
    match value {
        Scalar::Integer(n) => Scalar::Integer(*n),
        Scalar::Text(text) => Scalar::Text(text.clone()),
        Scalar::Boolean(b) => Scalar::Boolean(*b),
        Scalar::Null => Scalar::Null,
    }
}

/// A copy of the values of the partition columns.
pub(crate) fn copy_values(values: &Vec<PartitionValue>) -> (copy: Vec<PartitionValue>)
    ensures
        copy@ == values@,
{
    let mut copy: Vec<PartitionValue> = Vec::new();
    let mut i: usize = 0;
    while i < values.len()
        invariant
            i <= values.len(),
            copy@ == values@.take(i as int),
        decreases values.len() - i,
    {
        copy.push(
            PartitionValue {
                column: values[i].column.clone(),
                value: copy_scalar(&values[i].value),
            },
        );
        proof {
            assert(values@.take(i + 1) =~= values@.take(i as int).push(values@[i as int]));
        }
        i += 1;
    }
    proof {
        assert(values@.take(i as int) =~= values@);
    }
    copy
}

} // verus!
