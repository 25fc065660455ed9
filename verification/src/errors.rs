//! What can go wrong while committing or writing.

use crate::actions::{ReaderFeature, WriterFeature};
use vstd::prelude::*;
use vstd::std_specs::convert::FromSpecImpl;
use vstd::string::StringExecFns;

verus! {

/// Why a commit cannot be linearized after a commit that won the race.
#[derive(Clone, Copy, Debug, PartialEq, Eq, Structural)]
pub enum CommitConflictError {
    /// The winner added files the transaction should have read.
    ConcurrentAppend,
    /// The winner removed a file the transaction read.
    ConcurrentDeleteRead,
    /// The winner removed a file the transaction removes too.
    ConcurrentDeleteDelete,
    /// The winner changed schema, partitioning or settings.
    MetadataChanged,
    /// The winner recorded an application transaction this one records too.
    ConcurrentTransaction,
    /// The winner changed the protocol.
    ProtocolChanged,
}

/// An error raised while committing a transaction.
#[derive(Debug)]
pub enum TransactionError {
    /// Another writer installed this version first.
    VersionAlreadyExists(i64),
    /// An action could not be serialized.
    SerializeLogJson { json_err: serde_json::Error },
    /// The object store failed.
    ObjectStore { source: object_store::Error },
    /// The commit conflicts with a commit that won the race.
    CommitConflict(CommitConflictError),
    /// Every allowed attempt lost the race.
    MaxCommitAttempts(i32),
    /// The commit removes data from an append-only table.
    DeltaTableAppendOnly,
    /// The protocol asks for reader features this writer lacks.
    UnsupportedReaderFeatures(Vec<ReaderFeature>),
    /// The protocol asks for writer features this writer lacks.
    UnsupportedWriterFeatures(Vec<WriterFeature>),
    /// A writer feature the commit relies on is not listed by the protocol.
    WriterFeaturesRequired(WriterFeature),
    /// A reader feature the commit relies on is not listed by the protocol.
    ReaderFeaturesRequired(ReaderFeature),
    /// The log store's own transactional layer failed.
    LogStoreError { msg: String, source: String },
}

/// An error raised while assembling a commit.
///
/// The builder validates nothing yet and never returns one; the single
/// variant only keeps the type usable in proofs.
#[derive(Clone, Copy, Debug, PartialEq, Eq, Structural)]
pub enum CommitBuilderError {
    Invalid,
}

/// An error raised while routing and buffering data to be written.
#[derive(Debug)]
pub enum WriteError {
    /// A batch does not have the schema of the file being written; both
    /// schemas are given by their description.
    SchemaMismatch { schema: String, expected_schema: String },
    /// The record of a written file could not be created.
    CreateAdd { source: String },
    /// The columnar data could not be handled.
    Arrow { source: arrow_schema::ArrowError },
    /// A batch could not be divided by partition values.
    Partitioning(String),
}

/// Every error a table operation can end in.
#[derive(Debug)]
pub enum DeltaTableError {
    VersionAlreadyExists(i64),
    SerializeLogJson { json_err: serde_json::Error },
    ObjectStore { source: object_store::Error },
    Transaction { source: TransactionError },
    CommitValidation { source: CommitBuilderError },
    InvalidPath { source: object_store::path::Error },
    SchemaMismatch { msg: String },
    Arrow { source: arrow_schema::ArrowError },
    WriteFailed { source: WriteError },
    Generic(String),
}

impl From<TransactionError> for DeltaTableError {
    fn from(err: TransactionError) -> (res: Self) {
        match err {
            TransactionError::VersionAlreadyExists(version) => {
                DeltaTableError::VersionAlreadyExists(version)
            },
            TransactionError::SerializeLogJson { json_err } => DeltaTableError::SerializeLogJson {
                json_err,
            },
            TransactionError::ObjectStore { source } => DeltaTableError::ObjectStore { source },
            other => DeltaTableError::Transaction { source: other },
        }
    }
}

impl FromSpecImpl<TransactionError> for DeltaTableError {
    open spec fn obeys_from_spec() -> bool {
        true
    }

    /// Three kinds surface under their own name; everything else is wrapped.
    open spec fn from_spec(err: TransactionError) -> Self {
        match err {
            TransactionError::VersionAlreadyExists(version) => {
                DeltaTableError::VersionAlreadyExists(version)
            },
            TransactionError::SerializeLogJson { json_err } => DeltaTableError::SerializeLogJson {
                json_err,
            },
            TransactionError::ObjectStore { source } => DeltaTableError::ObjectStore { source },
            other => DeltaTableError::Transaction { source: other },
        }
    }
}

impl From<CommitBuilderError> for DeltaTableError {
    fn from(err: CommitBuilderError) -> (res: Self) {
        DeltaTableError::CommitValidation { source: err }
    }
}

impl FromSpecImpl<CommitBuilderError> for DeltaTableError {
    open spec fn obeys_from_spec() -> bool {
        true
    }

    open spec fn from_spec(err: CommitBuilderError) -> Self {
        DeltaTableError::CommitValidation { source: err }
    }
}

impl From<CommitConflictError> for TransactionError {
    fn from(err: CommitConflictError) -> (res: Self) {
        TransactionError::CommitConflict(err)
    }
}

impl FromSpecImpl<CommitConflictError> for TransactionError {
    open spec fn obeys_from_spec() -> bool {
        true
    }

    open spec fn from_spec(err: CommitConflictError) -> Self {
        TransactionError::CommitConflict(err)
    }
}

/// The message of a schema mismatch.
pub open spec fn schema_mismatch_message(schema: Seq<char>, expected: Seq<char>) -> Seq<char> {
    "Unexpected Arrow schema: got: "@ + schema + ", expected: "@ + expected
}

impl From<WriteError> for DeltaTableError {
    fn from(err: WriteError) -> (res: Self)
        ensures
            write_error_surfaces_as(err, res),
    {
        surface_write_error(err)
    }
}

impl FromSpecImpl<WriteError> for DeltaTableError {
    /// The message of a mismatch is built anew, so the conversion is
    /// described by `write_error_surfaces_as` rather than by a function.
    open spec fn obeys_from_spec() -> bool {
        false
    }

    open spec fn from_spec(err: WriteError) -> Self {
        arbitrary()
    }
}

/// Whether `res` is what a write error surfaces as: a schema mismatch with
/// its message, a columnar error as it is, anything else wrapped.
pub open spec fn write_error_surfaces_as(err: WriteError, res: DeltaTableError) -> bool {
    match err {
        WriteError::SchemaMismatch { schema, expected_schema } => {
            res matches DeltaTableError::SchemaMismatch { msg } && msg@ == schema_mismatch_message(
                schema@,
                expected_schema@,
            )
        },
        WriteError::Arrow { source } => res == (DeltaTableError::Arrow { source }),
        other => res == (DeltaTableError::WriteFailed { source: other }),
    }
}

/// Turns a write error into the error a table operation ends in.
pub fn surface_write_error(err: WriteError) -> (res: DeltaTableError)
    ensures
        write_error_surfaces_as(err, res),
{
    match err {
        WriteError::SchemaMismatch { schema, expected_schema } => {
            let mut msg = String::from_str("Unexpected Arrow schema: got: ");
            msg.append(schema.as_str());
            msg.append(", expected: ");
            msg.append(expected_schema.as_str());
            DeltaTableError::SchemaMismatch { msg }
        },
        WriteError::Arrow { source } => DeltaTableError::Arrow { source },
        other => DeltaTableError::WriteFailed { source: other },
    }
}

} // verus!
