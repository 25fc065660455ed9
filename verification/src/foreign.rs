//! The few calls this crate makes into other crates.
//!
//! Every function here is a thin shim whose contract is taken on faith from
//! the documentation and source of the crate it calls; nothing in this file is
//! proved. Everything else in the crate is verified against these contracts.

use vstd::prelude::*;

verus! {

/// `bytes::Bytes`: a cheaply cloneable buffer of octets. What it holds is
/// named by `bytes_content`.
#[verifier::external_type_specification]
#[verifier::external_body]
pub struct ExBytes(bytes::Bytes);

/// The octets a `bytes::Bytes` buffer currently holds, front to back.
pub uninterp spec fn bytes_content(b: bytes::Bytes) -> Seq<u8>;

/// `Bytes::from(Vec<u8>)`: the buffer takes over the vector and holds
/// exactly its octets.
#[verifier::external_body]
pub(crate) fn bytes_from_vec(v: Vec<u8>) -> (b: bytes::Bytes)
    ensures
        bytes_content(b) == v@,
{
    bytes::Bytes::from(v)
}

/// `<Bytes as Clone>::clone`: the copy holds the same octets.
pub assume_specification[ <bytes::Bytes as Clone>::clone ](b: &bytes::Bytes) -> (copy: bytes::Bytes)
    ensures
        bytes_content(copy) == bytes_content(*b),
;

/// `Bytes::len`: the number of octets held.
#[verifier::external_body]
pub(crate) fn bytes_len(b: &bytes::Bytes) -> (n: usize)
    ensures
        n == bytes_content(*b).len(),
{
    b.len()
}

/// `Bytes::is_empty`: whether no octet is held.
#[verifier::external_body]
pub(crate) fn bytes_is_empty(b: &bytes::Bytes) -> (empty: bool)
    ensures
        empty == (bytes_content(*b).len() == 0),
{
    b.is_empty()
}

/// `Bytes::split_to`: the first `at` octets are split off and returned, the
/// rest stays behind. The call panics when `at` exceeds the length, hence the
/// precondition.
#[verifier::external_body]
pub(crate) fn bytes_split_to(b: &mut bytes::Bytes, at: usize) -> (head: bytes::Bytes)
    requires
        at <= bytes_content(*old(b)).len(),
    ensures
        bytes_content(head) == bytes_content(*old(b)).subrange(0, at as int),
        bytes_content(*final(b)) == bytes_content(*old(b)).subrange(
            at as int,
            bytes_content(*old(b)).len() as int,
        ),
{
    b.split_to(at)
}

/// `Utc::now().timestamp_millis()`: the wall clock in milliseconds since the
/// Unix epoch. Nothing is promised about the value.
#[verifier::external_body]
pub(crate) fn now_millis() -> (t: i64) {
    chrono::Utc::now().timestamp_millis()
}

/// `Uuid::new_v4().as_u128()`: a fresh random identifier as its 128-bit
/// value. Nothing is promised about the value.
#[verifier::external_body]
pub(crate) fn fresh_uuid() -> (id: u128) {
    uuid::Uuid::new_v4().as_u128()
}

/// The text `Uuid::from_u128(id)` displays as: the hyphenated lower-case form.
pub uninterp spec fn uuid_text(id: u128) -> Seq<char>;

/// `Uuid::from_u128(id).to_string()`.
#[verifier::external_body]
pub(crate) fn uuid_to_string(id: u128) -> (s: String)
    ensures
        s@ == uuid_text(id),
{
    uuid::Uuid::from_u128(id).to_string()
}

/// `serde_json::Value`: a JSON value, carried through and never looked into.
#[verifier::external_type_specification]
#[verifier::external_body]
pub struct ExJsonValue(serde_json::Value);

/// `serde_json::Error`: why a value did not serialize; carried through.
#[verifier::external_type_specification]
#[verifier::external_body]
pub struct ExJsonError(serde_json::Error);

/// `<serde_json::Value as Clone>::clone`: the copy is the same JSON value.
pub assume_specification[ <serde_json::Value as Clone>::clone ](v: &serde_json::Value) -> (copy:
    serde_json::Value)
    ensures
        copy == *v,
;

/// The JSON string value with the given text.
pub uninterp spec fn json_string_value(text: Seq<char>) -> serde_json::Value;

/// `serde_json::Value::String(text)`.
#[verifier::external_body]
pub(crate) fn json_string(text: String) -> (v: serde_json::Value)
    ensures
        v == json_string_value(text@),
{
    serde_json::Value::String(text)
}

/// `object_store::Error`: a failure of the object store; carried through.
#[verifier::external_type_specification]
#[verifier::external_body]
pub struct ExObjectStoreError(object_store::Error);

/// `object_store::path::Error`: why a text is no valid path; carried through.
#[verifier::external_type_specification]
#[verifier::external_body]
pub struct ExPathError(object_store::path::Error);

/// `object_store::path::Path`: a location in an object store. Its raw text is
/// named by `path_text`.
#[verifier::external_type_specification]
#[verifier::external_body]
pub struct ExPath(object_store::path::Path);

/// The raw text of a path: its parts joined by `/`, with no `/` at either
/// end.
pub uninterp spec fn path_text(p: object_store::path::Path) -> Seq<char>;

/// `<Path as Clone>::clone`: the copy is the same path.
pub assume_specification[ <object_store::path::Path as Clone>::clone ](
    p: &object_store::path::Path,
) -> (copy: object_store::path::Path)
    ensures
        path_text(copy) == path_text(*p),
;

/// `Path == Path`: two paths are equal exactly when their raw texts are.
#[verifier::external_body]
pub(crate) fn same_path(a: &object_store::path::Path, b: &object_store::path::Path) -> (same: bool)
    ensures
        same == (path_text(*a) == path_text(*b)),
{
    a == b
}

/// `Path::to_string`: the raw text of the path.
#[verifier::external_body]
pub(crate) fn path_to_string(p: &object_store::path::Path) -> (s: String)
    ensures
        s@ == path_text(*p),
{
    p.to_string()
}

/// The raw text of the path that `Path::from_iter` builds from two parts:
/// each part percent-encoded where it must be, empty parts left out, the rest
/// joined by `/`.
pub uninterp spec fn path_of_parts(first: Seq<char>, second: Seq<char>) -> Seq<char>;

/// `Path::from_iter([first, second])`.
#[verifier::external_body]
pub(crate) fn path_from_parts(first: &str, second: &str) -> (p: object_store::path::Path)
    ensures
        path_text(p) == path_of_parts(first@, second@),
{
    object_store::path::Path::from_iter([first, second])
}

/// The raw text of the path that `Path::join` makes of a path and one more
/// part: the part percent-encoded where it must be and appended, after a `/`
/// unless the path is empty.
pub uninterp spec fn path_with_child(parent: Seq<char>, child: Seq<char>) -> Seq<char>;

/// `parent.clone().join(child)`.
#[verifier::external_body]
pub(crate) fn path_child(parent: &object_store::path::Path, child: &str) -> (p:
    object_store::path::Path)
    ensures
        path_text(p) == path_with_child(path_text(*parent), child@),
{
    parent.clone().join(child)
}

/// What `Path::parse` makes of a text: the raw text of the path, or nothing
/// where the text is no valid path.
pub uninterp spec fn parsed_path(text: Seq<char>) -> Option<Seq<char>>;

/// `Path::parse(text)`.
#[verifier::external_body]
pub(crate) fn parse_path(text: &str) -> (r: Result<
    object_store::path::Path,
    object_store::path::Error,
>)
    ensures
        match r {
            Ok(p) => parsed_path(text@) == Some(path_text(p)),
            Err(_) => parsed_path(text@) is None,
        },
{
    object_store::path::Path::parse(text)
}

/// `arrow_schema::ArrowError`: a failure in handling columnar data; carried
/// through.
#[verifier::external_type_specification]
#[verifier::external_body]
pub struct ExArrowError(arrow_schema::ArrowError);

/// `parquet::file::properties::WriterProperties`: the configuration of the
/// file encoder, carried through and never looked into.
#[verifier::external_type_specification]
#[verifier::external_body]
pub struct ExWriterProperties(parquet::file::properties::WriterProperties);

/// `<WriterProperties as Clone>::clone`: the copy is the same configuration.
pub assume_specification[ <parquet::file::properties::WriterProperties as Clone>::clone ](
    p: &parquet::file::properties::WriterProperties,
) -> (copy: parquet::file::properties::WriterProperties)
    ensures
        copy == *p,
;

/// The codec `WriterProperties::compression` names for a column that has no
/// setting of its own: the default of the configuration.
pub uninterp spec fn default_compression(
    p: parquet::file::properties::WriterProperties,
) -> crate::writer::Codec;

/// `WriterProperties::builder().set_compression(Compression::SNAPPY).build()`:
/// a configuration whose default codec is snappy. Nothing else is stated
/// about it.
#[verifier::external_body]
pub(crate) fn snappy_writer_properties() -> (p: parquet::file::properties::WriterProperties)
    ensures
        default_compression(p) == crate::writer::Codec::Snappy,
{
    parquet::file::properties::WriterProperties::builder().set_compression(
        parquet::basic::Compression::SNAPPY,
    ).build()
}

/// `WriterProperties::builder().set_created_by(created_by).build()`: a
/// configuration that sets no codec, so that its default codec is the
/// builder's, which is none at all. Nothing else is stated about it.
#[verifier::external_body]
pub(crate) fn writer_properties_created_by(created_by: String) -> (p:
    parquet::file::properties::WriterProperties)
    ensures
        default_compression(p) == crate::writer::Codec::Uncompressed,
{
    parquet::file::properties::WriterProperties::builder().set_created_by(created_by).build()
}

/// `WriterProperties::compression` for a column that has no setting of its
/// own, so that the default applies, told apart by codec.
#[verifier::external_body]
pub(crate) fn default_codec(p: &parquet::file::properties::WriterProperties) -> (codec:
    crate::writer::Codec)
    ensures
        codec == default_compression(*p),
{
    let column = parquet::schema::types::ColumnPath::new(Vec::new());
    match p.compression(&column) {
        parquet::basic::Compression::UNCOMPRESSED => crate::writer::Codec::Uncompressed,
        parquet::basic::Compression::SNAPPY => crate::writer::Codec::Snappy,
        parquet::basic::Compression::GZIP(_) => crate::writer::Codec::Gzip,
        parquet::basic::Compression::LZO => crate::writer::Codec::Lzo,
        parquet::basic::Compression::BROTLI(_) => crate::writer::Codec::Brotli,
        parquet::basic::Compression::LZ4 => crate::writer::Codec::Lz4,
        parquet::basic::Compression::ZSTD(_) => crate::writer::Codec::Zstd,
        parquet::basic::Compression::LZ4_RAW => crate::writer::Codec::Lz4Raw,
    }
}

/// What `str::parse::<u64>` makes of a text: the number it denotes, or
/// nothing where it denotes none that fits.
pub uninterp spec fn parsed_u64(text: Seq<char>) -> Option<u64>;

/// `text.parse::<u64>().ok()`.
#[verifier::external_body]
pub(crate) fn parse_u64(text: &str) -> (n: Option<u64>)
    ensures
        n == parsed_u64(text@),
{
    text.parse::<u64>().ok()
}

} // verus!
