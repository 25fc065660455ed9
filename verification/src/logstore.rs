//! What the commit pipeline hands to a log store, and where log entries live.

use crate::foreign::{
    bytes_content,
    path_from_parts,
    path_of_parts,
    path_text,
    uuid_text,
    uuid_to_string,
};
use crate::text::{append_padded_integer, padded_integer_text};
use object_store::path::Path;
use vstd::prelude::*;
use vstd::string::StringExecFns;

verus! {

/// The directory below the table root that holds the log.
pub const DELTA_LOG_FOLDER: &'static str = "_delta_log";

/// The payload of a commit on its way into the log.
///
/// A store with conditional puts takes the bytes themselves and puts them at
/// the final path. Any other store takes the path of a staged copy and
/// renames it into place.
#[derive(Debug)]
pub enum CommitOrBytes {
    /// The path of the staged copy.
    TmpCommit(Path),
    /// The bytes of the log entry.
    LogBytes(bytes::Bytes),
}

/// The mathematical content of a payload.
pub enum PayloadView {
    TmpCommit(Seq<char>),
    LogBytes(Seq<u8>),
}

impl View for CommitOrBytes {
    type V = PayloadView;

    open spec fn view(&self) -> PayloadView {
        match self {
            CommitOrBytes::TmpCommit(path) => PayloadView::TmpCommit(path_text(*path)),
            CommitOrBytes::LogBytes(bytes) => PayloadView::LogBytes(bytes_content(*bytes)),
        }
    }
}

impl Clone for CommitOrBytes {
    /// A payload is reused across attempts; the copy names the same staged
    /// path or holds the same bytes.
    fn clone(&self) -> (copy: Self)
        ensures
            copy@ == self@,
    {
        match self {
            CommitOrBytes::TmpCommit(path) => CommitOrBytes::TmpCommit(path.clone()),
            CommitOrBytes::LogBytes(bytes) => CommitOrBytes::LogBytes(bytes.clone()),
        }
    }
}

/// The names of the drivers that install a log entry with a conditional put.
pub open spec fn conditional_put_driver(name: Seq<char>) -> bool {
    name == "LakeFSLogStore"@ || name == "DefaultLogStore"@
}

/// Whether the named driver installs log entries with a conditional put, so
/// that nothing has to be staged.
pub fn supports_conditional_put(name: &String) -> (yes: bool)
    ensures
        yes == conditional_put_driver(name@),
{
    let lakefs = String::from_str("LakeFSLogStore");
    let default = String::from_str("DefaultLogStore");
    *name == lakefs || *name == default
}

/// The file name of the log entry for a version: the version in decimal,
/// zero-padded to twenty characters, and the extension.
pub open spec fn commit_file_name(version: int) -> Seq<char> {
    padded_integer_text(version, 20) + ".json"@
}

/// Where the log entry for a version lives.
pub open spec fn commit_uri(version: int) -> Seq<char> {
    path_of_parts(DELTA_LOG_FOLDER@, commit_file_name(version))
}

/// The path of the log entry for `version`, relative to the table root.
pub fn commit_uri_from_version(version: i64) -> (path: Path)
    ensures
        path_text(path) == commit_uri(version as int),
{
    let mut name = String::new();
    append_padded_integer(&mut name, version, 20);
    name.append(".json");
    assert(name@ =~= commit_file_name(version as int));
    path_from_parts(DELTA_LOG_FOLDER, name.as_str())
}

/// The file name of a staged commit with the given token.
pub open spec fn tmp_commit_file_name(token: u128) -> Seq<char> {
    "_commit_"@ + uuid_text(token) + ".json.tmp"@
}

/// Where a staged commit with the given token lives.
pub open spec fn tmp_commit_uri(token: u128) -> Seq<char> {
    path_of_parts(DELTA_LOG_FOLDER@, tmp_commit_file_name(token))
}

/// The path at which a commit is staged under the given token.
pub fn tmp_commit_path(token: u128) -> (path: Path)
    ensures
        path_text(path) == tmp_commit_uri(token),
{
    let mut name = String::from_str("_commit_");
    let text = uuid_to_string(token);
    name.append(text.as_str());
    name.append(".json.tmp");
    path_from_parts(DELTA_LOG_FOLDER, name.as_str())
}

} // verus!
