//! The planning half of the partitioned file writer.
//!
//! Encoding rows and moving bytes is the caller's work. This module decides
//! how a batch is cut into chunks, when the buffered data is worth a file,
//! how a file is cut into upload parts, what the file is called, and which
//! partition writer a batch belongs to.

use crate::actions::PartitionValue;
use crate::errors::DeltaTableError;
use crate::foreign::{
    bytes_content,
    default_compression,
    bytes_is_empty,
    bytes_len,
    bytes_split_to,
    parse_path,
    parse_u64,
    parsed_path,
    parsed_u64,
    path_child,
    path_text,
    path_with_child,
    snappy_writer_properties,
    uuid_text,
    uuid_to_string,
    writer_properties_created_by,
};
use crate::text::{append_decimal, decimal_at_least};
use object_store::path::Path;
use parquet::file::properties::WriterProperties;
use vstd::prelude::*;
use vstd::string::StringExecFns;

verus! {

/// The size from which buffered data is written out as a file.
pub const DEFAULT_TARGET_FILE_SIZE: usize = 104_857_600;

/// The number of rows handed to the encoder at a time.
pub const DEFAULT_WRITE_BATCH_SIZE: usize = 1024;

/// The least size of an upload part: 5 MiB.
pub const DEFAULT_UPLOAD_PART_SIZE: usize = 5_242_880;

/// The greatest size of an upload part: 5 GiB.
pub const MAX_UPLOAD_PART_SIZE: u64 = 5_368_709_120;

/// The number of parts of one file that are uploaded at the same time.
pub const MAX_CONCURRENT_UPLOADS: usize = 10;

/// A compression codec of the file format.
#[derive(Clone, Copy, Debug, PartialEq, Eq, Structural)]
pub enum Codec {
    Uncompressed,
    Snappy,
    Gzip,
    Lzo,
    Brotli,
    Lz4,
    Zstd,
    Lz4Raw,
}

/// The part size for a configured value: the default where nothing usable
/// is configured, else the configured size held between the least and the
/// greatest part size.
pub open spec fn part_size_for(configured: Option<u64>) -> u64 {
    match configured {
        None => DEFAULT_UPLOAD_PART_SIZE as u64,
        Some(size) => if size < DEFAULT_UPLOAD_PART_SIZE {
            DEFAULT_UPLOAD_PART_SIZE as u64
        } else if size > MAX_UPLOAD_PART_SIZE {
            MAX_UPLOAD_PART_SIZE
        } else {
            size
        },
    }
}

/// The size as a `usize`, or the greatest `usize` where it does not fit.
pub open spec fn fitted(size: u64) -> usize {
    if size > usize::MAX {
        usize::MAX
    } else {
        size as usize
    }
}

/// Holds a configured part size within the limits of the object stores.
pub fn clamp_upload_part_size(configured: Option<u64>) -> (size: usize)
    ensures
        size == fitted(part_size_for(configured)),
        DEFAULT_UPLOAD_PART_SIZE <= size <= MAX_UPLOAD_PART_SIZE,
{
    let size: u64 = match configured {
        None => DEFAULT_UPLOAD_PART_SIZE as u64,
        Some(size) => if size < DEFAULT_UPLOAD_PART_SIZE as u64 {
            DEFAULT_UPLOAD_PART_SIZE as u64
        } else if size > MAX_UPLOAD_PART_SIZE {
            MAX_UPLOAD_PART_SIZE
        } else {
            size
        },
    };
    if size > usize::MAX as u64 {
        usize::MAX
    } else {
        size as usize
    }
}

/// The size of the parts a file is uploaded in, given the text configured
/// for it, if any. Text that is no number counts as not configured.
pub fn upload_part_size(configured: Option<&str>) -> (size: usize)
    ensures
        size == fitted(
            part_size_for(
                match configured {
                    Some(text) => parsed_u64(text@),
                    None => None,
                },
            ),
        ),
        DEFAULT_UPLOAD_PART_SIZE <= size <= MAX_UPLOAD_PART_SIZE,
{
    let parsed = match configured {
        Some(text) => parse_u64(text),
        None => None,
    };
    clamp_upload_part_size(parsed)
}

/// Whether an upload has to wait for one in flight to finish before the
/// next part is started.
pub fn must_wait_for_upload(in_flight: usize) -> (wait: bool)
    ensures
        wait == (in_flight >= MAX_CONCURRENT_UPLOADS),
{
    in_flight >= MAX_CONCURRENT_UPLOADS
}

/// The parts a file is uploaded in: as many full parts as fit before the
/// last `part_size` bytes, then what is left, which is never empty.
pub open spec fn upload_parts(content: Seq<u8>, part_size: nat) -> Seq<Seq<u8>>
    decreases content.len(),
{
    if part_size > 0 && content.len() > part_size {
        seq![content.take(part_size as int)] + upload_parts(
            content.skip(part_size as int),
            part_size,
        )
    } else if content.len() > 0 {
        seq![content]
    } else {
        Seq::empty()
    }
}

/// The parts laid end to end.
pub open spec fn concat_parts(parts: Seq<Seq<u8>>) -> Seq<u8>
    decreases parts.len(),
{
    if parts.len() == 0 {
        Seq::empty()
    } else {
        parts[0] + concat_parts(parts.skip(1))
    }
}

/// The upload parts of a file, laid end to end, are the file; no part is
/// empty and none is larger than the part size.
pub proof fn lemma_upload_parts_cover(content: Seq<u8>, part_size: nat)
    requires
        part_size > 0,
    ensures
        concat_parts(upload_parts(content, part_size)) == content,
        forall|i: int|
            0 <= i < upload_parts(content, part_size).len() ==> 0 < (#[trigger] upload_parts(
                content,
                part_size,
            )[i]).len() <= part_size,
    decreases content.len(),
{
    let parts = upload_parts(content, part_size);
    if content.len() > part_size {
        let rest = content.skip(part_size as int);
        lemma_upload_parts_cover(rest, part_size);
        assert(parts[0] == content.take(part_size as int));
        assert(parts.skip(1) =~= upload_parts(rest, part_size));
        assert(concat_parts(parts) == parts[0] + concat_parts(parts.skip(1)));
        assert(content.take(part_size as int) + rest =~= content);
        assert forall|i: int| 0 <= i < parts.len() implies 0 < (#[trigger] parts[i]).len()
            <= part_size by {
            if i > 0 {
                assert(parts[i] == upload_parts(rest, part_size)[i - 1]);
            }
        }
    } else if content.len() > 0 {
        assert(parts[0] == content);
        assert(parts.skip(1) =~= Seq::<Seq<u8>>::empty());
        assert(concat_parts(parts) == parts[0] + concat_parts(parts.skip(1)));
        assert(content + Seq::<u8>::empty() =~= content);
    } else {
        assert(content =~= Seq::<u8>::empty());
    }
}

/// What each buffer holds.
pub open spec fn contents_of(parts: Seq<bytes::Bytes>) -> Seq<Seq<u8>> {
    Seq::new(parts.len(), |i: int| bytes_content(parts[i]))
}

/// Cuts a file into the parts it is uploaded in.
pub fn split_upload_parts(buffer: bytes::Bytes, part_size: usize) -> (parts: Vec<bytes::Bytes>)
    requires
        part_size > 0,
    ensures
        contents_of(parts@) == upload_parts(bytes_content(buffer), part_size as nat),
{
    let ghost whole = bytes_content(buffer);
    let mut buffer = buffer;
    let mut parts: Vec<bytes::Bytes> = Vec::new();
    proof {
        assert(contents_of(parts@) + upload_parts(whole, part_size as nat) =~= upload_parts(
            whole,
            part_size as nat,
        ));
    }
    while bytes_len(&buffer) > part_size
        invariant
            part_size > 0,
            contents_of(parts@) + upload_parts(bytes_content(buffer), part_size as nat)
                == upload_parts(whole, part_size as nat),
        decreases bytes_content(buffer).len(),
    {
        let ghost done = contents_of(parts@);
        let ghost left = bytes_content(buffer);
        let part = bytes_split_to(&mut buffer, part_size);
        parts.push(part);
        proof {
            assert(left.take(part_size as int) =~= left.subrange(0, part_size as int));
            assert(left.skip(part_size as int) =~= left.subrange(
                part_size as int,
                left.len() as int,
            ));
            assert(contents_of(parts@) =~= done.push(left.take(part_size as int)));
            assert(done.push(left.take(part_size as int)) + upload_parts(
                left.skip(part_size as int),
                part_size as nat,
            ) =~= done + upload_parts(left, part_size as nat));
        }
    }
    if !bytes_is_empty(&buffer) {
        let ghost done = contents_of(parts@);
        let ghost left = bytes_content(buffer);
        parts.push(buffer);
        proof {
            assert(contents_of(parts@) =~= done.push(left));
            assert(done.push(left) =~= done + upload_parts(left, part_size as nat));
        }
    } else {
        proof {
            assert(contents_of(parts@) + Seq::<Seq<u8>>::empty() =~= contents_of(parts@));
        }
    }
    parts
}

/// The ending a codec gives to the name of a data file.
pub open spec fn codec_suffix(codec: Codec) -> Seq<char> {
    match codec {
        Codec::Uncompressed => ""@,
        Codec::Snappy => ".snappy"@,
        Codec::Gzip => ".gz"@,
        Codec::Lzo => ".lzo"@,
        Codec::Brotli => ".br"@,
        Codec::Lz4 => ".lz4"@,
        Codec::Zstd => ".zstd"@,
        Codec::Lz4Raw => ".lz4raw"@,
    }
}

/// The name of the data file a writer writes as its `part`-th: the part
/// number in at least five digits, the writer's id, and the codec's ending.
pub open spec fn data_file_name(part: usize, writer_id: u128, codec: Codec) -> Seq<char> {
    "part-"@ + decimal_at_least(part as nat, 5) + "-"@ + uuid_text(writer_id) + "-c000"@
        + codec_suffix(codec) + ".parquet"@
}

/// Where a writer below `prefix` puts its `part`-th data file.
pub open spec fn data_file_path(
    prefix: Seq<char>,
    part: usize,
    writer_id: u128,
    codec: Codec,
) -> Seq<char> {
    path_with_child(prefix, data_file_name(part, writer_id, codec))
}

fn codec_ending(codec: Codec) -> (ending: &'static str)
    ensures
        ending@ == codec_suffix(codec),
{
    match codec {
        Codec::Uncompressed => "",
        Codec::Snappy => ".snappy",
        Codec::Gzip => ".gz",
        Codec::Lzo => ".lzo",
        Codec::Brotli => ".br",
        Codec::Lz4 => ".lz4",
        Codec::Zstd => ".zstd",
        Codec::Lz4Raw => ".lz4raw",
    }
}

/// Builds the path of a data file.
pub fn data_path(prefix: &Path, part: usize, writer_id: u128, codec: Codec) -> (path: Path)
    ensures
        path_text(path) == data_file_path(path_text(*prefix), part, writer_id, codec),
{
    let mut name = String::from_str("part-");
    append_decimal(&mut name, part as u64, 5);
    name.append("-");
    let id = uuid_to_string(writer_id);
    name.append(id.as_str());
    name.append("-c000");
    name.append(codec_ending(codec));
    name.append(".parquet");
    assert(name@ =~= data_file_name(part, writer_id, codec));
    path_child(prefix, name.as_str())
}

/// How data is written into a table.
#[derive(Debug)]
pub struct WriterConfig {
    /// The schema of the table.
    pub table_schema: crate::schema::Schema,
    /// The columns the table is partitioned by.
    pub partition_columns: Vec<String>,
    /// The properties handed to the encoder.
    pub writer_properties: WriterProperties,
    /// The size from which buffered data is written out as a file.
    pub target_file_size: usize,
    /// The number of rows handed to the encoder at a time. Together with the
    /// encoder's own settings it decides how closely file sizes can be
    /// steered.
    pub write_batch_size: usize,
    /// The number of leading columns statistics are collected for.
    pub num_indexed_cols: i32,
    /// The columns statistics are collected for; takes precedence over
    /// `num_indexed_cols`.
    pub stats_columns: Option<Vec<String>>,
}

/// The value, or the default where there is none.
pub open spec fn or_default(value: Option<usize>, default: usize) -> usize {
    match value {
        Some(v) => v,
        None => default,
    }
}

impl WriterConfig {
    /// A configuration with defaults for what is not given: snappy
    /// compressed files of about 100 MiB, encoded 1024 rows at a time.
    pub fn new(
        table_schema: crate::schema::Schema,
        partition_columns: Vec<String>,
        writer_properties: Option<WriterProperties>,
        target_file_size: Option<usize>,
        write_batch_size: Option<usize>,
        num_indexed_cols: i32,
        stats_columns: Option<Vec<String>>,
    ) -> (config: Self)
        ensures
            config.table_schema == table_schema,
            config.partition_columns == partition_columns,
            match writer_properties {
                Some(given) => config.writer_properties == given,
                None => default_compression(config.writer_properties) == Codec::Snappy,
            },
            config.target_file_size == or_default(target_file_size, DEFAULT_TARGET_FILE_SIZE),
            config.write_batch_size == or_default(write_batch_size, DEFAULT_WRITE_BATCH_SIZE),
            config.num_indexed_cols == num_indexed_cols,
            config.stats_columns == stats_columns,
    {
        let writer_properties = match writer_properties {
            Some(given) => given,
            None => snappy_writer_properties(),
        };
        let target_file_size = match target_file_size {
            Some(size) => size,
            None => DEFAULT_TARGET_FILE_SIZE,
        };
        let write_batch_size = match write_batch_size {
            Some(size) => size,
            None => DEFAULT_WRITE_BATCH_SIZE,
        };
        WriterConfig {
            table_schema,
            partition_columns,
            writer_properties,
            target_file_size,
            write_batch_size,
            num_indexed_cols,
            stats_columns,
        }
    }

    /// The schema of the files written: the table schema without the
    /// partition columns.
    pub fn file_schema(&self) -> (schema: crate::schema::Schema)
        ensures
            schema@ == crate::schema::without_columns(
                self.table_schema@,
                crate::schema::names_of(self.partition_columns@),
            ),
    {
        self.table_schema.without(&self.partition_columns)
    }
}

/// How the files of one partition are written.
#[derive(Debug)]
pub struct PartitionWriterConfig {
    /// The schema of the files written.
    pub file_schema: crate::schema::Schema,
    /// The path all files of the partition lie below.
    pub prefix: Path,
    /// The values of the partition columns.
    pub partition_values: Vec<PartitionValue>,
    /// The properties handed to the encoder.
    pub writer_properties: WriterProperties,
    /// The size from which buffered data is written out as a file.
    pub target_file_size: usize,
    /// The number of rows handed to the encoder at a time.
    pub write_batch_size: usize,
}

impl PartitionWriterConfig {
    /// A configuration below the given prefix, with defaults for what is not
    /// given.
    pub fn with_prefix(
        file_schema: crate::schema::Schema,
        partition_values: Vec<PartitionValue>,
        prefix: Path,
        writer_properties: Option<WriterProperties>,
        target_file_size: Option<usize>,
        write_batch_size: Option<usize>,
    ) -> (config: Self)
        ensures
            config.file_schema == file_schema,
            config.prefix == prefix,
            config.partition_values == partition_values,
            match writer_properties {
                Some(given) => config.writer_properties == given,
                None => default_compression(config.writer_properties) == Codec::Uncompressed,
            },
            config.target_file_size == or_default(target_file_size, DEFAULT_TARGET_FILE_SIZE),
            config.write_batch_size == or_default(write_batch_size, DEFAULT_WRITE_BATCH_SIZE),
    {
        let writer_properties = match writer_properties {
            Some(given) => given,
            None => {
                let created_by = String::from_str("delta-rs version ").concat(
                    crate::commit_data::crate_version(),
                );
                writer_properties_created_by(created_by)
            },
        };
        let target_file_size = match target_file_size {
            Some(size) => size,
            None => DEFAULT_TARGET_FILE_SIZE,
        };
        let write_batch_size = match write_batch_size {
            Some(size) => size,
            None => DEFAULT_WRITE_BATCH_SIZE,
        };
        PartitionWriterConfig {
            file_schema,
            prefix,
            partition_values,
            writer_properties,
            target_file_size,
            write_batch_size,
        }
    }

    /// The text the prefix is parsed from: the given one, else the
    /// hive-style path of the partition values.
    pub open spec fn prefix_text(
        partition_values: Seq<PartitionValue>,
        path_prefix: Option<&str>,
    ) -> Seq<char> {
        match path_prefix {
            Some(text) => text@,
            None => crate::schema::hive_path(partition_values),
        }
    }

    /// A configuration whose prefix is the given path or, without one, the
    /// hive-style path of the partition values. Fails where that text is no
    /// valid path.
    pub fn try_new(
        file_schema: crate::schema::Schema,
        partition_values: Vec<PartitionValue>,
        path_prefix: Option<&str>,
        writer_properties: Option<WriterProperties>,
        target_file_size: Option<usize>,
        write_batch_size: Option<usize>,
    ) -> (res: Result<Self, DeltaTableError>)
        ensures
            match parsed_path(Self::prefix_text(partition_values@, path_prefix)) {
                None => res matches Err(DeltaTableError::InvalidPath { .. }),
                Some(prefix) => {
                    &&& res matches Ok(config)
                    &&& path_text(config.prefix) == prefix
                    &&& config.file_schema == file_schema
                    &&& config.partition_values == partition_values
                    &&& match writer_properties {
                        Some(given) => config.writer_properties == given,
                        None => default_compression(config.writer_properties)
                            == Codec::Uncompressed,
                    }
                    &&& config.target_file_size == or_default(
                        target_file_size,
                        DEFAULT_TARGET_FILE_SIZE,
                    )
                    &&& config.write_batch_size == or_default(
                        write_batch_size,
                        DEFAULT_WRITE_BATCH_SIZE,
                    )
                },
            },
    {
        let parsed = match path_prefix {
            Some(text) => parse_path(text),
            None => {
                let text = crate::schema::hive_partition_path(&partition_values);
                parse_path(text.as_str())
            },
        };
        match parsed {
            Ok(prefix) => Ok(
                PartitionWriterConfig::with_prefix(
                    file_schema,
                    partition_values,
                    prefix,
                    writer_properties,
                    target_file_size,
                    write_batch_size,
                ),
            ),
            Err(source) => Err(DeltaTableError::InvalidPath { source }),
        }
    }
}

} // verus!
