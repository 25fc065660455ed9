//! The router: it sends every batch to the writer of its partition and
//! creates that writer when the partition is seen for the first time.

use crate::actions::{copy_values, Add, PartitionValue};
use crate::errors::DeltaTableError;
use crate::foreign::{parse_path, parsed_path, path_text, same_path};
use crate::partition_writer::PartitionWriter;
use crate::schema::{hive_partition_path, hive_path, names_of, without_columns};
use crate::writer::{PartitionWriterConfig, WriterConfig};
use object_store::path::Path;
use parquet::file::properties::WriterProperties;
use vstd::prelude::*;

verus! {

/// The writer of one partition under the key of the partition.
#[derive(Debug)]
pub struct PartitionEntry {
    /// The hive-style path of the partition.
    pub key: Path,
    pub writer: PartitionWriter,
}

/// A writer that routes data to one writer per partition.
#[derive(Debug)]
pub struct DeltaWriter {
    /// How data is written.
    pub config: WriterConfig,
    /// The writers of the partitions seen so far, in the order they were
    /// first seen. No key occurs twice.
    pub partition_writers: Vec<PartitionEntry>,
}

/// The keys of the entries, in order.
pub open spec fn keys_of(entries: Seq<PartitionEntry>) -> Seq<Seq<char>> {
    Seq::new(entries.len(), |i: int| path_text(entries[i].key))
}

/// Whether no key occurs twice.
pub open spec fn distinct_keys(entries: Seq<PartitionEntry>) -> bool {
    forall|i: int, j: int|
        0 <= i < j < entries.len() ==> path_text((#[trigger] entries[i]).key) != path_text(
            (#[trigger] entries[j]).key,
        )
}

/// Whether `writer` is a writer fresh from the configuration `config` for
/// the partition with the given values and key.
pub open spec fn is_fresh_writer(
    writer: PartitionWriter,
    config: WriterConfig,
    values: Seq<PartitionValue>,
    key: Seq<char>,
) -> bool {
    &&& path_text(writer.config.prefix) == key
    &&& writer.config.partition_values@ == values
    &&& writer.config.file_schema@ == without_columns(
        config.table_schema@,
        names_of(config.partition_columns@),
    )
    &&& writer.config.writer_properties == config.writer_properties
    &&& writer.config.target_file_size == config.target_file_size
    &&& writer.config.write_batch_size == config.write_batch_size
    &&& writer.num_indexed_cols == config.num_indexed_cols
    &&& match (writer.stats_columns, config.stats_columns) {
        (Some(ours), Some(theirs)) => ours@ == theirs@,
        (None, None) => true,
        _ => false,
    }
    &&& writer.part_counter == 0
    &&& writer.files_written@.len() == 0
    &&& writer.batch_rows == 0
    &&& writer.batch_offset == 0
}

/// Where a batch goes.
#[derive(Debug)]
pub enum Routed {
    /// To the writer at this position: its partition was seen before.
    Existing(usize),
    /// To this writer, which is fresh and not in the list yet: its partition
    /// is new. It joins the list under `key` once its first batch is
    /// written.
    New { key: Path, writer: PartitionWriter },
}

fn copy_names(names: &Vec<String>) -> (copy: Vec<String>)
    ensures
        copy@ == names@,
{
    let mut copy: Vec<String> = Vec::new();
    let mut i: usize = 0;
    while i < names.len()
        invariant
            i <= names.len(),
            copy@ == names@.take(i as int),
        decreases names.len() - i,
    {
        copy.push(names[i].clone());
        proof {
            assert(names@.take(i + 1) =~= names@.take(i as int).push(names@[i as int]));
        }
        i += 1;
    }
    proof {
        assert(names@.take(i as int) =~= names@);
    }
    copy
}

impl DeltaWriter {
    /// A writer that has seen no partition yet.
    pub fn new(config: WriterConfig) -> (writer: Self)
        ensures
            writer.config == config,
            writer.partition_writers@.len() == 0,
    {
        DeltaWriter { config, partition_writers: Vec::new() }
    }

    /// Has the partition writers created from now on use the given
    /// properties.
    pub fn with_writer_properties(self, writer_properties: WriterProperties) -> (writer: Self)
        ensures
            writer.config == (WriterConfig { writer_properties, ..self.config }),
            writer.partition_writers == self.partition_writers,
    {
        let mut writer = self;
        writer.config.writer_properties = writer_properties;
        writer
    }

    /// The position of the writer for `key`, if the partition was seen.
    pub fn position_of(&self, key: &Path) -> (found: Option<usize>)
        ensures
            match found {
                Some(i) => i < self.partition_writers@.len() && path_text(
                    self.partition_writers@[i as int].key,
                ) == path_text(*key) && forall|j: int|
                    0 <= j < i ==> path_text((#[trigger] self.partition_writers@[j]).key)
                        != path_text(*key),
                None => forall|j: int|
                    0 <= j < self.partition_writers@.len() ==> path_text(
                        (#[trigger] self.partition_writers@[j]).key,
                    ) != path_text(*key),
            },
    {
        let mut i: usize = 0;
        while i < self.partition_writers.len()
            invariant
                i <= self.partition_writers.len(),
                forall|j: int|
                    0 <= j < i ==> path_text((#[trigger] self.partition_writers@[j]).key)
                        != path_text(*key),
            decreases self.partition_writers.len() - i,
        {
            if same_path(&self.partition_writers[i].key, key) {
                return Some(i);
            }
            i += 1;
        }
        None
    }

    /// Whether `res` is what routing a batch with the given partition values
    /// yields.
    ///
    /// The key of the partition is its hive-style path, parsed as a path.
    /// Where that is no valid path the batch is refused. A partition that was
    /// seen before has its writer in the list, at the first position with its
    /// key. A new partition gets a fresh writer, which is handed out and not
    /// put into the list.
    pub open spec fn routes(
        self,
        values: Seq<PartitionValue>,
        res: Result<Routed, DeltaTableError>,
    ) -> bool {
        match parsed_path(hive_path(values)) {
            None => res matches Err(DeltaTableError::InvalidPath { .. }),
            Some(key) => if keys_of(self.partition_writers@).contains(key) {
                &&& res matches Ok(Routed::Existing(index))
                &&& index < self.partition_writers@.len()
                &&& path_text(self.partition_writers@[index as int].key) == key
                &&& forall|j: int|
                    0 <= j < index ==> path_text((#[trigger] self.partition_writers@[j]).key)
                        != key
            } else {
                &&& res matches Ok(Routed::New { key: fresh_key, writer })
                &&& path_text(fresh_key) == key
                &&& is_fresh_writer(writer, self.config, values, key)
            },
        }
    }

    /// Finds the writer for the partition with the given values, or makes a
    /// fresh one if the partition is new. The list of writers stays as it
    /// is: a fresh writer is put into it by `register`, after its first
    /// batch is written.
    pub fn write_partition(&self, partition_values: &Vec<PartitionValue>) -> (res: Result<
        Routed,
        DeltaTableError,
    >)
        ensures
            self.routes(partition_values@, res),
    {
        let text = hive_partition_path(partition_values);
        let key = match parse_path(text.as_str()) {
            Ok(key) => key,
            Err(source) => {
                return Err(DeltaTableError::InvalidPath { source });
            },
        };
        match self.position_of(&key) {
            Some(index) => {
                proof {
                    assert(keys_of(self.partition_writers@)[index as int] == path_text(key));
                }
                Ok(Routed::Existing(index))
            },
            None => {
                proof {
                    self.lemma_unseen(path_text(key));
                }
                let stats_columns = match &self.config.stats_columns {
                    Some(columns) => Some(copy_names(columns)),
                    None => None,
                };
                let config = PartitionWriterConfig::with_prefix(
                    self.config.file_schema(),
                    copy_values(partition_values),
                    key.clone(),
                    Some(self.config.writer_properties.clone()),
                    Some(self.config.target_file_size),
                    Some(self.config.write_batch_size),
                );
                let writer = PartitionWriter::try_with_config(
                    config,
                    self.config.num_indexed_cols,
                    stats_columns,
                );
                Ok(Routed::New { key, writer })
            },
        }
    }

    /// A key that no entry has is none of the keys.
    pub proof fn lemma_unseen(self, key: Seq<char>)
        requires
            forall|j: int|
                0 <= j < self.partition_writers@.len() ==> path_text(
                    (#[trigger] self.partition_writers@[j]).key,
                ) != key,
        ensures
            !keys_of(self.partition_writers@).contains(key),
    {
        if keys_of(self.partition_writers@).contains(key) {
            let j = choose|j: int|
                0 <= j < keys_of(self.partition_writers@).len() && keys_of(
                    self.partition_writers@,
                )[j] == key;
            assert(path_text(self.partition_writers@[j].key) == key);
        }
    }

    /// Puts the writer of a new partition at the end of the list, under the
    /// key of the partition, and hands back its position. This is done once
    /// the first batch of the partition is written, so that a partition
    /// whose first write fails leaves no writer behind.
    pub fn register(&mut self, key: Path, writer: PartitionWriter) -> (index: usize)
        requires
            !keys_of(old(self).partition_writers@).contains(path_text(key)),
        ensures
            final(self).partition_writers@ == old(self).partition_writers@.push(
                PartitionEntry { key, writer },
            ),
            index == old(self).partition_writers@.len(),
            final(self).config == old(self).config,
            distinct_keys(old(self).partition_writers@) ==> distinct_keys(
                final(self).partition_writers@,
            ),
    {
        let ghost before = self.partition_writers@;
        let index = self.partition_writers.len();
        self.partition_writers.push(PartitionEntry { key, writer });
        proof {
            if distinct_keys(before) {
                assert forall|i: int, j: int|
                    0 <= i < j < self.partition_writers@.len() implies path_text(
                    (#[trigger] self.partition_writers@[i]).key,
                ) != path_text((#[trigger] self.partition_writers@[j]).key) by {
                    if j < before.len() {
                        assert(self.partition_writers@[i] == before[i]);
                        assert(self.partition_writers@[j] == before[j]);
                    } else {
                        assert(self.partition_writers@[i] == before[i]);
                        assert(keys_of(before)[i] == path_text(before[i].key));
                    }
                }
            }
        }
        index
    }

    /// Whether `res` is the next step in writing a batch that was divided
    /// into `parts`, of which the first `done` are written: nothing where
    /// all parts are written, else the route of the next part, or the reason
    /// it cannot be routed.
    pub open spec fn writes_next(
        self,
        parts: Seq<Vec<PartitionValue>>,
        done: usize,
        res: Result<Option<Routed>, DeltaTableError>,
    ) -> bool {
        if done >= parts.len() {
            res matches Ok(None)
        } else {
            match res {
                Ok(Some(routed)) => self.routes(
                    parts[done as int]@,
                    Ok::<Routed, DeltaTableError>(routed),
                ),
                Ok(None) => false,
                Err(error) => self.routes(
                    parts[done as int]@,
                    Err::<Routed, DeltaTableError>(error),
                ),
            }
        }
    }

    /// Takes the next step in writing a batch that was divided into `parts`,
    /// one per distinct set of partition values, of which the first `done`
    /// are written. The parts are written in their order, and the first part
    /// that cannot be routed ends the writing.
    pub fn write(&self, parts: &Vec<Vec<PartitionValue>>, done: usize) -> (res: Result<
        Option<Routed>,
        DeltaTableError,
    >)
        ensures
            self.writes_next(parts@, done, res),
    {
        if done >= parts.len() {
            return Ok(None);
        }
        match self.write_partition(&parts[done]) {
            Ok(routed) => Ok(Some(routed)),
            Err(error) => Err(error),
        }
    }

    /// Closes the router and hands back the writers of all partitions, in
    /// the order the partitions were first seen, to be flushed and closed.
    pub fn close(self) -> (writers: Vec<PartitionWriter>)
        ensures
            writers@.len() == self.partition_writers@.len(),
            forall|i: int|
                0 <= i < writers@.len() ==> #[trigger] writers@[i]
                    == self.partition_writers@[i].writer,
    {
        let ghost all = self.partition_writers@;
        let mut writers: Vec<PartitionWriter> = Vec::new();
        for entry in it: self.partition_writers.into_iter()
            invariant
                it.seq() == all,
                writers@.len() == it.index(),
                forall|i: int| 0 <= i < writers@.len() ==> #[trigger] writers@[i] == all[i].writer,
        {
            writers.push(entry.writer);
        }
        writers
    }
}

/// The records of all files, writer by writer.
pub open spec fn all_files(per_writer: Seq<Vec<Add>>) -> Seq<Add>
    decreases per_writer.len(),
{
    if per_writer.len() == 0 {
        Seq::empty()
    } else {
        all_files(per_writer.drop_last()) + per_writer.last()@
    }
}

/// Gathers the records of the files the partition writers wrote, in the order
/// of the writers.
pub fn collect_files(per_writer: Vec<Vec<Add>>) -> (files: Vec<Add>)
    ensures
        files@ == all_files(per_writer@),
{
    let ghost all = per_writer@;
    let mut files: Vec<Add> = Vec::new();
    proof {
        assert(all.take(0) =~= Seq::<Vec<Add>>::empty());
    }
    for written in it: per_writer.into_iter()
        invariant
            it.seq() == all,
            files@ == all_files(all.take(it.index() as int)),
    {
        let ghost before = files@;
        proof {
            let k = it.index() as int;
            assert(all.take(k + 1).drop_last() =~= all.take(k));
            assert(all.take(k + 1).last() == written);
        }
        let mut written = written;
        files.append(&mut written);
    }
    proof {
        assert(all.take(all.len() as int) =~= all);
    }
    files
}

} // verus!
