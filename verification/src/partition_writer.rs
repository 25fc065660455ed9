//! The writer of one partition: it buffers rows up to about the target file
//! size, then has the buffered data written out as a file.

use crate::actions::{copy_values, Add, PartitionValue};
use crate::errors::WriteError;
use crate::foreign::{
    bytes_content,
    bytes_len,
    default_codec,
    default_compression,
    fresh_uuid,
    path_text,
    path_to_string,
};
use crate::schema::Schema;
use crate::writer::{
    contents_of,
    data_file_path,
    data_path,
    split_upload_parts,
    upload_parts,
    Codec,
    PartitionWriterConfig,
};
use object_store::path::Path;
use vstd::prelude::*;

verus! {

/// What the caller is asked to do with the batch it is writing.
#[derive(Clone, Copy, Debug, PartialEq, Eq, Structural)]
pub enum WriterRequest {
    /// Hand `length` rows of the batch, from row `offset` on, to the encoder
    /// and report the size of what is buffered.
    WriteBatch { offset: usize, length: usize },
    /// Write the buffered data out as a file and report back.
    Flush,
}

/// How far writing a batch has come.
#[derive(Clone, Copy, Debug, PartialEq, Eq, Structural)]
pub enum WriteProgress {
    /// Writing goes on once the request is answered.
    Ask(WriterRequest),
    /// The whole batch is with the encoder.
    Done,
}

/// A file that is ready to be uploaded.
#[derive(Debug)]
pub struct Upload {
    /// Where the file goes.
    pub path: Path,
    /// The size of the file in bytes.
    pub file_size: i64,
    /// The file, cut into the parts it is uploaded in.
    pub parts: Vec<bytes::Bytes>,
}

/// The writer of one partition.
#[derive(Debug)]
pub struct PartitionWriter {
    pub writer_id: u128,
    pub config: PartitionWriterConfig,
    /// The number of files written so far.
    pub part_counter: usize,
    /// The records of the files written so far.
    pub files_written: Vec<Add>,
    /// The number of leading columns statistics are collected for.
    pub num_indexed_cols: i32,
    /// The columns statistics are collected for; takes precedence over
    /// `num_indexed_cols`.
    pub stats_columns: Option<Vec<String>>,
    /// The number of rows of the batch being written.
    pub batch_rows: usize,
    /// The number of those rows that are with the encoder.
    pub batch_offset: usize,
}

impl PartitionWriter {
    /// A writer that has written nothing yet, under the given id.
    pub fn with_writer_id(
        config: PartitionWriterConfig,
        num_indexed_cols: i32,
        stats_columns: Option<Vec<String>>,
        writer_id: u128,
    ) -> (writer: Self)
        ensures
            writer == (PartitionWriter {
                writer_id,
                config,
                part_counter: 0,
                files_written: writer.files_written,
                num_indexed_cols,
                stats_columns,
                batch_rows: 0,
                batch_offset: 0,
            }),
            writer.files_written@.len() == 0,
    {
        PartitionWriter {
            writer_id,
            config,
            part_counter: 0,
            files_written: Vec::new(),
            num_indexed_cols,
            stats_columns,
            batch_rows: 0,
            batch_offset: 0,
        }
    }

    /// A writer that has written nothing yet, under a fresh id.
    pub fn try_with_config(
        config: PartitionWriterConfig,
        num_indexed_cols: i32,
        stats_columns: Option<Vec<String>>,
    ) -> (writer: Self)
        ensures
            writer == (PartitionWriter {
                writer_id: writer.writer_id,
                config,
                part_counter: 0,
                files_written: writer.files_written,
                num_indexed_cols,
                stats_columns,
                batch_rows: 0,
                batch_offset: 0,
            }),
            writer.files_written@.len() == 0,
    {
        PartitionWriter::with_writer_id(config, num_indexed_cols, stats_columns, fresh_uuid())
    }

    /// The chunk that goes to the encoder next: up to a write batch of the
    /// rows that are not with it yet.
    pub open spec fn next_chunk(self) -> WriteProgress {
        if self.batch_offset < self.batch_rows {
            let left = self.batch_rows - self.batch_offset;
            WriteProgress::Ask(
                WriterRequest::WriteBatch {
                    offset: self.batch_offset,
                    length: if left < self.config.write_batch_size {
                        left as usize
                    } else {
                        self.config.write_batch_size
                    },
                },
            )
        } else {
            WriteProgress::Done
        }
    }

    fn chunk(&self) -> (progress: WriteProgress)
        ensures
            progress == self.next_chunk(),
    {
        if self.batch_offset < self.batch_rows {
            let left = self.batch_rows - self.batch_offset;
            let length = if left < self.config.write_batch_size {
                left
            } else {
                self.config.write_batch_size
            };
            WriteProgress::Ask(WriterRequest::WriteBatch { offset: self.batch_offset, length })
        } else {
            WriteProgress::Done
        }
    }

    /// Whether `res` is what starting a batch of `num_rows` rows with the
    /// given schema on the writer `before` yields, leaving the writer as
    /// `after`.
    ///
    /// A batch whose schema is not the file schema is refused with both
    /// schemas described, and the writer stays as it was: nothing is encoded
    /// or uploaded. Any other batch is taken on, first chunk first.
    pub open spec fn starts_batch(
        before: PartitionWriter,
        after: PartitionWriter,
        schema: Schema,
        num_rows: usize,
        res: Result<WriteProgress, WriteError>,
    ) -> bool {
        if schema@ != before.config.file_schema@ {
            &&& after == before
            &&& res matches Err(WriteError::SchemaMismatch { schema: got, expected_schema })
            &&& got@ == Schema::description(schema@)
            &&& expected_schema@ == Schema::description(before.config.file_schema@)
        } else {
            &&& after == (PartitionWriter { batch_rows: num_rows, batch_offset: 0, ..before })
            &&& res == Ok::<WriteProgress, WriteError>(after.next_chunk())
        }
    }

    /// Starts writing a batch of `num_rows` rows with the given schema.
    pub fn write(&mut self, schema: &Schema, num_rows: usize) -> (res: Result<
        WriteProgress,
        WriteError,
    >)
        requires
            schema@ == old(self).config.file_schema@ ==> old(self).config.write_batch_size > 0,
        ensures
            Self::starts_batch(*old(self), *final(self), *schema, num_rows, res),
    {
        if !schema.same_as(&self.config.file_schema) {
            return Err(
                WriteError::SchemaMismatch {
                    schema: schema.describe(),
                    expected_schema: self.config.file_schema.describe(),
                },
            );
        }
        self.batch_rows = num_rows;
        self.batch_offset = 0;
        Ok(self.chunk())
    }

    /// The size the data in progress is estimated at: what is buffered plus
    /// what the encoder holds, at most the greatest size there is.
    pub open spec fn estimated_size(buffered: usize, in_progress: usize) -> usize {
        if buffered + in_progress > usize::MAX {
            usize::MAX
        } else {
            (buffered + in_progress) as usize
        }
    }

    /// Whether the data in progress is worth a file: its estimated size has
    /// reached the target file size.
    pub open spec fn worth_a_file(self, buffered: usize, in_progress: usize) -> bool {
        Self::estimated_size(buffered, in_progress) >= self.config.target_file_size
    }

    /// Takes note that the chunk last asked for is with the encoder, which
    /// now buffers `buffered` bytes and holds `in_progress` more. The data
    /// is flushed once it is worth a file; otherwise the next chunk follows.
    pub fn batch_written(&mut self, buffered: usize, in_progress: usize) -> (progress:
        WriteProgress)
        requires
            old(self).next_chunk() is Ask,
            old(self).config.write_batch_size > 0,
        ensures
            old(self).next_chunk() matches WriteProgress::Ask(
                WriterRequest::WriteBatch { offset, length },
            ) && *final(self) == (PartitionWriter {
                batch_offset: (offset + length) as usize,
                ..*old(self)
            }),
            *final(self) == old(self).after_chunk(),
            progress == if old(self).worth_a_file(buffered, in_progress) {
                WriteProgress::Ask(WriterRequest::Flush)
            } else {
                final(self).next_chunk()
            },
    {
        let left = self.batch_rows - self.batch_offset;
        let length = if left < self.config.write_batch_size {
            left
        } else {
            self.config.write_batch_size
        };
        self.batch_offset = self.batch_offset + length;
        let estimated = match buffered.checked_add(in_progress) {
            Some(sum) => sum,
            None => usize::MAX,
        };
        if estimated >= self.config.target_file_size {
            WriteProgress::Ask(WriterRequest::Flush)
        } else {
            self.chunk()
        }
    }

    /// Goes on with the batch after a flush.
    pub fn flushed(&self) -> (progress: WriteProgress)
        ensures
            progress == self.next_chunk(),
    {
        self.chunk()
    }

    /// The path of the next data file for a given codec. Counts the file.
    pub fn next_data_path_for(&mut self, codec: Codec) -> (path: Path)
        requires
            old(self).part_counter < usize::MAX,
        ensures
            *final(self) == (PartitionWriter {
                part_counter: (old(self).part_counter + 1) as usize,
                ..*old(self)
            }),
            path_text(path) == data_file_path(
                path_text(old(self).config.prefix),
                final(self).part_counter,
                old(self).writer_id,
                codec,
            ),
    {
        self.part_counter = self.part_counter + 1;
        data_path(&self.config.prefix, self.part_counter, self.writer_id, codec)
    }

    /// The path of the next data file, named after the default codec of the
    /// writer properties. Counts the file.
    pub fn next_data_path(&mut self) -> (path: Path)
        requires
            old(self).part_counter < usize::MAX,
        ensures
            *final(self) == (PartitionWriter {
                part_counter: (old(self).part_counter + 1) as usize,
                ..*old(self)
            }),
            path_text(path) == data_file_path(
                path_text(old(self).config.prefix),
                final(self).part_counter,
                old(self).writer_id,
                default_compression(old(self).config.writer_properties),
            ),
    {
        let codec = default_codec(&self.config.writer_properties);
        self.next_data_path_for(codec)
    }

    /// Whether `upload` is the file that `content` makes at `path`, cut into
    /// parts of `part_size` bytes.
    pub open spec fn is_upload_of(
        upload: Upload,
        path: Seq<char>,
        content: Seq<u8>,
        part_size: usize,
    ) -> bool {
        &&& path_text(upload.path) == path
        &&& upload.file_size == content.len() as i64
        &&& contents_of(upload.parts@) == upload_parts(content, part_size as nat)
    }

    /// Decides what becomes of the data an encoder was closed with, for a
    /// given codec.
    ///
    /// Data without rows, or without a buffer, is dropped: no file is
    /// counted, named or uploaded. Any other data becomes the next file of
    /// the writer.
    pub fn flush_with_codec(
        &mut self,
        num_rows: i64,
        buffer: Option<bytes::Bytes>,
        part_size: usize,
        codec: Codec,
    ) -> (upload: Option<Upload>)
        requires
            num_rows != 0 && buffer is Some ==> part_size > 0 && old(self).part_counter
                < usize::MAX,
        ensures
            match buffer {
                Some(data) if num_rows != 0 => {
                    &&& *final(self) == (PartitionWriter {
                        part_counter: (old(self).part_counter + 1) as usize,
                        ..*old(self)
                    })
                    &&& upload matches Some(file)
                    &&& Self::is_upload_of(
                        file,
                        data_file_path(
                            path_text(old(self).config.prefix),
                            final(self).part_counter,
                            old(self).writer_id,
                            codec,
                        ),
                        bytes_content(data),
                        part_size,
                    )
                },
                _ => upload is None && *final(self) == *old(self),
            },
    {
        if num_rows == 0 {
            return None;
        }
        let data = match buffer {
            Some(data) => data,
            None => {
                return None;
            },
        };
        let path = self.next_data_path_for(codec);
        let file_size = bytes_len(&data) as i64;
        let parts = split_upload_parts(data, part_size);
        Some(Upload { path, file_size, parts })
    }

    /// Decides what becomes of the data an encoder was closed with: nothing
    /// where there are no rows or no buffer, else the next file of the
    /// writer, named after the default codec of the writer properties.
    pub fn flush_arrow_writer(
        &mut self,
        num_rows: i64,
        buffer: Option<bytes::Bytes>,
        part_size: usize,
    ) -> (upload: Option<Upload>)
        requires
            num_rows != 0 && buffer is Some ==> part_size > 0 && old(self).part_counter
                < usize::MAX,
        ensures
            match buffer {
                Some(data) if num_rows != 0 => {
                    &&& *final(self) == (PartitionWriter {
                        part_counter: (old(self).part_counter + 1) as usize,
                        ..*old(self)
                    })
                    &&& upload matches Some(file)
                    &&& Self::is_upload_of(
                        file,
                        data_file_path(
                            path_text(old(self).config.prefix),
                            final(self).part_counter,
                            old(self).writer_id,
                            default_compression(old(self).config.writer_properties),
                        ),
                        bytes_content(data),
                        part_size,
                    )
                },
                _ => upload is None && *final(self) == *old(self),
            },
    {
        let codec = default_codec(&self.config.writer_properties);
        self.flush_with_codec(num_rows, buffer, part_size, codec)
    }

    /// Whether `add` is the record of the file `upload` in a partition with
    /// the given values: it names the path and the size of the file and the
    /// values of the partition, and it changes data.
    pub open spec fn is_record_of(add: Add, upload: Upload, values: Seq<PartitionValue>) -> bool {
        &&& add.path@ == path_text(upload.path)
        &&& add.size == upload.file_size
        &&& add.partition_values@ == values
        &&& add.data_change
        &&& !add.deletion_vector
    }

    /// The record of a file of this writer.
    pub fn file_record(&self, upload: &Upload) -> (add: Add)
        ensures
            Self::is_record_of(add, *upload, self.config.partition_values@),
    {
        Add {
            path: path_to_string(&upload.path),
            partition_values: copy_values(&self.config.partition_values),
            size: upload.file_size,
            data_change: true,
            deletion_vector: false,
        }
    }

    /// Records a file of this writer once it is uploaded.
    pub fn record_upload(&mut self, upload: &Upload)
        ensures
            final(self).files_written@.len() == old(self).files_written@.len() + 1,
            final(self).files_written@.drop_last() == old(self).files_written@,
            Self::is_record_of(
                final(self).files_written@.last(),
                *upload,
                old(self).config.partition_values@,
            ),
            *final(self) == (PartitionWriter {
                files_written: final(self).files_written,
                ..*old(self)
            }),
    {
        let ghost before = self.files_written@;
        let add = self.file_record(upload);
        self.files_written.push(add);
        proof {
            assert(self.files_written@.drop_last() =~= before);
        }
    }

    /// Whether `files` are the records a writer hands back on closing: those
    /// of the files written so far and, after them, that of the file the
    /// last flush made, if it made one.
    pub open spec fn closes_with(self, last_upload: Option<Upload>, files: Seq<Add>) -> bool {
        match last_upload {
            None => files == self.files_written@,
            Some(upload) => {
                &&& files.len() == self.files_written@.len() + 1
                &&& files.drop_last() == self.files_written@
                &&& Self::is_record_of(files.last(), upload, self.config.partition_values@)
            },
        }
    }

    /// Closes the writer and hands back the records of all files written.
    ///
    /// What the encoder still holds is flushed before; `last_upload` is the
    /// file that flush made and that was uploaded, if it made one.
    pub fn close(self, last_upload: Option<Upload>) -> (files: Vec<Add>)
        ensures
            self.closes_with(last_upload, files@),
    {
        let mut writer = self;
        if let Some(upload) = &last_upload {
            writer.record_upload(upload);
        }
        writer.files_written
    }
}

/// The chunks a batch of `rows` rows is handed to the encoder in from row
/// `offset` on, each as its first row and its length: as many full write
/// batches as fit, then what is left.
pub open spec fn chunks_from(offset: nat, rows: nat, write_batch_size: nat) -> Seq<(nat, nat)>
    decreases rows - offset,
{
    if write_batch_size == 0 || offset >= rows {
        Seq::empty()
    } else {
        let left = (rows - offset) as nat;
        let length = if left < write_batch_size {
            left
        } else {
            write_batch_size
        };
        seq![(offset, length)] + chunks_from(offset + length, rows, write_batch_size)
    }
}

/// The number of rows in the given chunks.
pub open spec fn rows_in(chunks: Seq<(nat, nat)>) -> nat
    decreases chunks.len(),
{
    if chunks.len() == 0 {
        0
    } else {
        chunks[0].1 + rows_in(chunks.skip(1))
    }
}

/// The chunks of a batch tile it: they hold all rows from `offset` on, each
/// starts where the one before ended, none is empty or larger than a write
/// batch, and all but the last are full write batches.
pub proof fn lemma_chunks_tile(offset: nat, rows: nat, write_batch_size: nat)
    requires
        write_batch_size > 0,
        offset <= rows,
    ensures
        rows_in(chunks_from(offset, rows, write_batch_size)) == rows - offset,
        forall|i: int|
            0 <= i < chunks_from(offset, rows, write_batch_size).len() ==> {
                let chunk = #[trigger] chunks_from(offset, rows, write_batch_size)[i];
                &&& chunk.0 == offset + i * write_batch_size
                &&& 0 < chunk.1 <= write_batch_size
                &&& chunk.0 + chunk.1 <= rows
                &&& i + 1 < chunks_from(offset, rows, write_batch_size).len() ==> chunk.1
                    == write_batch_size
            },
    decreases rows - offset,
{
    let chunks = chunks_from(offset, rows, write_batch_size);
    if offset < rows {
        let left = (rows - offset) as nat;
        let length = if left < write_batch_size {
            left
        } else {
            write_batch_size
        };
        let rest = chunks_from(offset + length, rows, write_batch_size);
        lemma_chunks_tile(offset + length, rows, write_batch_size);
        assert(chunks[0] == (offset, length));
        assert(chunks.skip(1) =~= rest);
        assert forall|i: int| 0 <= i < chunks.len() implies {
            let chunk = #[trigger] chunks[i];
            &&& chunk.0 == offset + i * write_batch_size
            &&& 0 < chunk.1 <= write_batch_size
            &&& chunk.0 + chunk.1 <= rows
            &&& i + 1 < chunks.len() ==> chunk.1 == write_batch_size
        } by {
            if i > 0 {
                assert(chunks[i] == rest[i - 1]);
                // a chunk follows only a full write batch
                assert(rest.len() > 0);
                assert(length == write_batch_size);
                assert(offset + length + (i - 1) * write_batch_size == offset + i
                    * write_batch_size) by (nonlinear_arith)
                    requires
                        length == write_batch_size,
                ;
            } else if chunks.len() > 1 {
                assert(rest.len() > 0);
            }
        }
    }
}

impl PartitionWriter {
    /// The chunk the writer asks for next is the first of the chunks that
    /// are left of its batch; it is done when none is left.
    pub proof fn lemma_next_chunk_is_first(self)
        requires
            self.config.write_batch_size > 0,
        ensures
            match self.next_chunk() {
                WriteProgress::Ask(WriterRequest::WriteBatch { offset, length }) => {
                    let chunks = chunks_from(
                        self.batch_offset as nat,
                        self.batch_rows as nat,
                        self.config.write_batch_size as nat,
                    );
                    chunks.len() > 0 && chunks[0] == (offset as nat, length as nat)
                },
                WriteProgress::Ask(WriterRequest::Flush) => false,
                WriteProgress::Done => chunks_from(
                    self.batch_offset as nat,
                    self.batch_rows as nat,
                    self.config.write_batch_size as nat,
                ).len() == 0,
            },
    {
    }
}

/// What the encoder reports after a chunk: the bytes it has buffered and the
/// bytes it still holds in progress.
pub type SizeReport = (usize, usize);

impl PartitionWriter {
    /// The writer once the chunk it asks for is with the encoder.
    pub open spec fn after_chunk(self) -> PartitionWriter {
        match self.next_chunk() {
            WriteProgress::Ask(WriterRequest::WriteBatch { offset, length }) => PartitionWriter {
                batch_offset: (offset + length) as usize,
                ..self
            },
            _ => self,
        }
    }

    /// How many files the writer asks to be flushed while its batch is
    /// written, when the encoder answers the chunks in order with the given
    /// reports.
    pub open spec fn flushes_asked(self, reports: Seq<SizeReport>) -> nat
        decreases reports.len(),
    {
        if reports.len() == 0 || !(self.next_chunk() is Ask) {
            0
        } else {
            self.after_chunk().flushes_asked(reports.skip(1)) + if self.worth_a_file(
                reports[0].0,
                reports[0].1,
            ) {
                1nat
            } else {
                0nat
            }
        }
    }
}

/// How many of the reports say that the data in progress has reached the
/// target file size.
pub open spec fn reports_at_target(target: usize, reports: Seq<SizeReport>) -> nat
    decreases reports.len(),
{
    if reports.len() == 0 {
        0
    } else {
        reports_at_target(target, reports.skip(1)) + if PartitionWriter::estimated_size(
            reports[0].0,
            reports[0].1,
        ) >= target {
            1nat
        } else {
            0nat
        }
    }
}

/// While a batch is written, a file is flushed after a chunk exactly when
/// the encoder's report for that chunk has reached the target file size: with
/// one report per chunk, as many files are asked for as reports reach the
/// target. So every file that is flushed before the writer is closed was
/// estimated at the target size or more, and at most the file that closing
/// makes can fall short of it.
pub proof fn lemma_flushes_follow_the_reports(writer: PartitionWriter, reports: Seq<SizeReport>)
    requires
        writer.config.write_batch_size > 0,
        writer.batch_offset <= writer.batch_rows,
        reports.len() == chunks_from(
            writer.batch_offset as nat,
            writer.batch_rows as nat,
            writer.config.write_batch_size as nat,
        ).len(),
    ensures
        writer.flushes_asked(reports) == reports_at_target(
            writer.config.target_file_size,
            reports,
        ),
    decreases reports.len(),
{
    if reports.len() > 0 {
        writer.lemma_next_chunk_is_first();
        let chunks = chunks_from(
            writer.batch_offset as nat,
            writer.batch_rows as nat,
            writer.config.write_batch_size as nat,
        );
        assert(chunks.len() > 0);
        assert(writer.next_chunk() is Ask);
        let next = writer.after_chunk();
        assert(chunks.skip(1) =~= chunks_from(
            next.batch_offset as nat,
            next.batch_rows as nat,
            next.config.write_batch_size as nat,
        ));
        lemma_flushes_follow_the_reports(next, reports.skip(1));
    }
}

} // verus!
