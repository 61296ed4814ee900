//! The BATCH request builder. The builder's stage is part of its type, so the
//! parts of a batch can only be given in the order the protocol lays them out:
//! type, then statements or ids each with their values, then consistency, then
//! the optional serial consistency and timestamp.
use vstd::prelude::*;
use vstd::utf8::*;
use crate::column::{ColumnEncoder, NULL_LENGTH, UNSET_LENGTH};
use crate::compression::{compress_spec, flag_of, Compression, CompressionError};
use crate::consistency::{consistency_code, Consistency};
use crate::frame::BATCH;
use crate::wire::{i32_be, i64_be, push_all, push_i32, push_i64, push_u16, u16_be};

verus! {

/// Batch flag: a serial consistency follows.
pub const SERIAL_CONSISTENCY: u8 = 0x10;
/// Batch flag: a timestamp follows.
pub const TIMESTAMP: u8 = 0x20;
/// No batch flag.
pub const NOFLAGS: u8 = 0x00;

/// A finished BATCH frame.
pub struct Batch(pub Vec<u8>);

/// The kinds of batch.
#[derive(Clone, Copy, PartialEq, Eq, Structural, Debug)]
pub enum BatchTypes {
    Logged,
    Unlogged,
    Counter,
}

/// The header of a BATCH request, before compression and stream assignment.
pub open spec fn batch_header() -> Seq<u8> {
    seq![4u8, 0, 0, 0, BATCH, 0, 0, 0, 0]
}

/// A batch type known at compile time.
pub trait BatchTypeCode: Copy {
    spec fn spec_code(&self) -> u8;

    fn code(&self) -> (r: u8)
        ensures
            r == self.spec_code(),
    ;
}

/// Gating type: no batch type yet.
#[derive(Copy, Clone)]
pub struct BatchTypeUnset;

/// Gating type: a logged batch.
#[derive(Copy, Clone)]
pub struct BatchTypeLogged;

/// Gating type: an unlogged batch.
#[derive(Copy, Clone)]
pub struct BatchTypeUnlogged;

/// Gating type: a counter batch.
#[derive(Copy, Clone)]
pub struct BatchTypeCounter;

impl BatchTypeCode for BatchTypeLogged {
    open spec fn spec_code(&self) -> u8 { 0 }
    fn code(&self) -> (r: u8) { 0 }
}

impl BatchTypeCode for BatchTypeUnlogged {
    open spec fn spec_code(&self) -> u8 { 1 }
    fn code(&self) -> (r: u8) { 1 }
}

impl BatchTypeCode for BatchTypeCounter {
    open spec fn spec_code(&self) -> u8 { 2 }
    fn code(&self) -> (r: u8) { 2 }
}

impl BatchTypeCode for BatchTypes {
    open spec fn spec_code(&self) -> u8 {
        match self {
            BatchTypes::Logged => 0,
            BatchTypes::Unlogged => 1,
            BatchTypes::Counter => 2,
        }
    }
    fn code(&self) -> (r: u8) {
        match self {
            BatchTypes::Logged => 0,
            BatchTypes::Unlogged => 1,
            BatchTypes::Counter => 2,
        }
    }
}

/// Gating stage: the header.
#[derive(Copy, Clone)]
pub struct BatchHeader;

/// Gating stage: the batch type is next.
#[derive(Copy, Clone)]
pub struct BatchType;

/// Gating stage: a statement or a prepared id is next.
#[derive(Copy, Clone)]
pub struct BatchStatementOrId;

/// Gating stage: values of the last statement, whose value count stands at `index`.
#[derive(Copy, Clone)]
pub struct BatchValues {
    pub value_count: u16,
    pub index: usize,
}

/// Gating stage: the batch flags are next.
#[derive(Copy, Clone)]
pub struct BatchFlags;

/// Gating stage: after the serial consistency, a timestamp may follow.
#[derive(Copy, Clone)]
pub struct BatchTimestamp;

/// Gating stage: complete.
#[derive(Copy, Clone)]
pub struct BatchBuild;

/// Builds a BATCH frame.
pub struct BatchBuilder<Type, Stage> {
    pub buffer: Vec<u8>,
    pub query_count: u16,
    pub batch_type: Type,
    pub stage: Stage,
}

/// `s` with the two bytes at `at` replaced by `v`.
pub open spec fn with_u16_at(s: Seq<u8>, at: int, v: u16) -> Seq<u8> {
    s.update(at, u16_be(v)[0]).update(at + 1, u16_be(v)[1])
}

/// A `[long string]`.
pub open spec fn long_string(s: Seq<char>) -> Seq<u8> {
    i32_be(encode_utf8(s).len() as i32) + encode_utf8(s)
}

/// Writes the two bytes of `v` at `at`.
fn set_u16(buffer: &mut Vec<u8>, at: usize, v: u16)
    requires
        at + 2 <= old(buffer)@.len(),
    ensures
        final(buffer)@ == with_u16_at(old(buffer)@, at as int, v),
{
    let len = buffer.len();
    assert(at + 1 < len);
    buffer.set(at, (v / 256) as u8);
    buffer.set(at + 1, (v % 256) as u8);
}

impl BatchBuilder<BatchTypeUnset, BatchHeader> {
    /// A builder holding the BATCH header.
    pub fn new() -> (r: BatchBuilder<BatchTypeUnset, BatchType>)
        ensures
            r.buffer@ == batch_header(),
            r.query_count == 0,
    {
        let mut buffer: Vec<u8> = Vec::new();
        push_all(&mut buffer, &[4u8, 0, 0, 0, BATCH, 0, 0, 0, 0]);
        assert(buffer@ =~= batch_header());
        BatchBuilder { buffer, query_count: 0, batch_type: BatchTypeUnset, stage: BatchType }
    }

    /// The same, with room reserved for `capacity` bytes.
    pub fn with_capacity(capacity: usize) -> (r: BatchBuilder<BatchTypeUnset, BatchType>)
        ensures
            r.buffer@ == batch_header(),
            r.query_count == 0,
    {
        let mut buffer: Vec<u8> = Vec::with_capacity(capacity);
        push_all(&mut buffer, &[4u8, 0, 0, 0, BATCH, 0, 0, 0, 0]);
        assert(buffer@ =~= batch_header());
        BatchBuilder { buffer, query_count: 0, batch_type: BatchTypeUnset, stage: BatchType }
    }
}

impl Batch {
    /// A batch builder.
    pub fn new() -> (r: BatchBuilder<BatchTypeUnset, BatchType>)
        ensures
            r.buffer@ == batch_header(),
            r.query_count == 0,
    {
        BatchBuilder::new()
    }

    /// A batch builder with room reserved for `capacity` bytes.
    pub fn with_capacity(capacity: usize) -> (r: BatchBuilder<BatchTypeUnset, BatchType>)
        ensures
            r.buffer@ == batch_header(),
            r.query_count == 0,
    {
        BatchBuilder::with_capacity(capacity)
    }
}

impl BatchBuilder<BatchTypeUnset, BatchType> {
    /// Sets the batch type; the query count stays zero until the batch is built.
    pub fn batch_type<T: BatchTypeCode>(self, batch_type: T) -> (r: BatchBuilder<T, BatchStatementOrId>)
        ensures
            r.buffer@ == self.buffer@ + seq![batch_type.spec_code(), 0u8, 0u8],
            r.query_count == self.query_count,
    {
        let mut buffer = self.buffer;
        buffer.push(batch_type.code());
        buffer.push(0);
        buffer.push(0);
        assert(buffer@ =~= self.buffer@ + seq![batch_type.spec_code(), 0u8, 0u8]);
        BatchBuilder { buffer, query_count: self.query_count, batch_type, stage: BatchStatementOrId }
    }

    /// A logged batch.
    pub fn logged(self) -> (r: BatchBuilder<BatchTypeLogged, BatchStatementOrId>)
        ensures
            r.buffer@ == self.buffer@ + seq![0u8, 0u8, 0u8],
            r.query_count == self.query_count,
    {
        self.batch_type(BatchTypeLogged)
    }

    /// An unlogged batch.
    pub fn unlogged(self) -> (r: BatchBuilder<BatchTypeUnlogged, BatchStatementOrId>)
        ensures
            r.buffer@ == self.buffer@ + seq![1u8, 0u8, 0u8],
            r.query_count == self.query_count,
    {
        self.batch_type(BatchTypeUnlogged)
    }

    /// A counter batch.
    pub fn counter(self) -> (r: BatchBuilder<BatchTypeCounter, BatchStatementOrId>)
        ensures
            r.buffer@ == self.buffer@ + seq![2u8, 0u8, 0u8],
            r.query_count == self.query_count,
    {
        self.batch_type(BatchTypeCounter)
    }
}

/// Appends a plain statement entry with a zero value count; where the count stands.
fn push_statement(buffer: &mut Vec<u8>, statement: &str) -> (index: usize)
    ensures
        final(buffer)@ == old(buffer)@ + seq![0u8] + long_string(statement@) + seq![0u8, 0u8],
        index + 2 == final(buffer)@.len(),
{
    let b = statement.as_bytes();
    buffer.push(0);
    push_i32(buffer, b.len() as i32);
    push_all(buffer, b);
    let index = buffer.len();
    buffer.push(0);
    buffer.push(0);
    assert(buffer@ =~= old(buffer)@ + seq![0u8] + long_string(statement@) + seq![0u8, 0u8]);
    index
}

/// Appends a prepared entry with a zero value count; where the count stands.
fn push_id(buffer: &mut Vec<u8>, id: &[u8; 16]) -> (index: usize)
    ensures
        final(buffer)@ == old(buffer)@ + seq![1u8] + u16_be(16) + id@ + seq![0u8, 0u8],
        index + 2 == final(buffer)@.len(),
{
    buffer.push(1);
    push_u16(buffer, 16);
    push_all(buffer, id.as_slice());
    let index = buffer.len();
    buffer.push(0);
    buffer.push(0);
    assert(buffer@ =~= old(buffer)@ + seq![1u8] + u16_be(16) + id@ + seq![0u8, 0u8]);
    index
}

impl<T: BatchTypeCode> BatchBuilder<T, BatchStatementOrId> {
    /// Adds a statement given as text.
    pub fn statement(self, statement: &str) -> (r: BatchBuilder<T, BatchValues>)
        requires
            self.query_count < u16::MAX,
        ensures
            r.buffer@ == self.buffer@ + seq![0u8] + long_string(statement@) + seq![0u8, 0u8],
            r.query_count == self.query_count + 1,
            r.stage.value_count == 0,
            r.stage.index + 2 == r.buffer@.len(),
    {
        let mut buffer = self.buffer;
        let index = push_statement(&mut buffer, statement);
        BatchBuilder {
            buffer,
            query_count: self.query_count + 1,
            batch_type: self.batch_type,
            stage: BatchValues { value_count: 0, index },
        }
    }

    /// Adds a prepared statement given by its id.
    pub fn id(self, id: &[u8; 16]) -> (r: BatchBuilder<T, BatchValues>)
        requires
            self.query_count < u16::MAX,
        ensures
            r.buffer@ == self.buffer@ + seq![1u8] + u16_be(16) + id@ + seq![0u8, 0u8],
            r.query_count == self.query_count + 1,
            r.stage.value_count == 0,
            r.stage.index + 2 == r.buffer@.len(),
    {
        let mut buffer = self.buffer;
        let index = push_id(&mut buffer, id);
        BatchBuilder {
            buffer,
            query_count: self.query_count + 1,
            batch_type: self.batch_type,
            stage: BatchValues { value_count: 0, index },
        }
    }
}

impl<T: BatchTypeCode> BatchBuilder<T, BatchValues> {
    /// Whether the value count of the last statement lies inside the buffer.
    pub open spec fn wf(&self) -> bool {
        self.stage.index + 2 <= self.buffer@.len()
    }

    /// Writes the value count of the last statement.
    pub fn commit_value_count(&mut self)
        requires
            old(self).wf(),
        ensures
            final(self).buffer@ == with_u16_at(old(self).buffer@, old(self).stage.index as int, old(self).stage.value_count),
            final(self).query_count == old(self).query_count,
            final(self).stage == old(self).stage,
    {
        set_u16(&mut self.buffer, self.stage.index, self.stage.value_count);
    }

    /// Binds a value to the last statement.
    pub fn value<V: ColumnEncoder>(self, value: &V) -> (r: BatchBuilder<T, BatchValues>)
        requires
            self.wf(),
            self.stage.value_count < u16::MAX,
        ensures
            r.wf(),
            r.buffer@ == self.buffer@ + value.value_bytes(),
            r.query_count == self.query_count,
            r.stage.index == self.stage.index,
            r.stage.value_count == self.stage.value_count + 1,
    {
        let mut buffer = self.buffer;
        value.encode(&mut buffer);
        BatchBuilder {
            buffer,
            query_count: self.query_count,
            batch_type: self.batch_type,
            stage: BatchValues { value_count: self.stage.value_count + 1, index: self.stage.index },
        }
    }

    /// Binds UNSET to the next variable of the last statement.
    pub fn unset_value(self) -> (r: BatchBuilder<T, BatchValues>)
        requires
            self.wf(),
            self.stage.value_count < u16::MAX,
        ensures
            r.wf(),
            r.buffer@ == self.buffer@ + i32_be(UNSET_LENGTH),
            r.query_count == self.query_count,
            r.stage.index == self.stage.index,
            r.stage.value_count == self.stage.value_count + 1,
    {
        let mut buffer = self.buffer;
        push_i32(&mut buffer, UNSET_LENGTH);
        BatchBuilder {
            buffer,
            query_count: self.query_count,
            batch_type: self.batch_type,
            stage: BatchValues { value_count: self.stage.value_count + 1, index: self.stage.index },
        }
    }

    /// Binds NULL to the next variable of the last statement.
    pub fn null_value(self) -> (r: BatchBuilder<T, BatchValues>)
        requires
            self.wf(),
            self.stage.value_count < u16::MAX,
        ensures
            r.wf(),
            r.buffer@ == self.buffer@ + i32_be(NULL_LENGTH),
            r.query_count == self.query_count,
            r.stage.index == self.stage.index,
            r.stage.value_count == self.stage.value_count + 1,
    {
        let mut buffer = self.buffer;
        push_i32(&mut buffer, NULL_LENGTH);
        BatchBuilder {
            buffer,
            query_count: self.query_count,
            batch_type: self.batch_type,
            stage: BatchValues { value_count: self.stage.value_count + 1, index: self.stage.index },
        }
    }

    /// Closes the last statement and adds a statement given as text.
    pub fn statement(self, statement: &str) -> (r: BatchBuilder<T, BatchValues>)
        requires
            self.wf(),
            self.query_count < u16::MAX,
        ensures
            r.wf(),
            r.buffer@ == with_u16_at(self.buffer@, self.stage.index as int, self.stage.value_count)
                + seq![0u8] + long_string(statement@) + seq![0u8, 0u8],
            r.query_count == self.query_count + 1,
            r.stage.value_count == 0,
            r.stage.index + 2 == r.buffer@.len(),
    {
        let mut this = self;
        this.commit_value_count();
        let mut buffer = this.buffer;
        let index = push_statement(&mut buffer, statement);
        BatchBuilder {
            buffer,
            query_count: this.query_count + 1,
            batch_type: this.batch_type,
            stage: BatchValues { value_count: 0, index },
        }
    }

    /// Closes the last statement and adds a prepared statement given by its id.
    pub fn id(self, id: &[u8; 16]) -> (r: BatchBuilder<T, BatchValues>)
        requires
            self.wf(),
            self.query_count < u16::MAX,
        ensures
            r.wf(),
            r.buffer@ == with_u16_at(self.buffer@, self.stage.index as int, self.stage.value_count)
                + seq![1u8] + u16_be(16) + id@ + seq![0u8, 0u8],
            r.query_count == self.query_count + 1,
            r.stage.value_count == 0,
            r.stage.index + 2 == r.buffer@.len(),
    {
        let mut this = self;
        this.commit_value_count();
        let mut buffer = this.buffer;
        let index = push_id(&mut buffer, id);
        BatchBuilder {
            buffer,
            query_count: this.query_count + 1,
            batch_type: this.batch_type,
            stage: BatchValues { value_count: 0, index },
        }
    }

    /// Closes the last statement and sets the consistency of the batch.
    pub fn consistency(self, consistency: Consistency) -> (r: BatchBuilder<T, BatchFlags>)
        requires
            self.wf(),
        ensures
            r.buffer@ == with_u16_at(self.buffer@, self.stage.index as int, self.stage.value_count)
                + u16_be(consistency_code(consistency)),
            r.query_count == self.query_count,
    {
        let mut this = self;
        this.commit_value_count();
        let mut buffer = this.buffer;
        push_u16(&mut buffer, consistency.code());
        BatchBuilder { buffer, query_count: this.query_count, batch_type: this.batch_type, stage: BatchFlags }
    }
}

/// A built batch before compression: the query count written into its count
/// field and the compression flag into the header's flags byte.
pub open spec fn finished(buffer: Seq<u8>, query_count: u16, flag: u8) -> Seq<u8> {
    with_u16_at(buffer, 10, query_count).update(1, buffer[1] | flag)
}

/// Writes the query count and the compression flag, then compresses.
fn finish(buffer: Vec<u8>, query_count: u16, compression: Compression) -> (r: Result<Batch, CompressionError>)
    requires
        buffer@.len() >= 12,
    ensures
        r is Ok <==> compress_spec(compression, finished(buffer@, query_count, flag_of(compression))) is Ok,
        r is Ok ==> r->Ok_0.0@ == compress_spec(compression, finished(buffer@, query_count, flag_of(compression)))->Ok_0,
        r is Err ==> r->Err_0 == compress_spec(compression, finished(buffer@, query_count, flag_of(compression)))->Err_0,
{
    let mut buffer = buffer;
    let ghost b0 = buffer@;
    set_u16(&mut buffer, 10, query_count);
    let flags = buffer[1] | compression.flag();
    buffer.set(1, flags);
    assert(buffer@ =~= finished(b0, query_count, flag_of(compression)));
    match compression.compress(buffer) {
        Ok(b) => Ok(Batch(b)),
        Err(e) => Err(e),
    }
}

impl<T: BatchTypeCode> BatchBuilder<T, BatchFlags> {
    /// Sets the serial consistency of the batch.
    pub fn serial_consistency(self, consistency: Consistency) -> (r: BatchBuilder<T, BatchTimestamp>)
        ensures
            r.buffer@ == self.buffer@ + seq![SERIAL_CONSISTENCY] + u16_be(consistency_code(consistency)),
            r.query_count == self.query_count,
    {
        let mut buffer = self.buffer;
        buffer.push(SERIAL_CONSISTENCY);
        push_u16(&mut buffer, consistency.code());
        assert(buffer@ =~= self.buffer@ + seq![SERIAL_CONSISTENCY] + u16_be(consistency_code(consistency)));
        BatchBuilder { buffer, query_count: self.query_count, batch_type: self.batch_type, stage: BatchTimestamp }
    }

    /// Sets the default timestamp of the batch.
    pub fn timestamp(self, timestamp: i64) -> (r: BatchBuilder<T, BatchBuild>)
        ensures
            r.buffer@ == self.buffer@ + seq![TIMESTAMP] + i64_be(timestamp),
            r.query_count == self.query_count,
    {
        let mut buffer = self.buffer;
        buffer.push(TIMESTAMP);
        push_i64(&mut buffer, timestamp);
        assert(buffer@ =~= self.buffer@ + seq![TIMESTAMP] + i64_be(timestamp));
        BatchBuilder { buffer, query_count: self.query_count, batch_type: self.batch_type, stage: BatchBuild }
    }

    /// Builds the batch with no flags.
    pub fn build(self, compression: Compression) -> (r: Result<Batch, CompressionError>)
        requires
            self.buffer@.len() >= 12,
        ensures
            r is Ok <==> compress_spec(compression, finished(self.buffer@ + seq![NOFLAGS], self.query_count, flag_of(compression))) is Ok,
            r is Ok ==> r->Ok_0.0@ == compress_spec(compression, finished(self.buffer@ + seq![NOFLAGS], self.query_count, flag_of(compression)))->Ok_0,
    {
        let mut buffer = self.buffer;
        buffer.push(NOFLAGS);
        assert(buffer@ =~= self.buffer@ + seq![NOFLAGS]);
        finish(buffer, self.query_count, compression)
    }
}

impl<T: BatchTypeCode> BatchBuilder<T, BatchTimestamp> {
    /// Whether the buffer ends with the flags byte and a serial consistency.
    pub open spec fn wf(&self) -> bool {
        self.buffer@.len() >= 15
    }

    /// Sets the default timestamp of the batch, after a serial consistency.
    pub fn timestamp(self, timestamp: i64) -> (r: BatchBuilder<T, BatchBuild>)
        requires
            self.wf(),
        ensures
            r.buffer@ == self.buffer@.update(self.buffer@.len() - 3, self.buffer@[self.buffer@.len() - 3] | TIMESTAMP)
                + i64_be(timestamp),
            r.query_count == self.query_count,
    {
        let mut buffer = self.buffer;
        let at = buffer.len() - 3;
        let flags = buffer[at] | TIMESTAMP;
        buffer.set(at, flags);
        push_i64(&mut buffer, timestamp);
        BatchBuilder { buffer, query_count: self.query_count, batch_type: self.batch_type, stage: BatchBuild }
    }

    /// Builds the batch.
    pub fn build(self, compression: Compression) -> (r: Result<Batch, CompressionError>)
        requires
            self.wf(),
        ensures
            r is Ok <==> compress_spec(compression, finished(self.buffer@, self.query_count, flag_of(compression))) is Ok,
            r is Ok ==> r->Ok_0.0@ == compress_spec(compression, finished(self.buffer@, self.query_count, flag_of(compression)))->Ok_0,
    {
        finish(self.buffer, self.query_count, compression)
    }
}

impl<T: BatchTypeCode> BatchBuilder<T, BatchBuild> {
    /// Builds the batch.
    pub fn build(self, compression: Compression) -> (r: Result<Batch, CompressionError>)
        requires
            self.buffer@.len() >= 12,
        ensures
            r is Ok <==> compress_spec(compression, finished(self.buffer@, self.query_count, flag_of(compression))) is Ok,
            r is Ok ==> r->Ok_0.0@ == compress_spec(compression, finished(self.buffer@, self.query_count, flag_of(compression)))->Ok_0,
    {
        finish(self.buffer, self.query_count, compression)
    }
}

} // verus!
