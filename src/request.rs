//! Request frames: STARTUP, OPTIONS, AUTH_RESPONSE, QUERY, PREPARE and EXECUTE.
use vstd::prelude::*;
use vstd::utf8::*;
use crate::batch::long_string;
use crate::compression::{compress_spec, flag_of, option_name, Compression, CompressionError};
use crate::consistency::{consistency_code, Consistency};
use crate::frame::{AUTH_RESPONSE, EXECUTE, OPTIONS, PREPARE, QUERY, STARTUP};
use crate::wire::{i32_be, i64_be, push_all, push_i32, push_i64, push_u16, u16_be};

verus! {

/// Query flag: values follow.
pub const VALUES: u8 = 0x01;
/// Query flag: the result leaves out the metadata.
pub const SKIP_METADATA: u8 = 0x02;
/// Query flag: a page size follows.
pub const PAGE_SIZE: u8 = 0x04;
/// Query flag: a paging state follows.
pub const WITH_PAGING_STATE: u8 = 0x08;
/// Query flag: a serial consistency follows.
pub const WITH_SERIAL_CONSISTENCY: u8 = 0x10;
/// Query flag: a default timestamp follows.
pub const WITH_DEFAULT_TIMESTAMP: u8 = 0x20;
/// Query flag: the values are named.
pub const NAMED_VALUES: u8 = 0x40;

/// The header of a request frame with a zero stream and length.
pub open spec fn request_header(flags: u8, opcode: u8) -> Seq<u8> {
    seq![4u8, flags, 0u8, 0u8, opcode, 0u8, 0u8, 0u8, 0u8]
}

/// The frame of a request: its header, then its body, compressed as the
/// connection asks, with the length field set.
pub open spec fn request_frame(c: Compression, opcode: u8, body: Seq<u8>) -> Result<Seq<u8>, CompressionError> {
    compress_spec(c, request_header(flag_of(c), opcode) + body)
}

/// Frames a request body.
pub fn frame(opcode: u8, body: &Vec<u8>, compression: Compression) -> (r: Result<Vec<u8>, CompressionError>)
    ensures
        r is Ok <==> request_frame(compression, opcode, body@) is Ok,
        r is Ok ==> r->Ok_0@ == request_frame(compression, opcode, body@)->Ok_0,
{
    let mut buffer: Vec<u8> = Vec::new();
    buffer.push(4);
    buffer.push(compression.flag());
    buffer.push(0);
    buffer.push(0);
    buffer.push(opcode);
    push_i32(&mut buffer, 0);
    push_all(&mut buffer, body.as_slice());
    assert(buffer@ =~= request_header(flag_of(compression), opcode) + body@);
    compression.compress(buffer)
}

/// A `[string]`.
pub open spec fn short_string(s: Seq<char>) -> Seq<u8> {
    u16_be(encode_utf8(s).len() as u16) + encode_utf8(s)
}

/// Appends a `[string]`.
pub fn push_string(buffer: &mut Vec<u8>, s: &str)
    ensures
        final(buffer)@ == old(buffer)@ + short_string(s@),
{
    let b = s.as_bytes();
    push_u16(buffer, b.len() as u16);
    push_all(buffer, b);
    assert(final(buffer)@ =~= old(buffer)@ + short_string(s@));
}

/// Appends a `[long string]`.
pub fn push_long_string(buffer: &mut Vec<u8>, s: &str)
    ensures
        final(buffer)@ == old(buffer)@ + long_string(s@),
{
    let b = s.as_bytes();
    push_i32(buffer, b.len() as i32);
    push_all(buffer, b);
    assert(final(buffer)@ =~= old(buffer)@ + long_string(s@));
}

/// The body of STARTUP: the protocol version, and the compression if any.
pub open spec fn startup_body(compression: Option<Seq<char>>) -> Seq<u8> {
    let version = short_string("CQL_VERSION"@) + short_string("3.0.0"@);
    match compression {
        None => u16_be(1) + version,
        Some(name) => u16_be(2) + version + short_string("COMPRESSION"@) + short_string(name),
    }
}

/// The STARTUP frame that opens a connection. It is never compressed.
pub fn startup(compression: Compression) -> (r: Vec<u8>)
    ensures
        r@ == with_length(
            request_header(0, STARTUP),
            startup_body(if compression == Compression::Uncompressed { None } else { Some(option_name(compression)) }),
        ),
{
    let mut body: Vec<u8> = Vec::new();
    match compression.option() {
        None => push_u16(&mut body, 1),
        Some(_) => push_u16(&mut body, 2),
    }
    push_string(&mut body, "CQL_VERSION");
    push_string(&mut body, "3.0.0");
    match compression.option() {
        Some(name) => {
            push_string(&mut body, "COMPRESSION");
            push_string(&mut body, name);
        },
        None => {},
    }
    let mut buffer: Vec<u8> = Vec::new();
    push_all(&mut buffer, &[4u8, 0, 0, 0, STARTUP]);
    push_i32(&mut buffer, body.len() as i32);
    push_all(&mut buffer, body.as_slice());
    proof {
        let name = if compression == Compression::Uncompressed { None } else { Some(option_name(compression)) };
        assert(body@ =~= startup_body(name));
        assert(buffer@ =~= with_length(request_header(0, STARTUP), startup_body(name)));
    }
    buffer
}

/// A header with its length field set to the length of `body`, then `body`.
pub open spec fn with_length(header: Seq<u8>, body: Seq<u8>) -> Seq<u8> {
    header.take(5) + i32_be(body.len() as i32) + body
}

/// An OPTIONS frame.
pub struct Options(pub Vec<u8>);

/// Builds an OPTIONS frame.
pub struct OptionsBuilder {
    pub buffer: Vec<u8>,
}

impl OptionsBuilder {
    pub fn new() -> (r: OptionsBuilder)
        ensures
            r.buffer@ == request_header(0, OPTIONS),
    {
        let mut buffer: Vec<u8> = Vec::new();
        push_all(&mut buffer, &[4u8, 0, 0, 0, OPTIONS, 0, 0, 0, 0]);
        assert(buffer@ =~= request_header(0, OPTIONS));
        OptionsBuilder { buffer }
    }

    pub fn build(self) -> (r: Options)
        ensures
            r.0 == self.buffer,
    {
        Options(self.buffer)
    }
}

impl Options {
    pub fn new() -> (r: OptionsBuilder)
        ensures
            r.buffer@ == request_header(0, OPTIONS),
    {
        OptionsBuilder::new()
    }
}

/// The AUTH_RESPONSE frame that carries credentials as `[bytes]`.
pub fn auth_response(token: &[u8], compression: Compression) -> (r: Result<Vec<u8>, CompressionError>)
    ensures
        r is Ok <==> request_frame(compression, AUTH_RESPONSE, i32_be(token@.len() as i32) + token@) is Ok,
        r is Ok ==> r->Ok_0@ == request_frame(compression, AUTH_RESPONSE, i32_be(token@.len() as i32) + token@)->Ok_0,
{
    let mut body: Vec<u8> = Vec::new();
    push_i32(&mut body, token.len() as i32);
    push_all(&mut body, token);
    assert(body@ =~= i32_be(token@.len() as i32) + token@);
    frame(AUTH_RESPONSE, &body, compression)
}

/// The parameters of a QUERY or EXECUTE.
pub struct QueryParameters {
    pub consistency: Consistency,
    /// The values, each already written with its length.
    pub values: Vec<u8>,
    pub value_count: u16,
    pub page_size: Option<i32>,
    pub paging_state: Option<Vec<u8>>,
    pub serial_consistency: Option<Consistency>,
    pub timestamp: Option<i64>,
}

/// The flags byte of query parameters.
pub open spec fn query_flags(p: QueryParameters) -> u8 {
    (if p.value_count > 0 { VALUES } else { 0u8 })
        | (if p.page_size is Some { PAGE_SIZE } else { 0u8 })
        | (if p.paging_state is Some { WITH_PAGING_STATE } else { 0u8 })
        | (if p.serial_consistency is Some { WITH_SERIAL_CONSISTENCY } else { 0u8 })
        | (if p.timestamp is Some { WITH_DEFAULT_TIMESTAMP } else { 0u8 })
}

pub open spec fn values_part(count: u16, values: Seq<u8>) -> Seq<u8> {
    if count > 0 { u16_be(count) + values } else { Seq::empty() }
}

pub open spec fn page_size_part(n: Option<i32>) -> Seq<u8> {
    match n { Some(n) => i32_be(n), None => Seq::empty() }
}

pub open spec fn paging_state_part(s: Option<Seq<u8>>) -> Seq<u8> {
    match s { Some(s) => i32_be(s.len() as i32) + s, None => Seq::empty() }
}

pub open spec fn serial_part(c: Option<Consistency>) -> Seq<u8> {
    match c { Some(c) => u16_be(consistency_code(c)), None => Seq::empty() }
}

pub open spec fn timestamp_part(t: Option<i64>) -> Seq<u8> {
    match t { Some(t) => i64_be(t), None => Seq::empty() }
}

/// What a paging state holds.
pub open spec fn paging_view(s: Option<Vec<u8>>) -> Option<Seq<u8>> {
    match s { Some(v) => Some(v@), None => None }
}

/// `<consistency><flags>[<n>[value]...][<page size>][<paging state>][<serial consistency>][<timestamp>]`.
pub open spec fn query_parameters_bytes(p: QueryParameters) -> Seq<u8> {
    u16_be(consistency_code(p.consistency)) + seq![query_flags(p)] + values_part(p.value_count, p.values@)
        + page_size_part(p.page_size) + paging_state_part(paging_view(p.paging_state))
        + serial_part(p.serial_consistency) + timestamp_part(p.timestamp)
}

fn push_values_part(buffer: &mut Vec<u8>, count: u16, values: &Vec<u8>)
    ensures
        final(buffer)@ == old(buffer)@ + values_part(count, values@),
{
    if count > 0 {
        push_u16(buffer, count);
        push_all(buffer, values.as_slice());
    }
    assert(final(buffer)@ =~= old(buffer)@ + values_part(count, values@));
}

fn push_page_size(buffer: &mut Vec<u8>, n: Option<i32>)
    ensures
        final(buffer)@ == old(buffer)@ + page_size_part(n),
{
    match n {
        Some(n) => push_i32(buffer, n),
        None => {},
    }
    assert(final(buffer)@ =~= old(buffer)@ + page_size_part(n));
}

fn push_paging_state(buffer: &mut Vec<u8>, s: &Option<Vec<u8>>)
    ensures
        final(buffer)@ == old(buffer)@ + paging_state_part(paging_view(*s)),
{
    match s {
        Some(s) => {
            push_i32(buffer, s.len() as i32);
            push_all(buffer, s.as_slice());
        },
        None => {},
    }
    assert(final(buffer)@ =~= old(buffer)@ + paging_state_part(paging_view(*s)));
}

fn push_serial(buffer: &mut Vec<u8>, c: Option<Consistency>)
    ensures
        final(buffer)@ == old(buffer)@ + serial_part(c),
{
    match c {
        Some(c) => push_u16(buffer, c.code()),
        None => {},
    }
    assert(final(buffer)@ =~= old(buffer)@ + serial_part(c));
}

fn push_timestamp(buffer: &mut Vec<u8>, t: Option<i64>)
    ensures
        final(buffer)@ == old(buffer)@ + timestamp_part(t),
{
    match t {
        Some(t) => push_i64(buffer, t),
        None => {},
    }
    assert(final(buffer)@ =~= old(buffer)@ + timestamp_part(t));
}

impl QueryParameters {
    /// Parameters with a consistency and values, and nothing else.
    pub fn new(consistency: Consistency, values: Vec<u8>, value_count: u16) -> (r: QueryParameters)
        ensures
            r.consistency == consistency,
            r.values == values,
            r.value_count == value_count,
            r.page_size is None,
            r.paging_state is None,
            r.serial_consistency is None,
            r.timestamp is None,
    {
        QueryParameters {
            consistency,
            values,
            value_count,
            page_size: None,
            paging_state: None,
            serial_consistency: None,
            timestamp: None,
        }
    }

    /// The flags byte.
    pub fn flags(&self) -> (r: u8)
        ensures
            r == query_flags(*self),
    {
        (if self.value_count > 0 { VALUES } else { 0u8 })
            | (if self.page_size.is_some() { PAGE_SIZE } else { 0u8 })
            | (if self.paging_state.is_some() { WITH_PAGING_STATE } else { 0u8 })
            | (if self.serial_consistency.is_some() { WITH_SERIAL_CONSISTENCY } else { 0u8 })
            | (if self.timestamp.is_some() { WITH_DEFAULT_TIMESTAMP } else { 0u8 })
    }

    /// Appends the parameters.
    pub fn encode(&self, buffer: &mut Vec<u8>)
        ensures
            final(buffer)@ == old(buffer)@ + query_parameters_bytes(*self),
    {
        let ghost start = buffer@;
        push_u16(buffer, self.consistency.code());
        buffer.push(self.flags());
        let ghost head = u16_be(consistency_code(self.consistency)) + seq![query_flags(*self)];
        assert(buffer@ =~= start + head);
        push_values_part(buffer, self.value_count, &self.values);
        push_page_size(buffer, self.page_size);
        push_paging_state(buffer, &self.paging_state);
        push_serial(buffer, self.serial_consistency);
        push_timestamp(buffer, self.timestamp);
        assert(buffer@ =~= start + query_parameters_bytes(*self));
    }
}

/// The body of a QUERY.
pub open spec fn query_body(statement: Seq<char>, p: QueryParameters) -> Seq<u8> {
    long_string(statement) + query_parameters_bytes(p)
}

/// A QUERY frame.
pub fn query(statement: &str, params: &QueryParameters, compression: Compression) -> (r: Result<Vec<u8>, CompressionError>)
    ensures
        r is Ok <==> request_frame(compression, QUERY, query_body(statement@, *params)) is Ok,
        r is Ok ==> r->Ok_0@ == request_frame(compression, QUERY, query_body(statement@, *params))->Ok_0,
{
    let mut body: Vec<u8> = Vec::new();
    push_long_string(&mut body, statement);
    params.encode(&mut body);
    assert(body@ =~= query_body(statement@, *params));
    frame(QUERY, &body, compression)
}

/// A PREPARE frame.
pub fn prepare(statement: &str, compression: Compression) -> (r: Result<Vec<u8>, CompressionError>)
    ensures
        r is Ok <==> request_frame(compression, PREPARE, long_string(statement@)) is Ok,
        r is Ok ==> r->Ok_0@ == request_frame(compression, PREPARE, long_string(statement@))->Ok_0,
{
    let mut body: Vec<u8> = Vec::new();
    push_long_string(&mut body, statement);
    assert(body@ =~= long_string(statement@));
    frame(PREPARE, &body, compression)
}

/// The body of an EXECUTE.
pub open spec fn execute_body(id: Seq<u8>, p: QueryParameters) -> Seq<u8> {
    u16_be(16) + id + query_parameters_bytes(p)
}

/// An EXECUTE frame for a prepared statement.
pub fn execute(id: &[u8; 16], params: &QueryParameters, compression: Compression) -> (r: Result<Vec<u8>, CompressionError>)
    ensures
        r is Ok <==> request_frame(compression, EXECUTE, execute_body(id@, *params)) is Ok,
        r is Ok ==> r->Ok_0@ == request_frame(compression, EXECUTE, execute_body(id@, *params))->Ok_0,
{
    let mut body: Vec<u8> = Vec::new();
    push_u16(&mut body, 16);
    push_all(&mut body, id.as_slice());
    params.encode(&mut body);
    assert(body@ =~= execute_body(id@, *params));
    frame(EXECUTE, &body, compression)
}

} // verus!
