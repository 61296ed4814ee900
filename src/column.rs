//! Encoding and decoding of single CQL values: `[i32 length][body]`, where a
//! length of -1 stands for NULL and -2 for UNSET.
use vstd::prelude::*;
use vstd::utf8::*;
use crate::wire::{
    lemma_i16_round_trip, lemma_i32_round_trip, lemma_i64_round_trip, lemma_u16_round_trip, lemma_u32_round_trip, lemma_u64_round_trip,
    i16_be, i16_of, i32_be, i32_of, i64_of, u16_of, u32_of, u64_of, read_u16_at, read_u32_at, read_u64_at, i64_be, push_all, push_i16, push_i32, push_i64, push_u16, push_u32, push_u64,
    u16_be, u32_be, u64_be, Reader,
};

verus! {

/// The length that marks a NULL value.
pub const NULL_LENGTH: i32 = -1;
/// The length that marks an UNSET value.
pub const UNSET_LENGTH: i32 = -2;

/// A body preceded by its length.
pub open spec fn framed(body: Seq<u8>) -> Seq<u8> {
    i32_be(body.len() as i32) + body
}

/// The NULL value.
pub struct Null;

/// The UNSET value: a bound variable that the server leaves untouched.
pub struct Unset;

/// A blob: raw bytes.
pub struct Blob(pub Vec<u8>);

/// An internet address; the body length tells the families apart.
pub enum IpAddr {
    V4([u8; 4]),
    V6([u8; 16]),
}

/// A date, as days since 1970-01-01 (negative before it).
#[derive(Clone, Copy, PartialEq, Eq, Structural, Debug)]
pub struct CqlDate {
    pub days_since_epoch: i32,
}

/// The number of nanoseconds in a day.
pub const NANOS_PER_DAY: u64 = 86_400_000_000_000;

/// A time of day, as nanoseconds since midnight.
#[derive(Clone, Copy, PartialEq, Eq, Structural, Debug)]
pub struct CqlTime {
    pub nanos: u64,
}

/// An instant, as milliseconds since the Unix epoch.
#[derive(Clone, Copy, PartialEq, Eq, Structural, Debug)]
pub struct CqlTimestamp {
    pub millis: i64,
}

/// The wire form of a date: the day number biased by 2^31.
pub open spec fn date_code(d: CqlDate) -> u32 {
    (d.days_since_epoch + 0x8000_0000) as u32
}

/// Writes values.
pub trait ColumnEncoder {
    /// The body of the value, without its length.
    spec fn column_bytes(&self) -> Seq<u8>;

    /// The value as it stands among a frame's values.
    spec fn value_bytes(&self) -> Seq<u8>;

    /// Appends the body of the value.
    fn encode_column(&self, buffer: &mut Vec<u8>)
        ensures
            final(buffer)@ == old(buffer)@ + self.column_bytes(),
    ;

    /// Appends the value with its length.
    fn encode(&self, buffer: &mut Vec<u8>)
        ensures
            final(buffer)@ == old(buffer)@ + self.value_bytes(),
    ;
}

/// Reads values.
pub trait ColumnDecoder: Sized {
    /// What a decoded value stands for.
    type Model;

    spec fn model(&self) -> Self::Model;

    /// The value that a body holds, if it is well formed.
    spec fn column_spec(s: Seq<u8>) -> Option<Self::Model>;

    /// The value at the start of `s`, with its length prefix, and how many bytes it takes.
    spec fn value_spec(s: Seq<u8>) -> Option<(Self::Model, int)>;

    /// Decodes a body.
    fn try_decode_column(bytes: &[u8]) -> (r: Option<Self>)
        ensures
            r is Some <==> Self::column_spec(bytes@) is Some,
            r is Some ==> r->0.model() == Self::column_spec(bytes@)->0,
    ;

    /// Decodes a value with its length prefix.
    fn try_decode(reader: &mut Reader) -> (r: Option<Self>)
        ensures
            final(reader).data() == old(reader).data(),
            r is Some <==> Self::value_spec(old(reader).rest()) is Some,
            r is Some ==> r->0.model() == (Self::value_spec(old(reader).rest())->0).0
                && final(reader).rest() == old(reader).rest().skip((Self::value_spec(old(reader).rest())->0).1),
    ;
}

/// Relies on `String::from_utf8`: it accepts exactly the well-formed UTF-8
/// byte sequences and returns the string that they spell.
#[verifier::external_body]
fn utf8_string(bytes: Vec<u8>) -> (r: Option<String>)
    ensures
        r is Some <==> valid_utf8(bytes@),
        r is Some ==> r->0@ == decode_utf8(bytes@),
{
    String::from_utf8(bytes).ok()
}

/// Copies a slice into a new vector.
pub fn to_vec(s: &[u8]) -> (r: Vec<u8>)
    ensures
        r@ == s@,
{
    let mut v: Vec<u8> = Vec::new();
    push_all(&mut v, s);
    assert(v@ =~= s@);
    v
}

/// Decodes UTF-8 text.
pub fn text_of(s: &[u8]) -> (r: Option<String>)
    ensures
        r is Some <==> valid_utf8(s@),
        r is Some ==> r->0@ == decode_utf8(s@),
{
    utf8_string(to_vec(s))
}

// ---- encoders ----

impl ColumnEncoder for i64 {
    open spec fn column_bytes(&self) -> Seq<u8> { i64_be(*self) }
    open spec fn value_bytes(&self) -> Seq<u8> { framed(self.column_bytes()) }
    fn encode_column(&self, buffer: &mut Vec<u8>) { push_i64(buffer, *self); }
    fn encode(&self, buffer: &mut Vec<u8>) {
        push_i32(buffer, 8);
        self.encode_column(buffer);
        assert(buffer@ =~= old(buffer)@ + self.value_bytes());
    }
}

impl ColumnEncoder for u64 {
    open spec fn column_bytes(&self) -> Seq<u8> { u64_be(*self) }
    open spec fn value_bytes(&self) -> Seq<u8> { framed(self.column_bytes()) }
    fn encode_column(&self, buffer: &mut Vec<u8>) { push_u64(buffer, *self); }
    fn encode(&self, buffer: &mut Vec<u8>) {
        push_i32(buffer, 8);
        self.encode_column(buffer);
        assert(buffer@ =~= old(buffer)@ + self.value_bytes());
    }
}

impl ColumnEncoder for i32 {
    open spec fn column_bytes(&self) -> Seq<u8> { i32_be(*self) }
    open spec fn value_bytes(&self) -> Seq<u8> { framed(self.column_bytes()) }
    fn encode_column(&self, buffer: &mut Vec<u8>) { push_i32(buffer, *self); }
    fn encode(&self, buffer: &mut Vec<u8>) {
        push_i32(buffer, 4);
        self.encode_column(buffer);
        assert(buffer@ =~= old(buffer)@ + self.value_bytes());
    }
}

impl ColumnEncoder for u32 {
    open spec fn column_bytes(&self) -> Seq<u8> { u32_be(*self) }
    open spec fn value_bytes(&self) -> Seq<u8> { framed(self.column_bytes()) }
    fn encode_column(&self, buffer: &mut Vec<u8>) { push_u32(buffer, *self); }
    fn encode(&self, buffer: &mut Vec<u8>) {
        push_i32(buffer, 4);
        self.encode_column(buffer);
        assert(buffer@ =~= old(buffer)@ + self.value_bytes());
    }
}

impl ColumnEncoder for i16 {
    open spec fn column_bytes(&self) -> Seq<u8> { i16_be(*self) }
    open spec fn value_bytes(&self) -> Seq<u8> { framed(self.column_bytes()) }
    fn encode_column(&self, buffer: &mut Vec<u8>) { push_i16(buffer, *self); }
    fn encode(&self, buffer: &mut Vec<u8>) {
        push_i32(buffer, 2);
        self.encode_column(buffer);
        assert(buffer@ =~= old(buffer)@ + self.value_bytes());
    }
}

impl ColumnEncoder for u16 {
    open spec fn column_bytes(&self) -> Seq<u8> { u16_be(*self) }
    open spec fn value_bytes(&self) -> Seq<u8> { framed(self.column_bytes()) }
    fn encode_column(&self, buffer: &mut Vec<u8>) { push_u16(buffer, *self); }
    fn encode(&self, buffer: &mut Vec<u8>) {
        push_i32(buffer, 2);
        self.encode_column(buffer);
        assert(buffer@ =~= old(buffer)@ + self.value_bytes());
    }
}

impl ColumnEncoder for i8 {
    open spec fn column_bytes(&self) -> Seq<u8> { seq![*self as u8] }
    open spec fn value_bytes(&self) -> Seq<u8> { framed(self.column_bytes()) }
    fn encode_column(&self, buffer: &mut Vec<u8>) { buffer.push(*self as u8); }
    fn encode(&self, buffer: &mut Vec<u8>) {
        push_i32(buffer, 1);
        self.encode_column(buffer);
        assert(buffer@ =~= old(buffer)@ + self.value_bytes());
    }
}

impl ColumnEncoder for u8 {
    open spec fn column_bytes(&self) -> Seq<u8> { seq![*self] }
    open spec fn value_bytes(&self) -> Seq<u8> { framed(self.column_bytes()) }
    fn encode_column(&self, buffer: &mut Vec<u8>) { buffer.push(*self); }
    fn encode(&self, buffer: &mut Vec<u8>) {
        push_i32(buffer, 1);
        self.encode_column(buffer);
        assert(buffer@ =~= old(buffer)@ + self.value_bytes());
    }
}

impl ColumnEncoder for bool {
    open spec fn column_bytes(&self) -> Seq<u8> { seq![if *self { 1u8 } else { 0u8 }] }
    open spec fn value_bytes(&self) -> Seq<u8> { framed(self.column_bytes()) }
    fn encode_column(&self, buffer: &mut Vec<u8>) { buffer.push(if *self { 1u8 } else { 0u8 }); }
    fn encode(&self, buffer: &mut Vec<u8>) {
        push_i32(buffer, 1);
        self.encode_column(buffer);
        assert(buffer@ =~= old(buffer)@ + self.value_bytes());
    }
}

impl ColumnEncoder for String {
    open spec fn column_bytes(&self) -> Seq<u8> { encode_utf8(self@) }
    open spec fn value_bytes(&self) -> Seq<u8> { framed(self.column_bytes()) }
    fn encode_column(&self, buffer: &mut Vec<u8>) {
        push_all(buffer, self.as_str().as_bytes());
    }
    fn encode(&self, buffer: &mut Vec<u8>) {
        let b = self.as_str().as_bytes();
        push_i32(buffer, b.len() as i32);
        push_all(buffer, b);
        assert(buffer@ =~= old(buffer)@ + self.value_bytes());
    }
}

impl ColumnEncoder for Blob {
    open spec fn column_bytes(&self) -> Seq<u8> { self.0@ }
    open spec fn value_bytes(&self) -> Seq<u8> { framed(self.column_bytes()) }
    fn encode_column(&self, buffer: &mut Vec<u8>) { push_all(buffer, self.0.as_slice()); }
    fn encode(&self, buffer: &mut Vec<u8>) {
        push_i32(buffer, self.0.len() as i32);
        self.encode_column(buffer);
        assert(buffer@ =~= old(buffer)@ + self.value_bytes());
    }
}

impl ColumnEncoder for IpAddr {
    open spec fn column_bytes(&self) -> Seq<u8> {
        match self {
            IpAddr::V4(o) => o@,
            IpAddr::V6(o) => o@,
        }
    }
    open spec fn value_bytes(&self) -> Seq<u8> { framed(self.column_bytes()) }
    fn encode_column(&self, buffer: &mut Vec<u8>) {
        match self {
            IpAddr::V4(o) => push_all(buffer, o.as_slice()),
            IpAddr::V6(o) => push_all(buffer, o.as_slice()),
        }
    }
    fn encode(&self, buffer: &mut Vec<u8>) {
        match self {
            IpAddr::V4(o) => push_i32(buffer, 4),
            IpAddr::V6(o) => push_i32(buffer, 16),
        }
        self.encode_column(buffer);
        assert(buffer@ =~= old(buffer)@ + self.value_bytes());
    }
}

impl ColumnEncoder for CqlDate {
    open spec fn column_bytes(&self) -> Seq<u8> { u32_be(date_code(*self)) }
    open spec fn value_bytes(&self) -> Seq<u8> { framed(self.column_bytes()) }
    fn encode_column(&self, buffer: &mut Vec<u8>) {
        push_u32(buffer, (self.days_since_epoch as i64 + 0x8000_0000) as u32);
    }
    fn encode(&self, buffer: &mut Vec<u8>) {
        push_i32(buffer, 4);
        self.encode_column(buffer);
        assert(buffer@ =~= old(buffer)@ + self.value_bytes());
    }
}

impl ColumnEncoder for CqlTime {
    open spec fn column_bytes(&self) -> Seq<u8> { u64_be(self.nanos) }
    open spec fn value_bytes(&self) -> Seq<u8> { framed(self.column_bytes()) }
    fn encode_column(&self, buffer: &mut Vec<u8>) { push_u64(buffer, self.nanos); }
    fn encode(&self, buffer: &mut Vec<u8>) {
        push_i32(buffer, 8);
        self.encode_column(buffer);
        assert(buffer@ =~= old(buffer)@ + self.value_bytes());
    }
}

impl ColumnEncoder for CqlTimestamp {
    open spec fn column_bytes(&self) -> Seq<u8> { i64_be(self.millis) }
    open spec fn value_bytes(&self) -> Seq<u8> { framed(self.column_bytes()) }
    fn encode_column(&self, buffer: &mut Vec<u8>) { push_i64(buffer, self.millis); }
    fn encode(&self, buffer: &mut Vec<u8>) {
        push_i32(buffer, 8);
        self.encode_column(buffer);
        assert(buffer@ =~= old(buffer)@ + self.value_bytes());
    }
}

impl ColumnEncoder for Null {
    open spec fn column_bytes(&self) -> Seq<u8> { i32_be(NULL_LENGTH) }
    open spec fn value_bytes(&self) -> Seq<u8> { i32_be(NULL_LENGTH) }
    fn encode_column(&self, buffer: &mut Vec<u8>) { push_i32(buffer, NULL_LENGTH); }
    fn encode(&self, buffer: &mut Vec<u8>) { push_i32(buffer, NULL_LENGTH); }
}

impl ColumnEncoder for Unset {
    open spec fn column_bytes(&self) -> Seq<u8> { i32_be(UNSET_LENGTH) }
    open spec fn value_bytes(&self) -> Seq<u8> { i32_be(UNSET_LENGTH) }
    fn encode_column(&self, buffer: &mut Vec<u8>) { push_i32(buffer, UNSET_LENGTH); }
    fn encode(&self, buffer: &mut Vec<u8>) { push_i32(buffer, UNSET_LENGTH); }
}

impl<T: ColumnEncoder> ColumnEncoder for Option<T> {
    open spec fn column_bytes(&self) -> Seq<u8> { self.value_bytes() }
    open spec fn value_bytes(&self) -> Seq<u8> {
        match self {
            Some(v) => v.value_bytes(),
            None => i32_be(UNSET_LENGTH),
        }
    }
    fn encode_column(&self, buffer: &mut Vec<u8>) { self.encode(buffer); }
    fn encode(&self, buffer: &mut Vec<u8>) {
        match self {
            Some(v) => v.encode(buffer),
            None => push_i32(buffer, UNSET_LENGTH),
        }
    }
}

/// Values written back to back, each with its length.
pub struct ColumnEncodeChain {
    pub buffer: Vec<u8>,
}

impl ColumnEncodeChain {
    /// A chain that starts with one value.
    pub fn start<T: ColumnEncoder>(first: &T) -> (r: ColumnEncodeChain)
        ensures
            r.buffer@ == first.value_bytes(),
    {
        ColumnEncodeChain { buffer: encode_new(first) }
    }

    /// Adds a value.
    pub fn chain<T: ColumnEncoder>(self, other: &T) -> (r: ColumnEncodeChain)
        ensures
            r.buffer@ == self.buffer@ + other.value_bytes(),
    {
        let mut buffer = self.buffer;
        other.encode(&mut buffer);
        ColumnEncodeChain { buffer }
    }

    /// The bytes written.
    pub fn finish(self) -> (r: Vec<u8>)
        ensures
            r == self.buffer,
    {
        self.buffer
    }
}

/// A value with its length, in a new buffer.
pub fn encode_new<T: ColumnEncoder>(value: &T) -> (r: Vec<u8>)
    ensures
        r@ == value.value_bytes(),
{
    let mut buffer: Vec<u8> = Vec::new();
    value.encode(&mut buffer);
    assert(buffer@ =~= value.value_bytes());
    buffer
}

/// A value with its length, in a new buffer with room reserved for `capacity` bytes.
pub fn encode_with_capacity<T: ColumnEncoder>(value: &T, capacity: usize) -> (r: Vec<u8>)
    ensures
        r@ == value.value_bytes(),
{
    let mut buffer: Vec<u8> = Vec::with_capacity(capacity);
    value.encode(&mut buffer);
    assert(buffer@ =~= value.value_bytes());
    buffer
}

// ---- decoders ----

impl ColumnDecoder for i64 {
    type Model = i64;
    open spec fn model(&self) -> i64 { *self }
    open spec fn column_spec(s: Seq<u8>) -> Option<i64> {
        if s.len() >= 8 { Some(i64_of(s)) } else { None }
    }
    open spec fn value_spec(s: Seq<u8>) -> Option<(i64, int)> {
        if s.len() < 4 {
            None
        } else {
            let len = i32_of(s) as int;
            if len > 0 {
                if s.len() < 4 + len {
                    None
                } else {
                    match Self::column_spec(s.subrange(4, 4 + len)) {
                        Some(v) => Some((v, 4 + len)),
                        None => None,
                    }
                }
            } else {
                match Self::column_spec(Seq::empty()) {
                    Some(v) => Some((v, 4)),
                    None => None,
                }
            }
        }
    }
    fn try_decode_column(bytes: &[u8]) -> (r: Option<i64>) {
        if bytes.len() >= 8 {
            assert(bytes@.subrange(0, 8).subrange(4, 8) =~= bytes@.subrange(4, 8));
            Some(read_u64_at(bytes, 0) as i64)
        } else {
            None
        }
    }
    fn try_decode(reader: &mut Reader) -> (r: Option<i64>) {
        let ghost s = reader.rest();
        let len = match reader.read_i32() {
            Some(l) => l,
            None => return None,
        };
        if len > 0 {
            let body = match reader.read_bytes(len as usize) {
                Some(b) => b,
                None => return None,
            };
            assert(body@ =~= s.subrange(4, 4 + len));
            assert(reader.rest() =~= s.skip(4 + len));
            Self::try_decode_column(body.as_slice())
        } else {
            let empty: Vec<u8> = Vec::new();
            assert(empty@ =~= Seq::<u8>::empty());
            Self::try_decode_column(empty.as_slice())
        }
    }
}

impl ColumnDecoder for u64 {
    type Model = u64;
    open spec fn model(&self) -> u64 { *self }
    open spec fn column_spec(s: Seq<u8>) -> Option<u64> {
        if s.len() >= 8 { Some(u64_of(s)) } else { None }
    }
    open spec fn value_spec(s: Seq<u8>) -> Option<(u64, int)> {
        if s.len() < 4 {
            None
        } else {
            let len = i32_of(s) as int;
            if len > 0 {
                if s.len() < 4 + len {
                    None
                } else {
                    match Self::column_spec(s.subrange(4, 4 + len)) {
                        Some(v) => Some((v, 4 + len)),
                        None => None,
                    }
                }
            } else {
                match Self::column_spec(Seq::empty()) {
                    Some(v) => Some((v, 4)),
                    None => None,
                }
            }
        }
    }
    fn try_decode_column(bytes: &[u8]) -> (r: Option<u64>) {
        if bytes.len() >= 8 {
            assert(bytes@.subrange(0, 8).subrange(4, 8) =~= bytes@.subrange(4, 8));
            Some(read_u64_at(bytes, 0))
        } else {
            None
        }
    }
    fn try_decode(reader: &mut Reader) -> (r: Option<u64>) {
        let ghost s = reader.rest();
        let len = match reader.read_i32() {
            Some(l) => l,
            None => return None,
        };
        if len > 0 {
            let body = match reader.read_bytes(len as usize) {
                Some(b) => b,
                None => return None,
            };
            assert(body@ =~= s.subrange(4, 4 + len));
            assert(reader.rest() =~= s.skip(4 + len));
            Self::try_decode_column(body.as_slice())
        } else {
            let empty: Vec<u8> = Vec::new();
            assert(empty@ =~= Seq::<u8>::empty());
            Self::try_decode_column(empty.as_slice())
        }
    }
}

impl ColumnDecoder for i32 {
    type Model = i32;
    open spec fn model(&self) -> i32 { *self }
    open spec fn column_spec(s: Seq<u8>) -> Option<i32> {
        if s.len() >= 4 { Some(i32_of(s)) } else { None }
    }
    open spec fn value_spec(s: Seq<u8>) -> Option<(i32, int)> {
        if s.len() < 4 {
            None
        } else {
            let len = i32_of(s) as int;
            if len > 0 {
                if s.len() < 4 + len {
                    None
                } else {
                    match Self::column_spec(s.subrange(4, 4 + len)) {
                        Some(v) => Some((v, 4 + len)),
                        None => None,
                    }
                }
            } else {
                match Self::column_spec(Seq::empty()) {
                    Some(v) => Some((v, 4)),
                    None => None,
                }
            }
        }
    }
    fn try_decode_column(bytes: &[u8]) -> (r: Option<i32>) {
        if bytes.len() >= 4 {
            Some(read_u32_at(bytes, 0) as i32)
        } else {
            None
        }
    }
    fn try_decode(reader: &mut Reader) -> (r: Option<i32>) {
        let ghost s = reader.rest();
        let len = match reader.read_i32() {
            Some(l) => l,
            None => return None,
        };
        if len > 0 {
            let body = match reader.read_bytes(len as usize) {
                Some(b) => b,
                None => return None,
            };
            assert(body@ =~= s.subrange(4, 4 + len));
            assert(reader.rest() =~= s.skip(4 + len));
            Self::try_decode_column(body.as_slice())
        } else {
            let empty: Vec<u8> = Vec::new();
            assert(empty@ =~= Seq::<u8>::empty());
            Self::try_decode_column(empty.as_slice())
        }
    }
}

impl ColumnDecoder for u32 {
    type Model = u32;
    open spec fn model(&self) -> u32 { *self }
    open spec fn column_spec(s: Seq<u8>) -> Option<u32> {
        if s.len() >= 4 { Some(u32_of(s)) } else { None }
    }
    open spec fn value_spec(s: Seq<u8>) -> Option<(u32, int)> {
        if s.len() < 4 {
            None
        } else {
            let len = i32_of(s) as int;
            if len > 0 {
                if s.len() < 4 + len {
                    None
                } else {
                    match Self::column_spec(s.subrange(4, 4 + len)) {
                        Some(v) => Some((v, 4 + len)),
                        None => None,
                    }
                }
            } else {
                match Self::column_spec(Seq::empty()) {
                    Some(v) => Some((v, 4)),
                    None => None,
                }
            }
        }
    }
    fn try_decode_column(bytes: &[u8]) -> (r: Option<u32>) {
        if bytes.len() >= 4 {
            Some(read_u32_at(bytes, 0))
        } else {
            None
        }
    }
    fn try_decode(reader: &mut Reader) -> (r: Option<u32>) {
        let ghost s = reader.rest();
        let len = match reader.read_i32() {
            Some(l) => l,
            None => return None,
        };
        if len > 0 {
            let body = match reader.read_bytes(len as usize) {
                Some(b) => b,
                None => return None,
            };
            assert(body@ =~= s.subrange(4, 4 + len));
            assert(reader.rest() =~= s.skip(4 + len));
            Self::try_decode_column(body.as_slice())
        } else {
            let empty: Vec<u8> = Vec::new();
            assert(empty@ =~= Seq::<u8>::empty());
            Self::try_decode_column(empty.as_slice())
        }
    }
}

impl ColumnDecoder for i16 {
    type Model = i16;
    open spec fn model(&self) -> i16 { *self }
    open spec fn column_spec(s: Seq<u8>) -> Option<i16> {
        if s.len() >= 2 { Some(i16_of(s)) } else { None }
    }
    open spec fn value_spec(s: Seq<u8>) -> Option<(i16, int)> {
        if s.len() < 4 {
            None
        } else {
            let len = i32_of(s) as int;
            if len > 0 {
                if s.len() < 4 + len {
                    None
                } else {
                    match Self::column_spec(s.subrange(4, 4 + len)) {
                        Some(v) => Some((v, 4 + len)),
                        None => None,
                    }
                }
            } else {
                match Self::column_spec(Seq::empty()) {
                    Some(v) => Some((v, 4)),
                    None => None,
                }
            }
        }
    }
    fn try_decode_column(bytes: &[u8]) -> (r: Option<i16>) {
        if bytes.len() >= 2 {
            Some(read_u16_at(bytes, 0) as i16)
        } else {
            None
        }
    }
    fn try_decode(reader: &mut Reader) -> (r: Option<i16>) {
        let ghost s = reader.rest();
        let len = match reader.read_i32() {
            Some(l) => l,
            None => return None,
        };
        if len > 0 {
            let body = match reader.read_bytes(len as usize) {
                Some(b) => b,
                None => return None,
            };
            assert(body@ =~= s.subrange(4, 4 + len));
            assert(reader.rest() =~= s.skip(4 + len));
            Self::try_decode_column(body.as_slice())
        } else {
            let empty: Vec<u8> = Vec::new();
            assert(empty@ =~= Seq::<u8>::empty());
            Self::try_decode_column(empty.as_slice())
        }
    }
}

impl ColumnDecoder for u16 {
    type Model = u16;
    open spec fn model(&self) -> u16 { *self }
    open spec fn column_spec(s: Seq<u8>) -> Option<u16> {
        if s.len() >= 2 { Some(u16_of(s)) } else { None }
    }
    open spec fn value_spec(s: Seq<u8>) -> Option<(u16, int)> {
        if s.len() < 4 {
            None
        } else {
            let len = i32_of(s) as int;
            if len > 0 {
                if s.len() < 4 + len {
                    None
                } else {
                    match Self::column_spec(s.subrange(4, 4 + len)) {
                        Some(v) => Some((v, 4 + len)),
                        None => None,
                    }
                }
            } else {
                match Self::column_spec(Seq::empty()) {
                    Some(v) => Some((v, 4)),
                    None => None,
                }
            }
        }
    }
    fn try_decode_column(bytes: &[u8]) -> (r: Option<u16>) {
        if bytes.len() >= 2 {
            Some(read_u16_at(bytes, 0))
        } else {
            None
        }
    }
    fn try_decode(reader: &mut Reader) -> (r: Option<u16>) {
        let ghost s = reader.rest();
        let len = match reader.read_i32() {
            Some(l) => l,
            None => return None,
        };
        if len > 0 {
            let body = match reader.read_bytes(len as usize) {
                Some(b) => b,
                None => return None,
            };
            assert(body@ =~= s.subrange(4, 4 + len));
            assert(reader.rest() =~= s.skip(4 + len));
            Self::try_decode_column(body.as_slice())
        } else {
            let empty: Vec<u8> = Vec::new();
            assert(empty@ =~= Seq::<u8>::empty());
            Self::try_decode_column(empty.as_slice())
        }
    }
}

impl ColumnDecoder for i8 {
    type Model = i8;
    open spec fn model(&self) -> i8 { *self }
    open spec fn column_spec(s: Seq<u8>) -> Option<i8> {
        if s.len() >= 1 { Some(s[0] as i8) } else { None }
    }
    open spec fn value_spec(s: Seq<u8>) -> Option<(i8, int)> {
        if s.len() < 4 {
            None
        } else {
            let len = i32_of(s) as int;
            if len > 0 {
                if s.len() < 4 + len {
                    None
                } else {
                    match Self::column_spec(s.subrange(4, 4 + len)) {
                        Some(v) => Some((v, 4 + len)),
                        None => None,
                    }
                }
            } else {
                match Self::column_spec(Seq::empty()) {
                    Some(v) => Some((v, 4)),
                    None => None,
                }
            }
        }
    }
    fn try_decode_column(bytes: &[u8]) -> (r: Option<i8>) {
        if bytes.len() >= 1 {
            Some(bytes[0] as i8)
        } else {
            None
        }
    }
    fn try_decode(reader: &mut Reader) -> (r: Option<i8>) {
        let ghost s = reader.rest();
        let len = match reader.read_i32() {
            Some(l) => l,
            None => return None,
        };
        if len > 0 {
            let body = match reader.read_bytes(len as usize) {
                Some(b) => b,
                None => return None,
            };
            assert(body@ =~= s.subrange(4, 4 + len));
            assert(reader.rest() =~= s.skip(4 + len));
            Self::try_decode_column(body.as_slice())
        } else {
            let empty: Vec<u8> = Vec::new();
            assert(empty@ =~= Seq::<u8>::empty());
            Self::try_decode_column(empty.as_slice())
        }
    }
}

impl ColumnDecoder for u8 {
    type Model = u8;
    open spec fn model(&self) -> u8 { *self }
    open spec fn column_spec(s: Seq<u8>) -> Option<u8> {
        if s.len() >= 1 { Some(s[0]) } else { None }
    }
    open spec fn value_spec(s: Seq<u8>) -> Option<(u8, int)> {
        if s.len() < 4 {
            None
        } else {
            let len = i32_of(s) as int;
            if len > 0 {
                if s.len() < 4 + len {
                    None
                } else {
                    match Self::column_spec(s.subrange(4, 4 + len)) {
                        Some(v) => Some((v, 4 + len)),
                        None => None,
                    }
                }
            } else {
                match Self::column_spec(Seq::empty()) {
                    Some(v) => Some((v, 4)),
                    None => None,
                }
            }
        }
    }
    fn try_decode_column(bytes: &[u8]) -> (r: Option<u8>) {
        if bytes.len() >= 1 {
            Some(bytes[0])
        } else {
            None
        }
    }
    fn try_decode(reader: &mut Reader) -> (r: Option<u8>) {
        let ghost s = reader.rest();
        let len = match reader.read_i32() {
            Some(l) => l,
            None => return None,
        };
        if len > 0 {
            let body = match reader.read_bytes(len as usize) {
                Some(b) => b,
                None => return None,
            };
            assert(body@ =~= s.subrange(4, 4 + len));
            assert(reader.rest() =~= s.skip(4 + len));
            Self::try_decode_column(body.as_slice())
        } else {
            let empty: Vec<u8> = Vec::new();
            assert(empty@ =~= Seq::<u8>::empty());
            Self::try_decode_column(empty.as_slice())
        }
    }
}

impl ColumnDecoder for bool {
    type Model = bool;
    open spec fn model(&self) -> bool { *self }
    open spec fn column_spec(s: Seq<u8>) -> Option<bool> {
        if s.len() >= 1 { Some(s[0] != 0) } else { None }
    }
    open spec fn value_spec(s: Seq<u8>) -> Option<(bool, int)> {
        if s.len() < 4 {
            None
        } else {
            let len = i32_of(s) as int;
            if len > 0 {
                if s.len() < 4 + len {
                    None
                } else {
                    match Self::column_spec(s.subrange(4, 4 + len)) {
                        Some(v) => Some((v, 4 + len)),
                        None => None,
                    }
                }
            } else {
                match Self::column_spec(Seq::empty()) {
                    Some(v) => Some((v, 4)),
                    None => None,
                }
            }
        }
    }
    fn try_decode_column(bytes: &[u8]) -> (r: Option<bool>) {
        if bytes.len() >= 1 {
            Some(bytes[0] != 0)
        } else {
            None
        }
    }
    fn try_decode(reader: &mut Reader) -> (r: Option<bool>) {
        let ghost s = reader.rest();
        let len = match reader.read_i32() {
            Some(l) => l,
            None => return None,
        };
        if len > 0 {
            let body = match reader.read_bytes(len as usize) {
                Some(b) => b,
                None => return None,
            };
            assert(body@ =~= s.subrange(4, 4 + len));
            assert(reader.rest() =~= s.skip(4 + len));
            Self::try_decode_column(body.as_slice())
        } else {
            let empty: Vec<u8> = Vec::new();
            assert(empty@ =~= Seq::<u8>::empty());
            Self::try_decode_column(empty.as_slice())
        }
    }
}

impl ColumnDecoder for String {
    type Model = Seq<char>;
    open spec fn model(&self) -> Seq<char> { self@ }
    open spec fn column_spec(s: Seq<u8>) -> Option<Seq<char>> {
        if valid_utf8(s) { Some(decode_utf8(s)) } else { None }
    }
    open spec fn value_spec(s: Seq<u8>) -> Option<(Seq<char>, int)> {
        if s.len() < 4 {
            None
        } else {
            let len = i32_of(s) as int;
            if len > 0 {
                if s.len() < 4 + len {
                    None
                } else {
                    match Self::column_spec(s.subrange(4, 4 + len)) {
                        Some(v) => Some((v, 4 + len)),
                        None => None,
                    }
                }
            } else {
                match Self::column_spec(Seq::empty()) {
                    Some(v) => Some((v, 4)),
                    None => None,
                }
            }
        }
    }
    fn try_decode_column(bytes: &[u8]) -> (r: Option<String>) { text_of(bytes) }
    fn try_decode(reader: &mut Reader) -> (r: Option<String>) {
        let ghost s = reader.rest();
        let len = match reader.read_i32() {
            Some(l) => l,
            None => return None,
        };
        if len > 0 {
            let body = match reader.read_bytes(len as usize) {
                Some(b) => b,
                None => return None,
            };
            assert(body@ =~= s.subrange(4, 4 + len));
            assert(reader.rest() =~= s.skip(4 + len));
            Self::try_decode_column(body.as_slice())
        } else {
            let empty: Vec<u8> = Vec::new();
            assert(empty@ =~= Seq::<u8>::empty());
            Self::try_decode_column(empty.as_slice())
        }
    }
}

impl ColumnDecoder for Blob {
    type Model = Seq<u8>;
    open spec fn model(&self) -> Seq<u8> { self.0@ }
    open spec fn column_spec(s: Seq<u8>) -> Option<Seq<u8>> { Some(s) }
    open spec fn value_spec(s: Seq<u8>) -> Option<(Seq<u8>, int)> {
        if s.len() < 4 {
            None
        } else {
            let len = i32_of(s) as int;
            if len > 0 {
                if s.len() < 4 + len {
                    None
                } else {
                    match Self::column_spec(s.subrange(4, 4 + len)) {
                        Some(v) => Some((v, 4 + len)),
                        None => None,
                    }
                }
            } else {
                match Self::column_spec(Seq::empty()) {
                    Some(v) => Some((v, 4)),
                    None => None,
                }
            }
        }
    }
    fn try_decode_column(bytes: &[u8]) -> (r: Option<Blob>) { Some(Blob(to_vec(bytes))) }
    fn try_decode(reader: &mut Reader) -> (r: Option<Blob>) {
        let ghost s = reader.rest();
        let len = match reader.read_i32() {
            Some(l) => l,
            None => return None,
        };
        if len > 0 {
            let body = match reader.read_bytes(len as usize) {
                Some(b) => b,
                None => return None,
            };
            assert(body@ =~= s.subrange(4, 4 + len));
            assert(reader.rest() =~= s.skip(4 + len));
            Self::try_decode_column(body.as_slice())
        } else {
            let empty: Vec<u8> = Vec::new();
            assert(empty@ =~= Seq::<u8>::empty());
            Self::try_decode_column(empty.as_slice())
        }
    }
}

impl ColumnDecoder for IpAddr {
    type Model = Seq<u8>;
    open spec fn model(&self) -> Seq<u8> { self.column_bytes() }
    open spec fn column_spec(s: Seq<u8>) -> Option<Seq<u8>> {
        if s.len() == 4 || s.len() == 16 { Some(s) } else { None }
    }
    open spec fn value_spec(s: Seq<u8>) -> Option<(Seq<u8>, int)> {
        if s.len() < 4 {
            None
        } else {
            let len = i32_of(s) as int;
            if len > 0 {
                if s.len() < 4 + len {
                    None
                } else {
                    match Self::column_spec(s.subrange(4, 4 + len)) {
                        Some(v) => Some((v, 4 + len)),
                        None => None,
                    }
                }
            } else {
                match Self::column_spec(Seq::empty()) {
                    Some(v) => Some((v, 4)),
                    None => None,
                }
            }
        }
    }
    fn try_decode_column(bytes: &[u8]) -> (r: Option<IpAddr>) {
        if bytes.len() == 4 {
            let o = [bytes[0], bytes[1], bytes[2], bytes[3]];
            assert(o@ =~= bytes@);
            Some(IpAddr::V4(o))
        } else if bytes.len() == 16 {
            let o = [
                bytes[0], bytes[1], bytes[2], bytes[3], bytes[4], bytes[5], bytes[6], bytes[7],
                bytes[8], bytes[9], bytes[10], bytes[11], bytes[12], bytes[13], bytes[14], bytes[15],
            ];
            assert(o@ =~= bytes@);
            Some(IpAddr::V6(o))
        } else {
            None
        }
    }
    fn try_decode(reader: &mut Reader) -> (r: Option<IpAddr>) {
        let ghost s = reader.rest();
        let len = match reader.read_i32() {
            Some(l) => l,
            None => return None,
        };
        if len > 0 {
            let body = match reader.read_bytes(len as usize) {
                Some(b) => b,
                None => return None,
            };
            assert(body@ =~= s.subrange(4, 4 + len));
            assert(reader.rest() =~= s.skip(4 + len));
            Self::try_decode_column(body.as_slice())
        } else {
            let empty: Vec<u8> = Vec::new();
            assert(empty@ =~= Seq::<u8>::empty());
            Self::try_decode_column(empty.as_slice())
        }
    }
}

impl ColumnDecoder for CqlDate {
    type Model = CqlDate;
    open spec fn model(&self) -> CqlDate { *self }
    open spec fn column_spec(s: Seq<u8>) -> Option<CqlDate> {
        if s.len() >= 4 {
            Some(CqlDate { days_since_epoch: (u32_of(s) as int - 0x8000_0000) as i32 })
        } else {
            None
        }
    }
    open spec fn value_spec(s: Seq<u8>) -> Option<(CqlDate, int)> {
        if s.len() < 4 {
            None
        } else {
            let len = i32_of(s) as int;
            if len > 0 {
                if s.len() < 4 + len {
                    None
                } else {
                    match Self::column_spec(s.subrange(4, 4 + len)) {
                        Some(v) => Some((v, 4 + len)),
                        None => None,
                    }
                }
            } else {
                match Self::column_spec(Seq::empty()) {
                    Some(v) => Some((v, 4)),
                    None => None,
                }
            }
        }
    }
    fn try_decode_column(bytes: &[u8]) -> (r: Option<CqlDate>) {
        if bytes.len() >= 4 {
            let code = read_u32_at(bytes, 0);
            Some(CqlDate { days_since_epoch: (code as i64 - 0x8000_0000) as i32 })
        } else {
            None
        }
    }
    fn try_decode(reader: &mut Reader) -> (r: Option<CqlDate>) {
        let ghost s = reader.rest();
        let len = match reader.read_i32() {
            Some(l) => l,
            None => return None,
        };
        if len > 0 {
            let body = match reader.read_bytes(len as usize) {
                Some(b) => b,
                None => return None,
            };
            assert(body@ =~= s.subrange(4, 4 + len));
            assert(reader.rest() =~= s.skip(4 + len));
            Self::try_decode_column(body.as_slice())
        } else {
            let empty: Vec<u8> = Vec::new();
            assert(empty@ =~= Seq::<u8>::empty());
            Self::try_decode_column(empty.as_slice())
        }
    }
}

impl ColumnDecoder for CqlTime {
    type Model = CqlTime;
    open spec fn model(&self) -> CqlTime { *self }
    open spec fn column_spec(s: Seq<u8>) -> Option<CqlTime> {
        if s.len() >= 8 && u64_of(s) < NANOS_PER_DAY { Some(CqlTime { nanos: u64_of(s) }) } else { None }
    }
    open spec fn value_spec(s: Seq<u8>) -> Option<(CqlTime, int)> {
        if s.len() < 4 {
            None
        } else {
            let len = i32_of(s) as int;
            if len > 0 {
                if s.len() < 4 + len {
                    None
                } else {
                    match Self::column_spec(s.subrange(4, 4 + len)) {
                        Some(v) => Some((v, 4 + len)),
                        None => None,
                    }
                }
            } else {
                match Self::column_spec(Seq::empty()) {
                    Some(v) => Some((v, 4)),
                    None => None,
                }
            }
        }
    }
    fn try_decode_column(bytes: &[u8]) -> (r: Option<CqlTime>) {
        if bytes.len() >= 8 {
            assert(bytes@.subrange(0, 8).subrange(4, 8) =~= bytes@.subrange(4, 8));
            let nanos = read_u64_at(bytes, 0);
            if nanos < NANOS_PER_DAY { Some(CqlTime { nanos }) } else { None }
        } else {
            None
        }
    }
    fn try_decode(reader: &mut Reader) -> (r: Option<CqlTime>) {
        let ghost s = reader.rest();
        let len = match reader.read_i32() {
            Some(l) => l,
            None => return None,
        };
        if len > 0 {
            let body = match reader.read_bytes(len as usize) {
                Some(b) => b,
                None => return None,
            };
            assert(body@ =~= s.subrange(4, 4 + len));
            assert(reader.rest() =~= s.skip(4 + len));
            Self::try_decode_column(body.as_slice())
        } else {
            let empty: Vec<u8> = Vec::new();
            assert(empty@ =~= Seq::<u8>::empty());
            Self::try_decode_column(empty.as_slice())
        }
    }
}

impl ColumnDecoder for CqlTimestamp {
    type Model = CqlTimestamp;
    open spec fn model(&self) -> CqlTimestamp { *self }
    open spec fn column_spec(s: Seq<u8>) -> Option<CqlTimestamp> {
        if s.len() >= 8 { Some(CqlTimestamp { millis: i64_of(s) }) } else { None }
    }
    open spec fn value_spec(s: Seq<u8>) -> Option<(CqlTimestamp, int)> {
        if s.len() < 4 {
            None
        } else {
            let len = i32_of(s) as int;
            if len > 0 {
                if s.len() < 4 + len {
                    None
                } else {
                    match Self::column_spec(s.subrange(4, 4 + len)) {
                        Some(v) => Some((v, 4 + len)),
                        None => None,
                    }
                }
            } else {
                match Self::column_spec(Seq::empty()) {
                    Some(v) => Some((v, 4)),
                    None => None,
                }
            }
        }
    }
    fn try_decode_column(bytes: &[u8]) -> (r: Option<CqlTimestamp>) {
        if bytes.len() >= 8 {
            assert(bytes@.subrange(0, 8).subrange(4, 8) =~= bytes@.subrange(4, 8));
            Some(CqlTimestamp { millis: read_u64_at(bytes, 0) as i64 })
        } else {
            None
        }
    }
    fn try_decode(reader: &mut Reader) -> (r: Option<CqlTimestamp>) {
        let ghost s = reader.rest();
        let len = match reader.read_i32() {
            Some(l) => l,
            None => return None,
        };
        if len > 0 {
            let body = match reader.read_bytes(len as usize) {
                Some(b) => b,
                None => return None,
            };
            assert(body@ =~= s.subrange(4, 4 + len));
            assert(reader.rest() =~= s.skip(4 + len));
            Self::try_decode_column(body.as_slice())
        } else {
            let empty: Vec<u8> = Vec::new();
            assert(empty@ =~= Seq::<u8>::empty());
            Self::try_decode_column(empty.as_slice())
        }
    }
}

/// An optional value: a negative length (NULL or UNSET) reads as absent.
pub open spec fn optional_value<T: ColumnDecoder>(s: Seq<u8>) -> Option<(Option<T::Model>, int)> {
    if s.len() < 4 {
        None
    } else {
        let len = i32_of(s) as int;
        if len >= 0 {
            if s.len() < 4 + len {
                None
            } else {
                match T::column_spec(s.subrange(4, 4 + len)) {
                    Some(v) => Some((Some(v), 4 + len)),
                    None => None,
                }
            }
        } else {
            Some((None, 4))
        }
    }
}

impl<T: ColumnDecoder> ColumnDecoder for Option<T> {
    type Model = Option<T::Model>;
    open spec fn model(&self) -> Option<T::Model> {
        match self {
            Some(v) => Some(v.model()),
            None => None,
        }
    }
    open spec fn column_spec(s: Seq<u8>) -> Option<Option<T::Model>> {
        match optional_value::<T>(s) {
            Some(p) => Some(p.0),
            None => None,
        }
    }
    open spec fn value_spec(s: Seq<u8>) -> Option<(Option<T::Model>, int)> { optional_value::<T>(s) }
    fn try_decode_column(bytes: &[u8]) -> (r: Option<Option<T>>) {
        let mut reader = Reader::from_slice(bytes);
        Self::try_decode(&mut reader)
    }
    fn try_decode(reader: &mut Reader) -> (r: Option<Option<T>>) {
        let ghost s = reader.rest();
        let len = match reader.read_i32() {
            Some(l) => l,
            None => return None,
        };
        if len >= 0 {
            let body = match reader.read_bytes(len as usize) {
                Some(b) => b,
                None => return None,
            };
            assert(body@ =~= s.subrange(4, 4 + len));
            assert(reader.rest() =~= s.skip(4 + len));
            match T::try_decode_column(body.as_slice()) {
                Some(v) => Some(Some(v)),
                None => None,
            }
        } else {
            Some(None)
        }
    }
}

// ---- lists ----

/// The values of a list, one after another, each with its length.
pub open spec fn items_bytes<E: ColumnEncoder>(s: Seq<E>) -> Seq<u8>
    decreases s.len(),
{
    if s.len() == 0 {
        Seq::empty()
    } else {
        items_bytes(s.drop_last()) + s.last().value_bytes()
    }
}

/// Reads `n` values from the front of `s`: what they stand for and what is left after them.
pub open spec fn items_spec<E: ColumnDecoder>(s: Seq<u8>, n: int) -> Option<(Seq<E::Model>, Seq<u8>)>
    decreases n,
{
    if n <= 0 {
        Some((Seq::empty(), s))
    } else {
        match items_spec::<E>(s, n - 1) {
            Some(p) => match E::value_spec(p.1) {
                Some(q) => Some((p.0.push(q.0), p.1.skip(q.1))),
                None => None,
            },
            None => None,
        }
    }
}

/// Once a value fails to read, no longer run of values reads.
pub proof fn lemma_items_fail_later<E: ColumnDecoder>(s: Seq<u8>, n: int, m: int)
    requires
        n <= m,
        items_spec::<E>(s, n) is None,
    ensures
        items_spec::<E>(s, m) is None,
    decreases m - n,
{
    if n < m {
        lemma_items_fail_later::<E>(s, n, m - 1);
    }
}

/// What the values of a vector stand for.
pub open spec fn models<E: ColumnDecoder>(s: Seq<E>) -> Seq<E::Model> {
    s.map_values(|e: E| e.model())
}

impl<E: ColumnEncoder> ColumnEncoder for Vec<E> {
    open spec fn column_bytes(&self) -> Seq<u8> {
        i32_be(self@.len() as i32) + items_bytes(self@)
    }
    open spec fn value_bytes(&self) -> Seq<u8> { framed(self.column_bytes()) }
    fn encode_column(&self, buffer: &mut Vec<u8>) {
        push_i32(buffer, self.len() as i32);
        let mut i: usize = 0;
        while i < self.len()
            invariant
                i <= self@.len(),
                buffer@ == old(buffer)@ + i32_be(self@.len() as i32) + items_bytes(self@.take(i as int)),
            decreases self@.len() - i,
        {
            self[i].encode(buffer);
            i = i + 1;
            assert(self@.take(i as int).drop_last() =~= self@.take(i - 1));
            assert(buffer@ =~= old(buffer)@ + i32_be(self@.len() as i32) + items_bytes(self@.take(i as int)));
        }
        assert(self@.take(i as int) =~= self@);
        assert(buffer@ =~= old(buffer)@ + self.column_bytes());
    }
    fn encode(&self, buffer: &mut Vec<u8>) {
        let mut body: Vec<u8> = Vec::new();
        self.encode_column(&mut body);
        push_i32(buffer, body.len() as i32);
        push_all(buffer, body.as_slice());
        assert(body@ =~= self.column_bytes());
        assert(buffer@ =~= old(buffer)@ + self.value_bytes());
    }
}

impl<E: ColumnDecoder> ColumnDecoder for Vec<E> {
    type Model = Seq<E::Model>;
    open spec fn model(&self) -> Seq<E::Model> { models(self@) }
    open spec fn column_spec(s: Seq<u8>) -> Option<Seq<E::Model>> {
        if s.len() < 4 {
            None
        } else {
            match items_spec::<E>(s.skip(4), i32_of(s) as int) {
                Some(p) => Some(p.0),
                None => None,
            }
        }
    }
    open spec fn value_spec(s: Seq<u8>) -> Option<(Seq<E::Model>, int)> {
        if s.len() < 4 {
            None
        } else {
            let len = i32_of(s) as int;
            if len > 0 {
                if s.len() < 4 + len {
                    None
                } else {
                    match Self::column_spec(s.subrange(4, 4 + len)) {
                        Some(v) => Some((v, 4 + len)),
                        None => None,
                    }
                }
            } else {
                match Self::column_spec(Seq::empty()) {
                    Some(v) => Some((v, 4)),
                    None => None,
                }
            }
        }
    }
    fn try_decode_column(bytes: &[u8]) -> (r: Option<Vec<E>>) {
        let mut reader = Reader::from_slice(bytes);
        let count = match reader.read_i32() {
            Some(c) => c,
            None => return None,
        };
        let ghost s4 = bytes@.skip(4);
        assert(reader.rest() =~= s4);
        let mut list: Vec<E> = Vec::new();
        let mut i: i32 = 0;
        while i < count
            invariant
                0 <= i <= count || (count < 0 && i == 0),
                count == i32_of(bytes@),
                bytes@.len() >= 4,
                s4 == bytes@.skip(4),
                items_spec::<E>(s4, i as int) is Some,
                models(list@) == (items_spec::<E>(s4, i as int)->0).0,
                reader.rest() == (items_spec::<E>(s4, i as int)->0).1,
            decreases count - i,
        {
            let ghost prev = list@;
            match E::try_decode(&mut reader) {
                Some(item) => {
                    list.push(item);
                    assert(list@ =~= prev.push(item));
                    assert(models(list@) =~= models(prev).push(item.model()));
                }
                None => {
                    proof {
                        assert(items_spec::<E>(s4, i + 1) is None);
                        lemma_items_fail_later::<E>(s4, i + 1, count as int);
                    }
                    return None;
                },
            }
            i = i + 1;
        }
        Some(list)
    }
    fn try_decode(reader: &mut Reader) -> (r: Option<Vec<E>>) {
        let ghost s = reader.rest();
        let len = match reader.read_i32() {
            Some(l) => l,
            None => return None,
        };
        if len > 0 {
            let body = match reader.read_bytes(len as usize) {
                Some(b) => b,
                None => return None,
            };
            assert(body@ =~= s.subrange(4, 4 + len));
            assert(reader.rest() =~= s.skip(4 + len));
            Self::try_decode_column(body.as_slice())
        } else {
            let empty: Vec<u8> = Vec::new();
            assert(empty@ =~= Seq::<u8>::empty());
            Self::try_decode_column(empty.as_slice())
        }
    }
}

// ---- tuples and maps ----

/// A pair of values, written as a CQL tuple: each component with its length.
impl<A: ColumnEncoder, B: ColumnEncoder> ColumnEncoder for (A, B) {
    open spec fn column_bytes(&self) -> Seq<u8> {
        self.0.value_bytes() + self.1.value_bytes()
    }
    open spec fn value_bytes(&self) -> Seq<u8> { framed(self.column_bytes()) }
    fn encode_column(&self, buffer: &mut Vec<u8>) {
        self.0.encode(buffer);
        self.1.encode(buffer);
        assert(buffer@ =~= old(buffer)@ + self.column_bytes());
    }
    fn encode(&self, buffer: &mut Vec<u8>) {
        let mut body: Vec<u8> = Vec::new();
        self.encode_column(&mut body);
        push_i32(buffer, body.len() as i32);
        push_all(buffer, body.as_slice());
        assert(body@ =~= self.column_bytes());
        assert(buffer@ =~= old(buffer)@ + self.value_bytes());
    }
}

/// Reads two values one after the other: what they stand for and what is left.
pub open spec fn pair_spec<A: ColumnDecoder, B: ColumnDecoder>(s: Seq<u8>) -> Option<((A::Model, B::Model), Seq<u8>)> {
    match A::value_spec(s) {
        Some(x) => match B::value_spec(s.skip(x.1)) {
            Some(y) => Some(((x.0, y.0), s.skip(x.1).skip(y.1))),
            None => None,
        },
        None => None,
    }
}

/// Reads a value of type `A` and then one of type `B`.
fn read_pair<A: ColumnDecoder, B: ColumnDecoder>(reader: &mut Reader) -> (r: Option<(A, B)>)
    ensures
        final(reader).data() == old(reader).data(),
        r is Some <==> pair_spec::<A, B>(old(reader).rest()) is Some,
        r is Some ==> ((r->0).0.model(), (r->0).1.model()) == (pair_spec::<A, B>(old(reader).rest())->0).0
            && final(reader).rest() == (pair_spec::<A, B>(old(reader).rest())->0).1,
{
    let a = match A::try_decode(reader) {
        Some(a) => a,
        None => return None,
    };
    let b = match B::try_decode(reader) {
        Some(b) => b,
        None => return None,
    };
    Some((a, b))
}

impl<A: ColumnDecoder, B: ColumnDecoder> ColumnDecoder for (A, B) {
    type Model = (A::Model, B::Model);
    open spec fn model(&self) -> (A::Model, B::Model) { (self.0.model(), self.1.model()) }
    open spec fn column_spec(s: Seq<u8>) -> Option<(A::Model, B::Model)> {
        match pair_spec::<A, B>(s) {
            Some(p) => Some(p.0),
            None => None,
        }
    }
    open spec fn value_spec(s: Seq<u8>) -> Option<((A::Model, B::Model), int)> {
        if s.len() < 4 {
            None
        } else {
            let len = i32_of(s) as int;
            if len > 0 {
                if s.len() < 4 + len {
                    None
                } else {
                    match Self::column_spec(s.subrange(4, 4 + len)) {
                        Some(v) => Some((v, 4 + len)),
                        None => None,
                    }
                }
            } else {
                match Self::column_spec(Seq::empty()) {
                    Some(v) => Some((v, 4)),
                    None => None,
                }
            }
        }
    }
    fn try_decode_column(bytes: &[u8]) -> (r: Option<(A, B)>) {
        let mut reader = Reader::from_slice(bytes);
        read_pair::<A, B>(&mut reader)
    }
    fn try_decode(reader: &mut Reader) -> (r: Option<(A, B)>) {
        let ghost s = reader.rest();
        let len = match reader.read_i32() {
            Some(l) => l,
            None => return None,
        };
        if len > 0 {
            let body = match reader.read_bytes(len as usize) {
                Some(b) => b,
                None => return None,
            };
            assert(body@ =~= s.subrange(4, 4 + len));
            assert(reader.rest() =~= s.skip(4 + len));
            Self::try_decode_column(body.as_slice())
        } else {
            let empty: Vec<u8> = Vec::new();
            assert(empty@ =~= Seq::<u8>::empty());
            Self::try_decode_column(empty.as_slice())
        }
    }
}

/// A map, as its entries in the order they are written.
pub struct CqlMap<K, V>(pub Vec<(K, V)>);

/// The entries of a map, one after another, each key and value with its length.
pub open spec fn entries_bytes<K: ColumnEncoder, V: ColumnEncoder>(s: Seq<(K, V)>) -> Seq<u8>
    decreases s.len(),
{
    if s.len() == 0 {
        Seq::empty()
    } else {
        entries_bytes(s.drop_last()) + s.last().column_bytes()
    }
}

/// Reads `n` entries from the front of `s`: what they stand for and what is left.
pub open spec fn entries_spec<K: ColumnDecoder, V: ColumnDecoder>(s: Seq<u8>, n: int) -> Option<(Seq<(K::Model, V::Model)>, Seq<u8>)>
    decreases n,
{
    if n <= 0 {
        Some((Seq::empty(), s))
    } else {
        match entries_spec::<K, V>(s, n - 1) {
            Some(p) => match pair_spec::<K, V>(p.1) {
                Some(q) => Some((p.0.push(q.0), q.1)),
                None => None,
            },
            None => None,
        }
    }
}

/// Once an entry fails to read, no longer run of entries reads.
pub proof fn lemma_entries_fail_later<K: ColumnDecoder, V: ColumnDecoder>(s: Seq<u8>, n: int, m: int)
    requires
        n <= m,
        entries_spec::<K, V>(s, n) is None,
    ensures
        entries_spec::<K, V>(s, m) is None,
    decreases m - n,
{
    if n < m {
        lemma_entries_fail_later::<K, V>(s, n, m - 1);
    }
}

/// What the entries of a map stand for.
pub open spec fn entry_models<K: ColumnDecoder, V: ColumnDecoder>(s: Seq<(K, V)>) -> Seq<(K::Model, V::Model)> {
    s.map_values(|e: (K, V)| (e.0.model(), e.1.model()))
}

impl<K: ColumnEncoder, V: ColumnEncoder> ColumnEncoder for CqlMap<K, V> {
    open spec fn column_bytes(&self) -> Seq<u8> {
        i32_be(self.0@.len() as i32) + entries_bytes(self.0@)
    }
    open spec fn value_bytes(&self) -> Seq<u8> { framed(self.column_bytes()) }
    fn encode_column(&self, buffer: &mut Vec<u8>) {
        push_i32(buffer, self.0.len() as i32);
        let mut i: usize = 0;
        while i < self.0.len()
            invariant
                i <= self.0@.len(),
                buffer@ == old(buffer)@ + i32_be(self.0@.len() as i32) + entries_bytes(self.0@.take(i as int)),
            decreases self.0@.len() - i,
        {
            self.0[i].encode_column(buffer);
            i = i + 1;
            assert(self.0@.take(i as int).drop_last() =~= self.0@.take(i - 1));
            assert(buffer@ =~= old(buffer)@ + i32_be(self.0@.len() as i32) + entries_bytes(self.0@.take(i as int)));
        }
        assert(self.0@.take(i as int) =~= self.0@);
        assert(buffer@ =~= old(buffer)@ + self.column_bytes());
    }
    fn encode(&self, buffer: &mut Vec<u8>) {
        let mut body: Vec<u8> = Vec::new();
        self.encode_column(&mut body);
        push_i32(buffer, body.len() as i32);
        push_all(buffer, body.as_slice());
        assert(body@ =~= self.column_bytes());
        assert(buffer@ =~= old(buffer)@ + self.value_bytes());
    }
}

impl<K: ColumnDecoder, V: ColumnDecoder> ColumnDecoder for CqlMap<K, V> {
    type Model = Seq<(K::Model, V::Model)>;
    open spec fn model(&self) -> Seq<(K::Model, V::Model)> { entry_models(self.0@) }
    open spec fn column_spec(s: Seq<u8>) -> Option<Seq<(K::Model, V::Model)>> {
        if s.len() < 4 {
            None
        } else {
            match entries_spec::<K, V>(s.skip(4), i32_of(s) as int) {
                Some(p) => Some(p.0),
                None => None,
            }
        }
    }
    open spec fn value_spec(s: Seq<u8>) -> Option<(Seq<(K::Model, V::Model)>, int)> {
        if s.len() < 4 {
            None
        } else {
            let len = i32_of(s) as int;
            if len > 0 {
                if s.len() < 4 + len {
                    None
                } else {
                    match Self::column_spec(s.subrange(4, 4 + len)) {
                        Some(v) => Some((v, 4 + len)),
                        None => None,
                    }
                }
            } else {
                match Self::column_spec(Seq::empty()) {
                    Some(v) => Some((v, 4)),
                    None => None,
                }
            }
        }
    }
    fn try_decode_column(bytes: &[u8]) -> (r: Option<CqlMap<K, V>>) {
        let mut reader = Reader::from_slice(bytes);
        let count = match reader.read_i32() {
            Some(c) => c,
            None => return None,
        };
        let ghost s4 = bytes@.skip(4);
        assert(reader.rest() =~= s4);
        let mut entries: Vec<(K, V)> = Vec::new();
        let mut i: i32 = 0;
        while i < count
            invariant
                0 <= i <= count || (count < 0 && i == 0),
                count == i32_of(bytes@),
                bytes@.len() >= 4,
                s4 == bytes@.skip(4),
                entries_spec::<K, V>(s4, i as int) is Some,
                entry_models(entries@) == (entries_spec::<K, V>(s4, i as int)->0).0,
                reader.rest() == (entries_spec::<K, V>(s4, i as int)->0).1,
            decreases count - i,
        {
            let ghost prev = entries@;
            match read_pair::<K, V>(&mut reader) {
                Some(e) => {
                    entries.push(e);
                    assert(entries@ =~= prev.push(e));
                    assert(entry_models(entries@) =~= entry_models(prev).push((e.0.model(), e.1.model())));
                },
                None => {
                    proof {
                        lemma_entries_fail_later::<K, V>(s4, i + 1, count as int);
                    }
                    return None;
                },
            }
            i = i + 1;
        }
        Some(CqlMap(entries))
    }
    fn try_decode(reader: &mut Reader) -> (r: Option<CqlMap<K, V>>) {
        let ghost s = reader.rest();
        let len = match reader.read_i32() {
            Some(l) => l,
            None => return None,
        };
        if len > 0 {
            let body = match reader.read_bytes(len as usize) {
                Some(b) => b,
                None => return None,
            };
            assert(body@ =~= s.subrange(4, 4 + len));
            assert(reader.rest() =~= s.skip(4 + len));
            Self::try_decode_column(body.as_slice())
        } else {
            let empty: Vec<u8> = Vec::new();
            assert(empty@ =~= Seq::<u8>::empty());
            Self::try_decode_column(empty.as_slice())
        }
    }
}

// ---- round trips ----

/// A value type whose decoder reads back what its encoder wrote.
pub trait ColumnCodec: ColumnEncoder + ColumnDecoder {
    /// The values that survive the trip (text that fits a length, a time within a day).
    spec fn valid(&self) -> bool;

    /// Decoding the body gives the value back.
    proof fn lemma_column_round_trip(&self)
        requires
            self.valid(),
        ensures
            Self::column_spec(self.column_bytes()) == Some(self.model()),
    ;

    /// Decoding the value with its length, whatever follows it, gives the value back
    /// and consumes exactly what was written.
    proof fn lemma_value_round_trip(&self, rest: Seq<u8>)
        requires
            self.valid(),
        ensures
            Self::value_spec(self.value_bytes() + rest) == Some((self.model(), self.value_bytes().len() as int)),
    ;
}

/// The length prefix of a framed body reads back as the body's length.
pub proof fn lemma_framed_parts(col: Seq<u8>, rest: Seq<u8>)
    requires
        col.len() <= i32::MAX,
    ensures
        (framed(col) + rest).len() >= 4,
        i32_of(framed(col) + rest) == col.len(),
        (framed(col) + rest).subrange(4, 4 + col.len() as int) == col,
        framed(col).len() == 4 + col.len(),
{
    lemma_i32_round_trip(col.len() as i32);
    assert((framed(col) + rest).subrange(4, 4 + col.len() as int) =~= col);
    assert(i32_of(framed(col) + rest) == i32_of(i32_be(col.len() as i32)));
}

impl ColumnCodec for i64 {
    open spec fn valid(&self) -> bool { true }
    proof fn lemma_column_round_trip(&self) {
        lemma_i64_round_trip(*self);
    }
    proof fn lemma_value_round_trip(&self, rest: Seq<u8>) {
        self.lemma_column_round_trip();
        lemma_framed_parts(self.column_bytes(), rest);
        if self.column_bytes().len() == 0 {
            assert(self.column_bytes() =~= Seq::<u8>::empty());
        }
    }
}

impl ColumnCodec for u64 {
    open spec fn valid(&self) -> bool { true }
    proof fn lemma_column_round_trip(&self) {
        lemma_u64_round_trip(*self);
    }
    proof fn lemma_value_round_trip(&self, rest: Seq<u8>) {
        self.lemma_column_round_trip();
        lemma_framed_parts(self.column_bytes(), rest);
        if self.column_bytes().len() == 0 {
            assert(self.column_bytes() =~= Seq::<u8>::empty());
        }
    }
}

impl ColumnCodec for i32 {
    open spec fn valid(&self) -> bool { true }
    proof fn lemma_column_round_trip(&self) {
        lemma_i32_round_trip(*self);
    }
    proof fn lemma_value_round_trip(&self, rest: Seq<u8>) {
        self.lemma_column_round_trip();
        lemma_framed_parts(self.column_bytes(), rest);
        if self.column_bytes().len() == 0 {
            assert(self.column_bytes() =~= Seq::<u8>::empty());
        }
    }
}

impl ColumnCodec for u32 {
    open spec fn valid(&self) -> bool { true }
    proof fn lemma_column_round_trip(&self) {
        lemma_u32_round_trip(*self);
    }
    proof fn lemma_value_round_trip(&self, rest: Seq<u8>) {
        self.lemma_column_round_trip();
        lemma_framed_parts(self.column_bytes(), rest);
        if self.column_bytes().len() == 0 {
            assert(self.column_bytes() =~= Seq::<u8>::empty());
        }
    }
}

impl ColumnCodec for i16 {
    open spec fn valid(&self) -> bool { true }
    proof fn lemma_column_round_trip(&self) {
        lemma_i16_round_trip(*self);
    }
    proof fn lemma_value_round_trip(&self, rest: Seq<u8>) {
        self.lemma_column_round_trip();
        lemma_framed_parts(self.column_bytes(), rest);
        if self.column_bytes().len() == 0 {
            assert(self.column_bytes() =~= Seq::<u8>::empty());
        }
    }
}

impl ColumnCodec for u16 {
    open spec fn valid(&self) -> bool { true }
    proof fn lemma_column_round_trip(&self) {
        lemma_u16_round_trip(*self);
    }
    proof fn lemma_value_round_trip(&self, rest: Seq<u8>) {
        self.lemma_column_round_trip();
        lemma_framed_parts(self.column_bytes(), rest);
        if self.column_bytes().len() == 0 {
            assert(self.column_bytes() =~= Seq::<u8>::empty());
        }
    }
}

impl ColumnCodec for i8 {
    open spec fn valid(&self) -> bool { true }
    proof fn lemma_column_round_trip(&self) {
        assert((*self as u8) as i8 == *self) by (bit_vector);
    }
    proof fn lemma_value_round_trip(&self, rest: Seq<u8>) {
        self.lemma_column_round_trip();
        lemma_framed_parts(self.column_bytes(), rest);
        if self.column_bytes().len() == 0 {
            assert(self.column_bytes() =~= Seq::<u8>::empty());
        }
    }
}

impl ColumnCodec for u8 {
    open spec fn valid(&self) -> bool { true }
    proof fn lemma_column_round_trip(&self) {
        
    }
    proof fn lemma_value_round_trip(&self, rest: Seq<u8>) {
        self.lemma_column_round_trip();
        lemma_framed_parts(self.column_bytes(), rest);
        if self.column_bytes().len() == 0 {
            assert(self.column_bytes() =~= Seq::<u8>::empty());
        }
    }
}

impl ColumnCodec for bool {
    open spec fn valid(&self) -> bool { true }
    proof fn lemma_column_round_trip(&self) {
        
    }
    proof fn lemma_value_round_trip(&self, rest: Seq<u8>) {
        self.lemma_column_round_trip();
        lemma_framed_parts(self.column_bytes(), rest);
        if self.column_bytes().len() == 0 {
            assert(self.column_bytes() =~= Seq::<u8>::empty());
        }
    }
}

impl ColumnCodec for String {
    open spec fn valid(&self) -> bool { encode_utf8(self@).len() <= i32::MAX }
    proof fn lemma_column_round_trip(&self) {
        encode_utf8_valid_utf8(self@);
        encode_utf8_decode_utf8(self@);
    }
    proof fn lemma_value_round_trip(&self, rest: Seq<u8>) {
        self.lemma_column_round_trip();
        lemma_framed_parts(self.column_bytes(), rest);
        if self.column_bytes().len() == 0 {
            assert(self.column_bytes() =~= Seq::<u8>::empty());
        }
    }
}

impl ColumnCodec for Blob {
    open spec fn valid(&self) -> bool { self.0@.len() <= i32::MAX }
    proof fn lemma_column_round_trip(&self) {
        
    }
    proof fn lemma_value_round_trip(&self, rest: Seq<u8>) {
        self.lemma_column_round_trip();
        lemma_framed_parts(self.column_bytes(), rest);
        if self.column_bytes().len() == 0 {
            assert(self.column_bytes() =~= Seq::<u8>::empty());
        }
    }
}

impl ColumnCodec for IpAddr {
    open spec fn valid(&self) -> bool { true }
    proof fn lemma_column_round_trip(&self) {
        
    }
    proof fn lemma_value_round_trip(&self, rest: Seq<u8>) {
        self.lemma_column_round_trip();
        lemma_framed_parts(self.column_bytes(), rest);
        if self.column_bytes().len() == 0 {
            assert(self.column_bytes() =~= Seq::<u8>::empty());
        }
    }
}

impl ColumnCodec for CqlDate {
    open spec fn valid(&self) -> bool { true }
    proof fn lemma_column_round_trip(&self) {
        lemma_u32_round_trip(date_code(*self));
    }
    proof fn lemma_value_round_trip(&self, rest: Seq<u8>) {
        self.lemma_column_round_trip();
        lemma_framed_parts(self.column_bytes(), rest);
        if self.column_bytes().len() == 0 {
            assert(self.column_bytes() =~= Seq::<u8>::empty());
        }
    }
}

impl ColumnCodec for CqlTime {
    open spec fn valid(&self) -> bool { self.nanos < NANOS_PER_DAY }
    proof fn lemma_column_round_trip(&self) {
        lemma_u64_round_trip(self.nanos);
    }
    proof fn lemma_value_round_trip(&self, rest: Seq<u8>) {
        self.lemma_column_round_trip();
        lemma_framed_parts(self.column_bytes(), rest);
        if self.column_bytes().len() == 0 {
            assert(self.column_bytes() =~= Seq::<u8>::empty());
        }
    }
}

impl ColumnCodec for CqlTimestamp {
    open spec fn valid(&self) -> bool { true }
    proof fn lemma_column_round_trip(&self) {
        lemma_i64_round_trip(self.millis);
    }
    proof fn lemma_value_round_trip(&self, rest: Seq<u8>) {
        self.lemma_column_round_trip();
        lemma_framed_parts(self.column_bytes(), rest);
        if self.column_bytes().len() == 0 {
            assert(self.column_bytes() =~= Seq::<u8>::empty());
        }
    }
}

/// A run of values reads back as the values, leaving what followed them.
pub proof fn lemma_items_round_trip<E: ColumnCodec>(s: Seq<E>, rest: Seq<u8>)
    requires
        forall|i: int| 0 <= i < s.len() ==> (#[trigger] s[i]).valid(),
    ensures
        items_spec::<E>(items_bytes(s) + rest, s.len() as int) == Some((models(s), rest)),
    decreases s.len(),
{
    if s.len() > 0 {
        let e = s.last();
        let init = s.drop_last();
        assert(forall|i: int| 0 <= i < init.len() ==> init[i] == s[i]);
        lemma_items_round_trip::<E>(init, e.value_bytes() + rest);
        assert(items_bytes(s) + rest =~= items_bytes(init) + (e.value_bytes() + rest));
        assert(s[s.len() - 1].valid());
        e.lemma_value_round_trip(rest);
        assert((e.value_bytes() + rest).skip(e.value_bytes().len() as int) =~= rest);
        assert(models(s) =~= models(init).push(e.model()));
    } else {
        assert(items_bytes(s) + rest =~= rest);
        assert(models(s) =~= Seq::<E::Model>::empty());
    }
}

impl<E: ColumnCodec> ColumnCodec for Vec<E> {
    open spec fn valid(&self) -> bool {
        &&& forall|i: int| 0 <= i < self@.len() ==> (#[trigger] self@[i]).valid()
        &&& self@.len() <= i32::MAX
        &&& self.column_bytes().len() <= i32::MAX
    }
    proof fn lemma_column_round_trip(&self) {
        lemma_i32_round_trip(self@.len() as i32);
        lemma_items_round_trip::<E>(self@, Seq::empty());
        assert(self.column_bytes().skip(4) =~= items_bytes(self@) + Seq::<u8>::empty());
        assert(i32_of(self.column_bytes()) == i32_of(i32_be(self@.len() as i32)));
    }
    proof fn lemma_value_round_trip(&self, rest: Seq<u8>) {
        self.lemma_column_round_trip();
        lemma_framed_parts(self.column_bytes(), rest);
    }
}

impl<T: ColumnCodec> ColumnCodec for Option<T> {
    open spec fn valid(&self) -> bool {
        match self {
            Some(v) => v.valid() && v.value_bytes() == framed(v.column_bytes()) && v.column_bytes().len() <= i32::MAX,
            None => true,
        }
    }
    proof fn lemma_column_round_trip(&self) {
        self.lemma_value_round_trip(Seq::empty());
        assert(self.value_bytes() + Seq::<u8>::empty() =~= self.value_bytes());
    }
    proof fn lemma_value_round_trip(&self, rest: Seq<u8>) {
        match self {
            Some(v) => {
                v.lemma_column_round_trip();
                lemma_framed_parts(v.column_bytes(), rest);
            },
            None => {
                lemma_i32_round_trip(UNSET_LENGTH);
                assert(i32_of(i32_be(UNSET_LENGTH) + rest) == i32_of(i32_be(UNSET_LENGTH)));
            },
        }
    }
}

/// A pair written by its encoders reads back as the pair, leaving what followed.
pub proof fn lemma_pair_round_trip<A: ColumnCodec, B: ColumnCodec>(p: (A, B), rest: Seq<u8>)
    requires
        p.0.valid(),
        p.1.valid(),
    ensures
        pair_spec::<A, B>(p.column_bytes() + rest) == Some(((p.0.model(), p.1.model()), rest)),
{
    let s = p.column_bytes() + rest;
    p.0.lemma_value_round_trip(p.1.value_bytes() + rest);
    assert(s =~= p.0.value_bytes() + (p.1.value_bytes() + rest));
    let after = s.skip(p.0.value_bytes().len() as int);
    assert(after =~= p.1.value_bytes() + rest);
    p.1.lemma_value_round_trip(rest);
    assert(after.skip(p.1.value_bytes().len() as int) =~= rest);
}

impl<A: ColumnCodec, B: ColumnCodec> ColumnCodec for (A, B) {
    open spec fn valid(&self) -> bool {
        self.0.valid() && self.1.valid() && self.column_bytes().len() <= i32::MAX
    }
    proof fn lemma_column_round_trip(&self) {
        lemma_pair_round_trip::<A, B>(*self, Seq::empty());
        assert(self.column_bytes() + Seq::<u8>::empty() =~= self.column_bytes());
    }
    proof fn lemma_value_round_trip(&self, rest: Seq<u8>) {
        self.lemma_column_round_trip();
        lemma_framed_parts(self.column_bytes(), rest);
        if self.column_bytes().len() == 0 {
            assert(self.column_bytes() =~= Seq::<u8>::empty());
        }
    }
}

/// The entries of a map read back as the entries, leaving what followed them.
pub proof fn lemma_entries_round_trip<K: ColumnCodec, V: ColumnCodec>(s: Seq<(K, V)>, rest: Seq<u8>)
    requires
        forall|i: int| 0 <= i < s.len() ==> (#[trigger] s[i]).0.valid() && s[i].1.valid(),
    ensures
        entries_spec::<K, V>(entries_bytes(s) + rest, s.len() as int) == Some((entry_models(s), rest)),
    decreases s.len(),
{
    if s.len() > 0 {
        let e = s.last();
        let init = s.drop_last();
        assert(forall|i: int| 0 <= i < init.len() ==> init[i] == s[i]);
        lemma_entries_round_trip::<K, V>(init, e.column_bytes() + rest);
        assert(entries_bytes(s) + rest =~= entries_bytes(init) + (e.column_bytes() + rest));
        assert(s[s.len() - 1].0.valid() && s[s.len() - 1].1.valid());
        lemma_pair_round_trip::<K, V>(e, rest);
        assert(entry_models(s) =~= entry_models(init).push((e.0.model(), e.1.model())));
    } else {
        assert(entries_bytes(s) + rest =~= rest);
        assert(entry_models(s) =~= Seq::<(K::Model, V::Model)>::empty());
    }
}

impl<K: ColumnCodec, V: ColumnCodec> ColumnCodec for CqlMap<K, V> {
    open spec fn valid(&self) -> bool {
        &&& forall|i: int| 0 <= i < self.0@.len() ==> (#[trigger] self.0@[i]).0.valid() && self.0@[i].1.valid()
        &&& self.0@.len() <= i32::MAX
        &&& self.column_bytes().len() <= i32::MAX
    }
    proof fn lemma_column_round_trip(&self) {
        lemma_i32_round_trip(self.0@.len() as i32);
        lemma_entries_round_trip::<K, V>(self.0@, Seq::empty());
        assert(self.column_bytes().skip(4) =~= entries_bytes(self.0@) + Seq::<u8>::empty());
        assert(i32_of(self.column_bytes()) == i32_of(i32_be(self.0@.len() as i32)));
    }
    proof fn lemma_value_round_trip(&self, rest: Seq<u8>) {
        self.lemma_column_round_trip();
        lemma_framed_parts(self.column_bytes(), rest);
    }
}

/// Decoding what was encoded gives the value back, for every value type that
/// the codec carries: integers, booleans, text, blobs, addresses, dates, times,
/// timestamps, optional values, and lists, maps and pairs of them. With its length prefix the
/// value also consumes exactly the bytes that were written for it.
pub proof fn lemma_decode_encode<T: ColumnCodec>(v: T, rest: Seq<u8>)
    requires
        v.valid(),
    ensures
        T::column_spec(v.column_bytes()) == Some(v.model()),
        T::value_spec(v.value_bytes() + rest) == Some((v.model(), v.value_bytes().len() as int)),
{
    v.lemma_column_round_trip();
    v.lemma_value_round_trip(rest);
}

} // verus!
