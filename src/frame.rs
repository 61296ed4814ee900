//! Frame headers, the protocol's opcodes and flags, and the readers of the
//! protocol's composite notations (`[string]`, `[string list]`, `[bytes]`).
use vstd::prelude::*;
use vstd::utf8::*;
use crate::column::text_of;
use crate::wire::{i32_of, u16_of, Reader};

verus! {

/// The protocol version byte of a request.
pub const REQUEST_VERSION: u8 = 4;
/// The protocol version byte of a response.
pub const RESPONSE_VERSION: u8 = 0x84;

pub const ERROR: u8 = 0x00;
pub const STARTUP: u8 = 0x01;
pub const READY: u8 = 0x02;
pub const AUTHENTICATE: u8 = 0x03;
pub const OPTIONS: u8 = 0x05;
pub const SUPPORTED: u8 = 0x06;
pub const QUERY: u8 = 0x07;
pub const RESULT: u8 = 0x08;
pub const PREPARE: u8 = 0x09;
pub const EXECUTE: u8 = 0x0A;
pub const REGISTER: u8 = 0x0B;
pub const EVENT: u8 = 0x0C;
pub const BATCH: u8 = 0x0D;
pub const AUTH_CHALLENGE: u8 = 0x0E;
pub const AUTH_RESPONSE: u8 = 0x0F;
pub const AUTH_SUCCESS: u8 = 0x10;

/// Header flag: the body is compressed.
pub const COMPRESSION: u8 = 0x01;
/// Header flag: a 16-byte tracing id precedes the body.
pub const TRACING: u8 = 0x02;
/// Header flag: a custom payload precedes the body.
pub const CUSTOM_PAYLOAD: u8 = 0x04;
/// Header flag: a `[string list]` of warnings precedes the body.
pub const WARNING: u8 = 0x08;

/// RESULT body kinds.
pub const VOID: i32 = 0x0001;
pub const ROWS: i32 = 0x0002;
pub const SET_KEYSPACE: i32 = 0x0003;
pub const PREPARED: i32 = 0x0004;
pub const SCHEMA_CHANGE: i32 = 0x0005;

/// The length of a frame header.
pub const HEADER_LENGTH: usize = 9;

/// `[string]`: a `u16` length and that many bytes of UTF-8; what it spells and
/// how many bytes it takes.
pub open spec fn string_spec(s: Seq<u8>) -> Option<(Seq<char>, int)> {
    if s.len() < 2 {
        None
    } else {
        let n = u16_of(s) as int;
        if s.len() < 2 + n || !valid_utf8(s.subrange(2, 2 + n)) {
            None
        } else {
            Some((decode_utf8(s.subrange(2, 2 + n)), 2 + n))
        }
    }
}

/// `n` strings read one after another: what they spell and what is left after them.
pub open spec fn strings_spec(s: Seq<u8>, n: int) -> Option<(Seq<Seq<char>>, Seq<u8>)>
    decreases n,
{
    if n <= 0 {
        Some((Seq::empty(), s))
    } else {
        match strings_spec(s, n - 1) {
            Some(p) => match string_spec(p.1) {
                Some(q) => Some((p.0.push(q.0), p.1.skip(q.1))),
                None => None,
            },
            None => None,
        }
    }
}

/// `[string list]`: a `u16` count and that many strings; what they spell and what is left.
pub open spec fn string_list_spec(s: Seq<u8>) -> Option<(Seq<Seq<char>>, Seq<u8>)> {
    if s.len() < 2 {
        None
    } else {
        strings_spec(s.skip(2), u16_of(s) as int)
    }
}

/// `[bytes]`: an `i32` length and that many bytes, absent when the length is negative.
pub open spec fn bytes_spec(s: Seq<u8>) -> Option<(Option<Seq<u8>>, int)> {
    if s.len() < 4 {
        None
    } else {
        let n = i32_of(s) as int;
        if n < 0 {
            Some((None, 4))
        } else if s.len() < 4 + n {
            None
        } else {
            Some((Some(s.subrange(4, 4 + n)), 4 + n))
        }
    }
}

/// What the strings of a vector spell.
pub open spec fn texts(v: Seq<String>) -> Seq<Seq<char>> {
    v.map_values(|t: String| t@)
}

/// Once a string fails to read, no longer run of strings reads.
pub proof fn lemma_strings_fail_later(s: Seq<u8>, n: int, m: int)
    requires
        n <= m,
        strings_spec(s, n) is None,
    ensures
        strings_spec(s, m) is None,
    decreases m - n,
{
    if n < m {
        lemma_strings_fail_later(s, n, m - 1);
    }
}

/// Reads a `[string]`.
pub fn string(reader: &mut Reader) -> (r: Option<String>)
    ensures
        final(reader).rest().len() <= old(reader).rest().len(),
        final(reader).data() == old(reader).data(),
        r is Some <==> string_spec(old(reader).rest()) is Some,
        r is Some ==> r->0@ == (string_spec(old(reader).rest())->0).0
            && final(reader).rest() == old(reader).rest().skip((string_spec(old(reader).rest())->0).1),
{
    let ghost s = reader.rest();
    let n = match reader.read_u16() {
        Some(n) => n,
        None => return None,
    };
    let b = match reader.read_bytes(n as usize) {
        Some(b) => b,
        None => return None,
    };
    assert(b@ =~= s.subrange(2, 2 + n));
    assert(reader.rest() =~= s.skip(2 + n));
    text_of(b.as_slice())
}

/// Reads a `[string list]`.
pub fn string_list(reader: &mut Reader) -> (r: Option<Vec<String>>)
    ensures
        final(reader).rest().len() <= old(reader).rest().len(),
        final(reader).data() == old(reader).data(),
        r is Some <==> string_list_spec(old(reader).rest()) is Some,
        r is Some ==> texts(r->0@) == (string_list_spec(old(reader).rest())->0).0
            && final(reader).rest() == (string_list_spec(old(reader).rest())->0).1,
{
    let ghost s = reader.rest();
    let n = match reader.read_u16() {
        Some(n) => n,
        None => return None,
    };
    let ghost s2 = reader.rest();
    let mut list: Vec<String> = Vec::new();
    let mut i: u16 = 0;
    while i < n
        invariant
            i <= n,
            s.len() >= 2,
            s == old(reader).rest(),
            n == u16_of(s),
            s2 == s.skip(2),
            reader.data() == old(reader).data(),
            reader.rest().len() <= s.len(),
            strings_spec(s2, i as int) is Some,
            texts(list@) == (strings_spec(s2, i as int)->0).0,
            reader.rest() == (strings_spec(s2, i as int)->0).1,
        decreases n - i,
    {
        let ghost prev = list@;
        match string(reader) {
            Some(t) => {
                list.push(t);
                assert(list@ =~= prev.push(t));
                assert(texts(list@) =~= texts(prev).push(t@));
            },
            None => {
                proof {
                    lemma_strings_fail_later(s2, i + 1, n as int);
                }
                return None;
            },
        }
        i = i + 1;
    }
    Some(list)
}

/// Reads a `[bytes]`; a negative length reads as absent.
pub fn bytes(reader: &mut Reader) -> (r: Option<Option<Vec<u8>>>)
    ensures
        final(reader).rest().len() <= old(reader).rest().len(),
        final(reader).data() == old(reader).data(),
        r is Some <==> bytes_spec(old(reader).rest()) is Some,
        r is Some ==> final(reader).rest() == old(reader).rest().skip((bytes_spec(old(reader).rest())->0).1)
            && (r->0 is Some <==> (bytes_spec(old(reader).rest())->0).0 is Some)
            && (r->0 is Some ==> r->0->0@ == (bytes_spec(old(reader).rest())->0).0->0),
{
    let ghost s = reader.rest();
    let n = match reader.read_i32() {
        Some(n) => n,
        None => return None,
    };
    if n < 0 {
        return Some(None);
    }
    let b = match reader.read_bytes(n as usize) {
        Some(b) => b,
        None => return None,
    };
    assert(b@ =~= s.subrange(4, 4 + n));
    assert(reader.rest() =~= s.skip(4 + n));
    Some(Some(b))
}

/// Reads a `[short bytes]` from the start of a slice.
pub fn short_bytes(slice: &[u8]) -> (r: Option<Vec<u8>>)
    ensures
        r is Some <==> slice@.len() >= 2 && slice@.len() >= 2 + u16_of(slice@),
        r is Some ==> r->0@ == slice@.subrange(2, 2 + u16_of(slice@)),
{
    let mut reader = Reader::from_slice(slice);
    let n = match reader.read_u16() {
        Some(n) => n,
        None => return None,
    };
    let r = reader.read_bytes(n as usize);
    proof {
        if r is Some {
            assert(r->0@ =~= slice@.subrange(2, 2 + u16_of(slice@)));
        }
    }
    r
}

/// A prepared statement's id: a `u16` length of at least 16, of which the first
/// 16 bytes are read.
pub open spec fn prepared_id_spec(s: Seq<u8>) -> Option<Seq<u8>> {
    if s.len() < 2 || (u16_of(s) as int) < 16 || s.len() < 18 {
        None
    } else {
        Some(s.subrange(2, 18))
    }
}

/// Sixteen bytes as an array.
pub fn array16(v: &[u8]) -> (r: [u8; 16])
    requires
        v@.len() == 16,
    ensures
        r@ == v@,
{
    let r = [
        v[0], v[1], v[2], v[3], v[4], v[5], v[6], v[7],
        v[8], v[9], v[10], v[11], v[12], v[13], v[14], v[15],
    ];
    assert(r@ =~= v@);
    r
}

/// Reads a prepared statement's id.
pub fn prepared_id(reader: &mut Reader) -> (r: Option<[u8; 16]>)
    ensures
        final(reader).rest().len() <= old(reader).rest().len(),
        final(reader).data() == old(reader).data(),
        r is Some <==> prepared_id_spec(old(reader).rest()) is Some,
        r is Some ==> r->0@ == prepared_id_spec(old(reader).rest())->0
            && final(reader).rest() == old(reader).rest().skip(18),
{
    let ghost s = reader.rest();
    let n = match reader.read_u16() {
        Some(n) => n,
        None => return None,
    };
    if n < 16 {
        return None;
    }
    let b = match reader.read_bytes(16) {
        Some(b) => b,
        None => return None,
    };
    assert(b@ =~= s.subrange(2, 18));
    assert(reader.rest() =~= s.skip(18));
    Some(array16(b.as_slice()))
}

/// `n` keys, each with a string list: what they spell and what is left after them.
pub open spec fn multimap_entries_spec(s: Seq<u8>, n: int) -> Option<(Seq<(Seq<char>, Seq<Seq<char>>)>, Seq<u8>)>
    decreases n,
{
    if n <= 0 {
        Some((Seq::empty(), s))
    } else {
        match multimap_entries_spec(s, n - 1) {
            Some(p) => match string_spec(p.1) {
                Some(k) => match string_list_spec(p.1.skip(k.1)) {
                    Some(l) => Some((p.0.push((k.0, l.0)), l.1)),
                    None => None,
                },
                None => None,
            },
            None => None,
        }
    }
}

/// `[string multimap]`: a `u16` count of keys, each with a `[string list]`.
pub open spec fn string_multimap_spec(s: Seq<u8>) -> Option<(Seq<(Seq<char>, Seq<Seq<char>>)>, Seq<u8>)> {
    if s.len() < 2 {
        None
    } else {
        multimap_entries_spec(s.skip(2), u16_of(s) as int)
    }
}

/// What the entries of a multimap spell.
pub open spec fn multimap_model(v: Seq<(String, Vec<String>)>) -> Seq<(Seq<char>, Seq<Seq<char>>)> {
    v.map_values(|e: (String, Vec<String>)| (e.0@, texts(e.1@)))
}

/// Once an entry fails to read, no longer run of entries reads.
pub proof fn lemma_multimap_fail_later(s: Seq<u8>, n: int, m: int)
    requires
        n <= m,
        multimap_entries_spec(s, n) is None,
    ensures
        multimap_entries_spec(s, m) is None,
    decreases m - n,
{
    if n < m {
        lemma_multimap_fail_later(s, n, m - 1);
    }
}

/// Reads a `[string multimap]`, keeping the keys in the order they come.
pub fn string_multimap(reader: &mut Reader) -> (r: Option<Vec<(String, Vec<String>)>>)
    ensures
        final(reader).data() == old(reader).data(),
        final(reader).rest().len() <= old(reader).rest().len(),
        r is Some <==> string_multimap_spec(old(reader).rest()) is Some,
        r is Some ==> multimap_model(r->0@) == (string_multimap_spec(old(reader).rest())->0).0
            && final(reader).rest() == (string_multimap_spec(old(reader).rest())->0).1,
{
    let ghost s = reader.rest();
    let n = match reader.read_u16() {
        Some(n) => n,
        None => return None,
    };
    let ghost s2 = reader.rest();
    let mut out: Vec<(String, Vec<String>)> = Vec::new();
    let mut i: u16 = 0;
    while i < n
        invariant
            i <= n,
            s.len() >= 2,
            s == old(reader).rest(),
            n == u16_of(s),
            s2 == s.skip(2),
            reader.data() == old(reader).data(),
            reader.rest().len() <= s.len(),
            multimap_entries_spec(s2, i as int) is Some,
            multimap_model(out@) == (multimap_entries_spec(s2, i as int)->0).0,
            reader.rest() == (multimap_entries_spec(s2, i as int)->0).1,
        decreases n - i,
    {
        let ghost prev = out@;
        let key = match string(reader) {
            Some(k) => k,
            None => {
                proof { lemma_multimap_fail_later(s2, i + 1, n as int); }
                return None;
            },
        };
        let list = match string_list(reader) {
            Some(l) => l,
            None => {
                proof { lemma_multimap_fail_later(s2, i + 1, n as int); }
                return None;
            },
        };
        out.push((key, list));
        assert(out@ =~= prev.push((key, list)));
        assert(multimap_model(out@) =~= multimap_model(prev).push((key@, texts(list@))));
        i = i + 1;
    }
    Some(out)
}

/// `n` keys, each with a `[bytes]` value: what they hold and what is left after them.
pub open spec fn bytes_map_entries_spec(s: Seq<u8>, n: int) -> Option<(Seq<(Seq<char>, Option<Seq<u8>>)>, Seq<u8>)>
    decreases n,
{
    if n <= 0 {
        Some((Seq::empty(), s))
    } else {
        match bytes_map_entries_spec(s, n - 1) {
            Some(p) => match string_spec(p.1) {
                Some(k) => match bytes_spec(p.1.skip(k.1)) {
                    Some(v) => Some((p.0.push((k.0, v.0)), p.1.skip(k.1).skip(v.1))),
                    None => None,
                },
                None => None,
            },
            None => None,
        }
    }
}

/// `[bytes map]`: a `u16` count of keys, each with a `[bytes]` value.
pub open spec fn bytes_map_spec(s: Seq<u8>) -> Option<(Seq<(Seq<char>, Option<Seq<u8>>)>, Seq<u8>)> {
    if s.len() < 2 {
        None
    } else {
        bytes_map_entries_spec(s.skip(2), u16_of(s) as int)
    }
}

/// What a byte value holds.
pub open spec fn bytes_view(v: Option<Vec<u8>>) -> Option<Seq<u8>> {
    match v {
        Some(b) => Some(b@),
        None => None,
    }
}

/// What the entries of a bytes map hold.
pub open spec fn bytes_map_model(v: Seq<(String, Option<Vec<u8>>)>) -> Seq<(Seq<char>, Option<Seq<u8>>)> {
    v.map_values(|e: (String, Option<Vec<u8>>)| (e.0@, bytes_view(e.1)))
}

/// Once an entry fails to read, no longer run of entries reads.
pub proof fn lemma_bytes_map_fail_later(s: Seq<u8>, n: int, m: int)
    requires
        n <= m,
        bytes_map_entries_spec(s, n) is None,
    ensures
        bytes_map_entries_spec(s, m) is None,
    decreases m - n,
{
    if n < m {
        lemma_bytes_map_fail_later(s, n, m - 1);
    }
}

/// Reads a `[bytes map]`, keeping the keys in the order they come.
pub fn bytes_map(reader: &mut Reader) -> (r: Option<Vec<(String, Option<Vec<u8>>)>>)
    ensures
        final(reader).data() == old(reader).data(),
        final(reader).rest().len() <= old(reader).rest().len(),
        r is Some <==> bytes_map_spec(old(reader).rest()) is Some,
        r is Some ==> bytes_map_model(r->0@) == (bytes_map_spec(old(reader).rest())->0).0
            && final(reader).rest() == (bytes_map_spec(old(reader).rest())->0).1,
{
    let ghost s = reader.rest();
    let n = match reader.read_u16() {
        Some(n) => n,
        None => return None,
    };
    let ghost s2 = reader.rest();
    let mut out: Vec<(String, Option<Vec<u8>>)> = Vec::new();
    let mut i: u16 = 0;
    while i < n
        invariant
            i <= n,
            s.len() >= 2,
            s == old(reader).rest(),
            n == u16_of(s),
            s2 == s.skip(2),
            reader.data() == old(reader).data(),
            reader.rest().len() <= s.len(),
            bytes_map_entries_spec(s2, i as int) is Some,
            bytes_map_model(out@) == (bytes_map_entries_spec(s2, i as int)->0).0,
            reader.rest() == (bytes_map_entries_spec(s2, i as int)->0).1,
        decreases n - i,
    {
        let ghost prev = out@;
        let key = match string(reader) {
            Some(k) => k,
            None => {
                proof { lemma_bytes_map_fail_later(s2, i + 1, n as int); }
                return None;
            },
        };
        let value = match bytes(reader) {
            Some(v) => v,
            None => {
                proof { lemma_bytes_map_fail_later(s2, i + 1, n as int); }
                return None;
            },
        };
        out.push((key, value));
        assert(out@ =~= prev.push((key, value)));
        assert(bytes_map_model(out@) =~= bytes_map_model(prev).push((key@, bytes_view(value))));
        i = i + 1;
    }
    Some(out)
}

} // verus!
