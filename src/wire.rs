//! Big-endian integer layouts and a byte cursor over a received buffer.
use vstd::prelude::*;

verus! {

/// The two bytes of a `u16`, most significant first.
pub open spec fn u16_be(v: u16) -> Seq<u8> {
    seq![(v / 256) as u8, (v % 256) as u8]
}

/// The four bytes of a `u32`, most significant first.
pub open spec fn u32_be(v: u32) -> Seq<u8> {
    seq![(v / 0x100_0000) as u8, ((v / 0x1_0000) % 256) as u8, ((v / 256) % 256) as u8, (v % 256) as u8]
}

/// The eight bytes of a `u64`, most significant first.
pub open spec fn u64_be(v: u64) -> Seq<u8> {
    u32_be((v / 0x1_0000_0000) as u32) + u32_be((v % 0x1_0000_0000) as u32)
}

/// The two bytes of an `i16` in two's complement.
pub open spec fn i16_be(v: i16) -> Seq<u8> {
    u16_be(v as u16)
}

/// The four bytes of an `i32` in two's complement.
pub open spec fn i32_be(v: i32) -> Seq<u8> {
    u32_be(v as u32)
}

/// The eight bytes of an `i64` in two's complement.
pub open spec fn i64_be(v: i64) -> Seq<u8> {
    u64_be(v as u64)
}

/// The `u16` that the first two bytes of `s` spell.
pub open spec fn u16_of(s: Seq<u8>) -> u16 {
    (s[0] as int * 256 + s[1] as int) as u16
}

/// The `u32` that the first four bytes of `s` spell.
pub open spec fn u32_of(s: Seq<u8>) -> u32 {
    (s[0] as int * 0x100_0000 + s[1] as int * 0x1_0000 + s[2] as int * 256 + s[3] as int) as u32
}

/// The `u64` that the first eight bytes of `s` spell.
pub open spec fn u64_of(s: Seq<u8>) -> u64 {
    (u32_of(s) as int * 0x1_0000_0000 + u32_of(s.subrange(4, 8)) as int) as u64
}

/// The `i16` that the first two bytes of `s` spell.
pub open spec fn i16_of(s: Seq<u8>) -> i16 {
    u16_of(s) as i16
}

/// The `i32` that the first four bytes of `s` spell.
pub open spec fn i32_of(s: Seq<u8>) -> i32 {
    u32_of(s) as i32
}

/// The `i64` that the first eight bytes of `s` spell.
pub open spec fn i64_of(s: Seq<u8>) -> i64 {
    u64_of(s) as i64
}

pub proof fn lemma_u16_round_trip(v: u16)
    ensures
        u16_be(v).len() == 2,
        u16_of(u16_be(v)) == v,
{
}

pub proof fn lemma_u32_round_trip(v: u32)
    ensures
        u32_be(v).len() == 4,
        u32_of(u32_be(v)) == v,
{
}

pub proof fn lemma_u64_round_trip(v: u64)
    ensures
        u64_be(v).len() == 8,
        u64_of(u64_be(v)) == v,
{
    let hi = (v / 0x1_0000_0000) as u32;
    let lo = (v % 0x1_0000_0000) as u32;
    lemma_u32_round_trip(hi);
    lemma_u32_round_trip(lo);
    assert(u64_be(v).subrange(0, 4) =~= u32_be(hi));
    assert(u64_be(v).subrange(4, 8) =~= u32_be(lo));
}

pub proof fn lemma_i16_round_trip(v: i16)
    ensures
        i16_be(v).len() == 2,
        i16_of(i16_be(v)) == v,
{
    lemma_u16_round_trip(v as u16);
    assert(((v as u16) as i16) == v) by (bit_vector);
}

pub proof fn lemma_i32_round_trip(v: i32)
    ensures
        i32_be(v).len() == 4,
        i32_of(i32_be(v)) == v,
{
    lemma_u32_round_trip(v as u32);
    assert(((v as u32) as i32) == v) by (bit_vector);
}

pub proof fn lemma_i64_round_trip(v: i64)
    ensures
        i64_be(v).len() == 8,
        i64_of(i64_be(v)) == v,
{
    lemma_u64_round_trip(v as u64);
    assert(((v as u64) as i64) == v) by (bit_vector);
}

/// Appends the bytes of `src` to `buf`.
pub fn push_all(buf: &mut Vec<u8>, src: &[u8])
    ensures
        final(buf)@ == old(buf)@ + src@,
{
    let mut i: usize = 0;
    while i < src.len()
        invariant
            i <= src@.len(),
            buf@ == old(buf)@ + src@.subrange(0, i as int),
        decreases src@.len() - i,
    {
        buf.push(src[i]);
        i = i + 1;
        assert(src@.subrange(0, i as int) =~= src@.subrange(0, i - 1) + seq![src@[i - 1]]);
    }
    assert(src@.subrange(0, i as int) =~= src@);
}

/// Appends a `u16` in network order.
pub fn push_u16(buf: &mut Vec<u8>, v: u16)
    ensures
        final(buf)@ == old(buf)@ + u16_be(v),
{
    buf.push((v / 256) as u8);
    buf.push((v % 256) as u8);
    assert(buf@ =~= old(buf)@ + u16_be(v));
}

/// Appends a `u32` in network order.
pub fn push_u32(buf: &mut Vec<u8>, v: u32)
    ensures
        final(buf)@ == old(buf)@ + u32_be(v),
{
    buf.push((v / 0x100_0000) as u8);
    buf.push(((v / 0x1_0000) % 256) as u8);
    buf.push(((v / 256) % 256) as u8);
    buf.push((v % 256) as u8);
    assert(buf@ =~= old(buf)@ + u32_be(v));
}

/// Appends a `u64` in network order.
pub fn push_u64(buf: &mut Vec<u8>, v: u64)
    ensures
        final(buf)@ == old(buf)@ + u64_be(v),
{
    push_u32(buf, (v / 0x1_0000_0000) as u32);
    push_u32(buf, (v % 0x1_0000_0000) as u32);
    assert(buf@ =~= old(buf)@ + u64_be(v));
}

/// Appends an `i16` in network order.
pub fn push_i16(buf: &mut Vec<u8>, v: i16)
    ensures
        final(buf)@ == old(buf)@ + i16_be(v),
{
    push_u16(buf, v as u16);
}

/// Appends an `i32` in network order.
pub fn push_i32(buf: &mut Vec<u8>, v: i32)
    ensures
        final(buf)@ == old(buf)@ + i32_be(v),
{
    push_u32(buf, v as u32);
}

/// Appends an `i64` in network order.
pub fn push_i64(buf: &mut Vec<u8>, v: i64)
    ensures
        final(buf)@ == old(buf)@ + i64_be(v),
{
    push_u64(buf, v as u64);
}

/// Reads a `u16` from the first two bytes of `s`.
pub fn read_u16_at(s: &[u8], at: usize) -> (r: u16)
    requires
        at + 2 <= s@.len(),
    ensures
        r == u16_of(s@.subrange(at as int, at + 2)),
{
    (s[at] as u16) * 256 + (s[at + 1] as u16)
}

/// Reads a `u32` from four bytes of `s` starting at `at`.
pub fn read_u32_at(s: &[u8], at: usize) -> (r: u32)
    requires
        at + 4 <= s@.len(),
    ensures
        r == u32_of(s@.subrange(at as int, at + 4)),
{
    (s[at] as u32) * 0x100_0000 + (s[at + 1] as u32) * 0x1_0000 + (s[at + 2] as u32) * 256 + (s[at + 3] as u32)
}

/// Reads an `i32` from four bytes of `s` starting at `at`.
pub fn read_i32_at(s: &[u8], at: usize) -> (r: i32)
    requires
        at + 4 <= s@.len(),
    ensures
        r == i32_of(s@.subrange(at as int, at + 4)),
{
    read_u32_at(s, at) as i32
}

/// Reads a `u64` from eight bytes of `s` starting at `at`.
pub fn read_u64_at(s: &[u8], at: usize) -> (r: u64)
    requires
        at + 8 <= s@.len(),
        at + 8 <= usize::MAX,
    ensures
        r == u64_of(s@.subrange(at as int, at + 8)),
{
    let hi = read_u32_at(s, at);
    let lo = read_u32_at(s, at + 4);
    assert(s@.subrange(at as int, at + 8).subrange(4, 8) =~= s@.subrange(at + 4, at + 8));
    (hi as u64) * 0x1_0000_0000 + (lo as u64)
}


/// A read position over an owned byte buffer. Reads that would run past the
/// end fail and leave the position where it was.
pub struct Reader {
    buf: Vec<u8>,
    pos: usize,
}

impl Reader {
    #[verifier::type_invariant]
    spec fn inv(&self) -> bool {
        self.pos <= self.buf@.len()
    }

    /// The whole buffer, read or not.
    pub closed spec fn data(&self) -> Seq<u8> {
        self.buf@
    }

    /// The bytes that are still to be read.
    pub closed spec fn rest(&self) -> Seq<u8> {
        self.buf@.subrange(self.pos as int, self.buf@.len() as int)
    }

    /// A reader at the start of `buf`.
    pub fn new(buf: Vec<u8>) -> (r: Reader)
        ensures
            r.rest() == buf@,
            r.data() == buf@,
    {
        let r = Reader { buf, pos: 0 };
        assert(r.rest() =~= r.buf@);
        r
    }

    /// A reader over a copy of `s`.
    pub fn from_slice(s: &[u8]) -> (r: Reader)
        ensures
            r.rest() == s@,
            r.data() == s@,
    {
        let mut buf: Vec<u8> = Vec::new();
        push_all(&mut buf, s);
        assert(buf@ =~= s@);
        Reader::new(buf)
    }

    /// How many bytes are left.
    pub fn remaining(&self) -> (r: usize)
        ensures
            r == self.rest().len(),
    {
        proof { use_type_invariant(self); }
        self.buf.len() - self.pos
    }

    /// Gives the buffer back.
    pub fn into_inner(self) -> (r: Vec<u8>)
        ensures
            r@ == self.data(),
    {
        self.buf
    }

    /// Takes the next `n` bytes.
    pub fn read_bytes(&mut self, n: usize) -> (r: Option<Vec<u8>>)
        ensures
            final(self).data() == old(self).data(),
            n <= old(self).rest().len() ==> r is Some && r->0@ == old(self).rest().take(n as int) && final(self).rest() == old(self).rest().skip(n as int),
            n > old(self).rest().len() ==> r is None && final(self).rest() == old(self).rest(),
    {
        proof { use_type_invariant(&*self); }
        if n > self.buf.len() - self.pos {
            return None;
        }
        let len = self.buf.len();
        let mut out: Vec<u8> = Vec::new();
        let mut i: usize = 0;
        while i < n
            invariant
                i <= n,
                len == self.buf@.len(),
                self.pos + n <= len,
                self.pos + n <= self.buf@.len(),
                self.pos == old(self).pos,
                self.buf == old(self).buf,
                out@ == self.buf@.subrange(self.pos as int, self.pos + i),
            decreases n - i,
        {
            out.push(self.buf[self.pos + i]);
            i = i + 1;
            assert(out@ =~= self.buf@.subrange(self.pos as int, self.pos + i));
        }
        self.pos = self.pos + n;
        assert(out@ =~= old(self).rest().take(n as int));
        assert(self.rest() =~= old(self).rest().skip(n as int));
        Some(out)
    }

    /// Reads one byte.
    pub fn read_u8(&mut self) -> (r: Option<u8>)
        ensures
            final(self).data() == old(self).data(),
            1 <= old(self).rest().len() ==> r == Some(old(self).rest()[0]) && final(self).rest() == old(self).rest().skip(1),
            1 > old(self).rest().len() ==> r is None && final(self).rest() == old(self).rest(),
    {
        proof { use_type_invariant(&*self); }
        if self.pos >= self.buf.len() {
            return None;
        }
        let b = self.buf[self.pos];
        self.pos = self.pos + 1;
        assert(self.rest() =~= old(self).rest().skip(1));
        Some(b)
    }

    /// Reads a `u16` in network order.
    pub fn read_u16(&mut self) -> (r: Option<u16>)
        ensures
            final(self).data() == old(self).data(),
            2 <= old(self).rest().len() ==> r == Some(u16_of(old(self).rest())) && final(self).rest() == old(self).rest().skip(2),
            2 > old(self).rest().len() ==> r is None && final(self).rest() == old(self).rest(),
    {
        proof { use_type_invariant(&*self); }
        if self.buf.len() - self.pos < 2 {
            return None;
        }
        let v = read_u16_at(self.buf.as_slice(), self.pos);
        self.pos = self.pos + 2;
        assert(self.rest() =~= old(self).rest().skip(2));
        Some(v)
    }

    /// Reads a `u32` in network order.
    pub fn read_u32(&mut self) -> (r: Option<u32>)
        ensures
            final(self).data() == old(self).data(),
            4 <= old(self).rest().len() ==> r == Some(u32_of(old(self).rest())) && final(self).rest() == old(self).rest().skip(4),
            4 > old(self).rest().len() ==> r is None && final(self).rest() == old(self).rest(),
    {
        proof { use_type_invariant(&*self); }
        if self.buf.len() - self.pos < 4 {
            return None;
        }
        let v = read_u32_at(self.buf.as_slice(), self.pos);
        self.pos = self.pos + 4;
        assert(self.rest() =~= old(self).rest().skip(4));
        Some(v)
    }

    /// Reads an `i32` in network order.
    pub fn read_i32(&mut self) -> (r: Option<i32>)
        ensures
            final(self).data() == old(self).data(),
            4 <= old(self).rest().len() ==> r == Some(i32_of(old(self).rest())) && final(self).rest() == old(self).rest().skip(4),
            4 > old(self).rest().len() ==> r is None && final(self).rest() == old(self).rest(),
    {
        match self.read_u32() {
            Some(v) => Some(v as i32),
            None => None,
        }
    }

    /// Reads a `u64` in network order.
    pub fn read_u64(&mut self) -> (r: Option<u64>)
        ensures
            final(self).data() == old(self).data(),
            8 <= old(self).rest().len() ==> r == Some(u64_of(old(self).rest())) && final(self).rest() == old(self).rest().skip(8),
            8 > old(self).rest().len() ==> r is None && final(self).rest() == old(self).rest(),
    {
        proof { use_type_invariant(&*self); }
        if self.buf.len() - self.pos < 8 {
            return None;
        }
        let v = read_u64_at(self.buf.as_slice(), self.pos);
        self.pos = self.pos + 8;
        assert(self.rest() =~= old(self).rest().skip(8));
        assert(old(self).rest().subrange(4, 8) =~= self.buf@.subrange(old(self).pos + 4, old(self).pos + 8));
        Some(v)
    }
}

} // verus!
