//! The 128-bit x64 Murmur3 hash in the form that Cassandra-compatible servers
//! use for partition tokens: tail bytes are read as signed, so a tail byte of
//! 0x80 or above spreads ones into the high bits of its word.
use vstd::prelude::*;

verus! {

pub const C1: u64 = 0x87c3_7b91_1142_53d5;
pub const C2: u64 = 0x4cf5_ad43_2745_937f;

pub open spec fn rotl31(x: u64) -> u64 {
    (x << 31u64) | (x >> 33u64)
}

pub open spec fn rotl33(x: u64) -> u64 {
    (x << 33u64) | (x >> 31u64)
}

pub open spec fn rotl27(x: u64) -> u64 {
    (x << 27u64) | (x >> 37u64)
}

/// The final avalanche of a word.
pub open spec fn fmix(k: u64) -> u64 {
    let k = k ^ (k >> 33u64);
    let k = k.wrapping_mul(0xff51_afd7_ed55_8ccd);
    let k = k ^ (k >> 33u64);
    let k = k.wrapping_mul(0xc4ce_b9fe_1a85_ec53);
    k ^ (k >> 33u64)
}

pub open spec fn mix_k1(k1: u64) -> u64 {
    rotl31(k1.wrapping_mul(C1)).wrapping_mul(C2)
}

pub open spec fn mix_k2(k2: u64) -> u64 {
    rotl33(k2.wrapping_mul(C2)).wrapping_mul(C1)
}

/// The little-endian word of eight bytes of `s` from `at`.
pub open spec fn le_u64(s: Seq<u8>, at: int) -> u64 {
    (s[at] as u64) | ((s[at + 1] as u64) << 8u64) | ((s[at + 2] as u64) << 16u64) | ((s[at + 3] as u64) << 24u64)
        | ((s[at + 4] as u64) << 32u64) | ((s[at + 5] as u64) << 40u64) | ((s[at + 6] as u64) << 48u64)
        | ((s[at + 7] as u64) << 56u64)
}

/// One 16-byte block folded into the state.
pub open spec fn block_step(h1: u64, h2: u64, k1: u64, k2: u64) -> (u64, u64) {
    let a = rotl27(h1 ^ mix_k1(k1)).wrapping_add(h2).wrapping_mul(5).wrapping_add(0x52dc_e729);
    let b = rotl31(h2 ^ mix_k2(k2)).wrapping_add(a).wrapping_mul(5).wrapping_add(0x3849_5ab5);
    (a, b)
}

/// The state after the first `n` blocks of `s`.
pub open spec fn blocks(s: Seq<u8>, n: nat) -> (u64, u64)
    decreases n,
{
    if n == 0 {
        (0, 0)
    } else {
        let h = blocks(s, (n - 1) as nat);
        let at = 16 * (n - 1);
        block_step(h.0, h.1, le_u64(s, at), le_u64(s, at + 8))
    }
}

/// A byte read as signed and widened to 64 bits.
pub open spec fn signed_byte(b: u8) -> u64 {
    ((b as i8) as i64) as u64
}

/// The word that `n` tail bytes from `at` make, each read as signed.
pub open spec fn tail_word(s: Seq<u8>, at: int, n: int) -> u64
    decreases n,
{
    if n <= 0 {
        0
    } else {
        tail_word(s, at, n - 1) ^ (signed_byte(s[at + n - 1]) << (8 * (n - 1)) as u64)
    }
}

/// The two words of the hash, before they are read as signed.
pub open spec fn murmur3_words(s: Seq<u8>) -> (u64, u64) {
    let len = s.len();
    let nblocks = len / 16;
    let h = blocks(s, nblocks);
    let rem = len % 16;
    let base = (16 * nblocks) as int;
    let h2 = if rem > 8 { h.1 ^ mix_k2(tail_word(s, base + 8, rem - 8 as int)) } else { h.1 };
    let h1 = if rem > 0 { h.0 ^ mix_k1(tail_word(s, base, if rem > 8 { 8 } else { rem as int })) } else { h.0 };
    let h1 = h1 ^ (len as u64);
    let h2 = h2 ^ (len as u64);
    let h1 = h1.wrapping_add(h2);
    let h2 = h2.wrapping_add(h1);
    let h1 = fmix(h1);
    let h2 = fmix(h2);
    let h1 = h1.wrapping_add(h2);
    let h2 = h2.wrapping_add(h1);
    (h1, h2)
}

/// The token of a serialized partition key: the low word of the hash.
pub open spec fn murmur3_token(s: Seq<u8>) -> i64 {
    murmur3_words(s).0 as i64
}

fn read_le_u64(s: &[u8], at: usize) -> (r: u64)
    requires
        at + 8 <= s@.len(),
    ensures
        r == le_u64(s@, at as int),
{
    (s[at] as u64) | ((s[at + 1] as u64) << 8u64) | ((s[at + 2] as u64) << 16u64) | ((s[at + 3] as u64) << 24u64)
        | ((s[at + 4] as u64) << 32u64) | ((s[at + 5] as u64) << 40u64) | ((s[at + 6] as u64) << 48u64)
        | ((s[at + 7] as u64) << 56u64)
}

fn exec_fmix(k: u64) -> (r: u64)
    ensures
        r == fmix(k),
{
    let k = k ^ (k >> 33u64);
    let k = k.wrapping_mul(0xff51_afd7_ed55_8ccd);
    let k = k ^ (k >> 33u64);
    let k = k.wrapping_mul(0xc4ce_b9fe_1a85_ec53);
    k ^ (k >> 33u64)
}

fn exec_mix_k1(k1: u64) -> (r: u64)
    ensures
        r == mix_k1(k1),
{
    let k = k1.wrapping_mul(C1);
    ((k << 31u64) | (k >> 33u64)).wrapping_mul(C2)
}

fn exec_mix_k2(k2: u64) -> (r: u64)
    ensures
        r == mix_k2(k2),
{
    let k = k2.wrapping_mul(C2);
    ((k << 33u64) | (k >> 31u64)).wrapping_mul(C1)
}

fn exec_tail_word(s: &[u8], at: usize, n: usize) -> (r: u64)
    requires
        at + n <= s@.len(),
        n <= 8,
    ensures
        r == tail_word(s@, at as int, n as int),
{
    let mut k: u64 = 0;
    let mut j: usize = 0;
    let len = s.len();
    while j < n
        invariant
            j <= n,
            len == s@.len(),
            n <= 8,
            at + n <= s@.len(),
            k == tail_word(s@, at as int, j as int),
        decreases n - j,
    {
        let b = s[at + j];
        k = k ^ ((((b as i8) as i64) as u64) << ((8 * j) as u64));
        j = j + 1;
    }
    k
}

/// The 128-bit Murmur3 hash of `data` with seed zero, as two signed words;
/// the first is the token.
pub fn murmur3_cassandra_x64_128(data: &[u8]) -> (r: (i64, i64))
    ensures
        r.0 == murmur3_words(data@).0 as i64,
        r.1 == murmur3_words(data@).1 as i64,
{
    let len = data.len();
    let nblocks = len / 16;
    let mut h1: u64 = 0;
    let mut h2: u64 = 0;
    let mut i: usize = 0;
    while i < nblocks
        invariant
            i <= nblocks,
            nblocks == data@.len() / 16,
            len == data@.len(),
            (h1, h2) == blocks(data@, i as nat),
        decreases nblocks - i,
    {
        let at = 16 * i;
        let k1 = read_le_u64(data, at);
        let k2 = read_le_u64(data, at + 8);
        let a = ((h1 ^ exec_mix_k1(k1)) << 27u64) | ((h1 ^ exec_mix_k1(k1)) >> 37u64);
        let a = a.wrapping_add(h2).wrapping_mul(5).wrapping_add(0x52dc_e729);
        let b = ((h2 ^ exec_mix_k2(k2)) << 31u64) | ((h2 ^ exec_mix_k2(k2)) >> 33u64);
        let b = b.wrapping_add(a).wrapping_mul(5).wrapping_add(0x3849_5ab5);
        h1 = a;
        h2 = b;
        i = i + 1;
    }
    let rem = len % 16;
    let base = 16 * nblocks;
    if rem > 8 {
        h2 = h2 ^ exec_mix_k2(exec_tail_word(data, base + 8, rem - 8));
    }
    if rem > 0 {
        let n = if rem > 8 { 8 } else { rem };
        h1 = h1 ^ exec_mix_k1(exec_tail_word(data, base, n));
    }
    h1 = h1 ^ (len as u64);
    h2 = h2 ^ (len as u64);
    h1 = h1.wrapping_add(h2);
    h2 = h2.wrapping_add(h1);
    h1 = exec_fmix(h1);
    h2 = exec_fmix(h2);
    h1 = h1.wrapping_add(h2);
    h2 = h2.wrapping_add(h1);
    (h1 as i64, h2 as i64)
}

} // verus!
