//! Body compression of frames: the nine header bytes stay as they are, the
//! body after them is transformed, and the header's length field is rewritten.
use vstd::prelude::*;
use crate::frame::{COMPRESSION, HEADER_LENGTH};
use crate::wire::{i32_be, i32_of, lemma_i32_round_trip, push_all, push_i32, read_i32_at};

verus! {

/// What `lz4::block::compress` returns for a body, with the size prepended.
pub uninterp spec fn lz4_compressed(body: Seq<u8>) -> Option<Seq<u8>>;

/// What `lz4::block::decompress` returns for a block whose size is prepended.
pub uninterp spec fn lz4_decompressed(block: Seq<u8>) -> Option<Seq<u8>>;

/// What snappy's raw encoder returns for a body.
pub uninterp spec fn snappy_compressed(body: Seq<u8>) -> Option<Seq<u8>>;

/// What snappy's raw decoder returns for a block.
pub uninterp spec fn snappy_decompressed(block: Seq<u8>) -> Option<Seq<u8>>;

/// The longest body that both codecs accept: LZ4's `LZ4_MAX_INPUT_SIZE`, well
/// below snappy's limit of `2^32 - 1` bytes with its worst-case growth.
pub const MAX_BODY: usize = 0x7E00_0000;

/// Relies on `lz4::block::compress(src, None, true)`: a function of the input,
/// which succeeds on inputs of at most `LZ4_MAX_INPUT_SIZE` bytes (the output
/// buffer has `LZ4_compressBound` bytes, for which lz4 guarantees success).
#[verifier::external_body]
fn lz4_compress(src: &[u8]) -> (r: Option<Vec<u8>>)
    ensures
        r is Some <==> lz4_compressed(src@) is Some,
        src@.len() <= MAX_BODY ==> r is Some,
        r is Some ==> r->0@ == lz4_compressed(src@)->0,
{
    lz4::block::compress(src, None, true).ok()
}

/// Relies on `lz4::block::decompress(src, None)`: a function of the input,
/// which reads the decompressed size from the block's first four bytes.
#[verifier::external_body]
fn lz4_decompress(src: &[u8]) -> (r: Option<Vec<u8>>)
    ensures
        r is Some <==> lz4_decompressed(src@) is Some,
        r is Some ==> r->0@ == lz4_decompressed(src@)->0,
{
    lz4::block::decompress(src, None).ok()
}

/// Relies on `snap::raw::Encoder::compress_vec`: a function of the input,
/// which fails only when `max_compress_len` of the input exceeds `2^32 - 1`.
#[verifier::external_body]
fn snappy_compress(src: &[u8]) -> (r: Option<Vec<u8>>)
    ensures
        r is Some <==> snappy_compressed(src@) is Some,
        src@.len() <= MAX_BODY ==> r is Some,
        r is Some ==> r->0@ == snappy_compressed(src@)->0,
{
    snap::raw::Encoder::new().compress_vec(src).ok()
}

/// Relies on `snap::raw::Decoder::decompress_vec`: a function of the input.
#[verifier::external_body]
fn snappy_decompress(src: &[u8]) -> (r: Option<Vec<u8>>)
    ensures
        r is Some <==> snappy_decompressed(src@) is Some,
        r is Some ==> r->0@ == snappy_decompressed(src@)->0,
{
    snap::raw::Decoder::new().decompress_vec(src).ok()
}

/// The body transform that a connection applies to its frames.
#[derive(Clone, Copy, PartialEq, Eq, Structural, Debug)]
pub enum Compression {
    Uncompressed,
    Lz4,
    Snappy,
}

/// Why a frame could not be transformed.
#[derive(Clone, Copy, PartialEq, Eq, Structural, Debug)]
pub enum CompressionError {
    /// The buffer is shorter than a frame header.
    TooSmall,
    /// The header's length field points past the end of the buffer.
    BadLength,
    /// The codec refused the body.
    Codec,
}

/// The name under which STARTUP announces a compression.
pub open spec fn option_name(c: Compression) -> Seq<char> {
    match c {
        Compression::Lz4 => "lz4"@,
        Compression::Snappy => "snappy"@,
        Compression::Uncompressed => Seq::empty(),
    }
}

/// The header flag that frames compressed with `c` carry.
pub open spec fn flag_of(c: Compression) -> u8 {
    if c == Compression::Uncompressed { 0u8 } else { COMPRESSION }
}

/// A frame's first five header bytes, then the length of `body`, then `body`.
pub open spec fn with_body(frame: Seq<u8>, body: Seq<u8>) -> Seq<u8> {
    frame.take(5) + i32_be(body.len() as i32) + body
}

/// Whether a frame's header says that its body is compressed.
pub open spec fn compressed_flag(frame: Seq<u8>) -> bool {
    frame[1] & COMPRESSION == COMPRESSION
}

/// The body of a compressed frame, as its length field gives it.
pub open spec fn stated_body(frame: Seq<u8>) -> Option<Seq<u8>> {
    let n = i32_of(frame.skip(5)) as int;
    if n < 0 || frame.len() < 9 + n {
        None
    } else {
        Some(frame.subrange(9, 9 + n))
    }
}

/// What compressing a frame gives.
pub open spec fn compress_spec(c: Compression, frame: Seq<u8>) -> Result<Seq<u8>, CompressionError> {
    if frame.len() < 9 {
        Err(CompressionError::TooSmall)
    } else {
        let body = frame.skip(9);
        match c {
            Compression::Uncompressed => Ok(with_body(frame, body)),
            Compression::Lz4 => match lz4_compressed(body) {
                Some(b) => Ok(with_body(frame, b)),
                None => Err(CompressionError::Codec),
            },
            Compression::Snappy => match snappy_compressed(body) {
                Some(b) => Ok(with_body(frame, b)),
                None => Err(CompressionError::Codec),
            },
        }
    }
}

/// What decompressing a frame gives. LZ4 answers an empty body that it cannot
/// decompress with the bare header, since peers set the flag on empty bodies;
/// a body that is not empty and does not decompress is an error.
pub open spec fn decompress_spec(c: Compression, frame: Seq<u8>) -> Result<Seq<u8>, CompressionError> {
    if frame.len() < 9 {
        Err(CompressionError::TooSmall)
    } else if c == Compression::Uncompressed || !compressed_flag(frame) {
        Ok(frame)
    } else {
        match stated_body(frame) {
            None => Err(CompressionError::BadLength),
            Some(block) => match c {
                Compression::Lz4 => match lz4_decompressed(block) {
                    Some(b) => Ok(with_body(frame, b)),
                    None => if block.len() == 0 {
                        Ok(frame.take(9))
                    } else {
                        Err(CompressionError::Codec)
                    },
                },
                _ => match snappy_decompressed(block) {
                    Some(b) => Ok(with_body(frame, b)),
                    None => Err(CompressionError::Codec),
                },
            },
        }
    }
}

/// The header bytes before the length field, then the new length and body.
fn rebuild(frame: &Vec<u8>, body: &[u8]) -> (r: Vec<u8>)
    requires
        frame@.len() >= 9,
    ensures
        r@ == with_body(frame@, body@),
{
    let mut out: Vec<u8> = Vec::new();
    let mut i: usize = 0;
    while i < 5
        invariant
            i <= 5,
            frame@.len() >= 9,
            out@ == frame@.take(i as int),
        decreases 5 - i,
    {
        out.push(frame[i]);
        i = i + 1;
        assert(out@ =~= frame@.take(i as int));
    }
    push_i32(&mut out, body.len() as i32);
    push_all(&mut out, body);
    out
}

/// The bytes of `v` from `from` to `to`.
fn copy_range(v: &Vec<u8>, from: usize, to: usize) -> (r: Vec<u8>)
    requires
        from <= to <= v@.len(),
    ensures
        r@ == v@.subrange(from as int, to as int),
{
    let mut out: Vec<u8> = Vec::new();
    let mut i: usize = from;
    while i < to
        invariant
            from <= i <= to,
            to <= v@.len(),
            out@ == v@.subrange(from as int, i as int),
        decreases to - i,
    {
        out.push(v[i]);
        i = i + 1;
        assert(out@ =~= v@.subrange(from as int, i as int));
    }
    out
}

impl Compression {
    /// The name announced in STARTUP, if any.
    pub fn option(&self) -> (r: Option<&'static str>)
        ensures
            r is None <==> *self == Compression::Uncompressed,
            r is Some ==> r->0@ == option_name(*self),
    {
        match self {
            Compression::Uncompressed => None,
            Compression::Lz4 => Some("lz4"),
            Compression::Snappy => Some("snappy"),
        }
    }

    /// The header flag that frames compressed this way carry.
    pub fn flag(&self) -> (r: u8)
        ensures
            r == flag_of(*self),
    {
        match self {
            Compression::Uncompressed => 0,
            _ => COMPRESSION,
        }
    }

    /// Transforms the body of a frame and rewrites its length field.
    pub fn compress(&self, buffer: Vec<u8>) -> (r: Result<Vec<u8>, CompressionError>)
        ensures
            r is Ok <==> compress_spec(*self, buffer@) is Ok,
            r is Ok ==> r->Ok_0@ == compress_spec(*self, buffer@)->Ok_0,
            r is Err ==> r->Err_0 == compress_spec(*self, buffer@)->Err_0,
            9 <= buffer@.len() <= 9 + MAX_BODY ==> r is Ok,
    {
        if buffer.len() < HEADER_LENGTH {
            return Err(CompressionError::TooSmall);
        }
        let body = copy_range(&buffer, 9, buffer.len());
        assert(body@ =~= buffer@.skip(9));
        match self {
            Compression::Uncompressed => Ok(rebuild(&buffer, body.as_slice())),
            Compression::Lz4 => match lz4_compress(body.as_slice()) {
                Some(b) => Ok(rebuild(&buffer, b.as_slice())),
                None => Err(CompressionError::Codec),
            },
            Compression::Snappy => match snappy_compress(body.as_slice()) {
                Some(b) => Ok(rebuild(&buffer, b.as_slice())),
                None => Err(CompressionError::Codec),
            },
        }
    }

    /// Undoes `compress` on a frame whose header carries the compression flag;
    /// any other frame comes back as it is.
    pub fn decompress(&self, buffer: Vec<u8>) -> (r: Result<Vec<u8>, CompressionError>)
        ensures
            r is Ok <==> decompress_spec(*self, buffer@) is Ok,
            r is Ok ==> r->Ok_0@ == decompress_spec(*self, buffer@)->Ok_0,
            r is Err ==> r->Err_0 == decompress_spec(*self, buffer@)->Err_0,
    {
        if buffer.len() < HEADER_LENGTH {
            return Err(CompressionError::TooSmall);
        }
        if *self == Compression::Uncompressed || buffer[1] & COMPRESSION != COMPRESSION {
            return Ok(buffer);
        }
        let n = read_i32_at(buffer.as_slice(), 5);
        assert(buffer@.subrange(5, 9) =~= buffer@.skip(5).subrange(0, 4));
        if n < 0 || buffer.len() - 9 < n as usize {
            return Err(CompressionError::BadLength);
        }
        let block = copy_range(&buffer, 9, 9 + n as usize);
        match self {
            Compression::Lz4 => match lz4_decompress(block.as_slice()) {
                Some(b) => Ok(rebuild(&buffer, b.as_slice())),
                None => if n == 0 {
                    Ok(copy_range(&buffer, 0, 9))
                } else {
                    Err(CompressionError::Codec)
                },
            },
            _ => match snappy_decompress(block.as_slice()) {
                Some(b) => Ok(rebuild(&buffer, b.as_slice())),
                None => Err(CompressionError::Codec),
            },
        }
    }
}

/// A frame whose header does not carry the compression flag decompresses to itself.
pub proof fn lemma_decompress_unflagged(c: Compression, frame: Seq<u8>)
    requires
        frame.len() >= 9,
        !compressed_flag(frame),
    ensures
        decompress_spec(c, frame) == Ok::<Seq<u8>, CompressionError>(frame),
{
}

/// Compressing a frame and decompressing the result gives the frame back, with
/// its length field set to the length of its body. For LZ4 and Snappy this holds
/// wherever the codec gives back the body that it compressed; the frame must
/// carry the compression flag for the receiver to undo the transform.
pub proof fn lemma_compression_round_trip(c: Compression, frame: Seq<u8>)
    requires
        frame.len() >= 9,
        c == Compression::Uncompressed || compressed_flag(frame),
        compress_spec(c, frame) is Ok,
        compress_spec(c, frame)->Ok_0.len() <= 9 + i32::MAX,
        c == Compression::Lz4 ==> lz4_decompressed(lz4_compressed(frame.skip(9))->0) == Some(frame.skip(9)),
        c == Compression::Snappy ==> snappy_decompressed(snappy_compressed(frame.skip(9))->0) == Some(frame.skip(9)),
    ensures
        decompress_spec(c, compress_spec(c, frame)->Ok_0) == Ok::<Seq<u8>, CompressionError>(with_body(frame, frame.skip(9))),
{
    let body = frame.skip(9);
    let packed = compress_spec(c, frame)->Ok_0;
    if c != Compression::Uncompressed {
        let b = if c == Compression::Lz4 { lz4_compressed(body)->0 } else { snappy_compressed(body)->0 };
        assert(packed == with_body(frame, b));
        lemma_i32_round_trip(b.len() as i32);
        assert(packed.skip(5).subrange(0, 4) =~= i32_be(b.len() as i32));
        assert(i32_of(packed.skip(5)) == i32_of(i32_be(b.len() as i32)));
        assert(packed[1] == frame[1]);
        assert(packed.subrange(9, 9 + b.len() as int) =~= b);
        assert(packed.take(5) =~= frame.take(5));
    }
}

} // verus!
