//! Received frames: the header, what the header flags put before the body, and
//! the kind of body that follows.
use vstd::prelude::*;
use crate::compression::{decompress_spec, Compression, CompressionError};
use crate::error::{
    ALREADY_EXISTS, AUTHENTICATION_ERROR, CONFIGURE_ERROR, FUNCTION_FAILURE, INVALID, IS_BOOSTRAPPING, OVERLOADED,
    PROTOCOL_ERROR, READ_FAILURE, READ_TIMEOUT, SERVER_ERROR, SYNTAX_ERROR, TRUNCATE_ERROR, UNAUTHORIZED,
    UNAVAILABLE_EXCEPTION, UNPREPARED, WRITE_FAILURE, WRITE_TIMEOUT,
};
use crate::frame::{
    array16, bytes_map, bytes_map_model, bytes_map_spec, string_list, string_list_spec, texts, AUTHENTICATE, AUTH_CHALLENGE, AUTH_SUCCESS,
    COMPRESSION, CUSTOM_PAYLOAD, ERROR, READY, RESULT, ROWS, SUPPORTED, TRACING, VOID, WARNING,
};
use crate::wire::{i32_of, read_i32_at, u16_of, Reader};

verus! {

/// Why a received frame could not be read.
#[derive(Clone, Copy, PartialEq, Eq, Structural, Debug)]
pub enum DecodeError {
    /// The body could not be decompressed.
    Compression(CompressionError),
    /// The buffer is shorter than a frame header.
    TooSmall,
    /// The frame ends before what its header or body promises.
    Malformed,
    /// The frame is not of the kind asked for.
    UnexpectedKind,
}

/// The nine header bytes of a frame.
#[derive(Clone, Copy, Debug)]
pub struct Header {
    pub buffer: [u8; 9],
}

/// What the header flags put before the body, and the body kind of RESULT and
/// ERROR frames (zero for the others).
pub struct FlagsModel {
    pub tracing: Option<Seq<u8>>,
    pub warnings: Option<Seq<Seq<char>>>,
    pub payload: Option<Seq<(Seq<char>, Option<Seq<u8>>)>>,
    pub body_kind: i32,
    /// What follows, where the body proper starts.
    pub rest: Seq<u8>,
}

/// Reads what the flags of a header announce from the bytes after the header.
pub open spec fn header_flags_spec(flags: u8, opcode: u8, s: Seq<u8>) -> Option<FlagsModel> {
    let traced = flags & TRACING == TRACING;
    if traced && s.len() < 16 {
        None
    } else {
        let tracing = if traced { Some(s.take(16)) } else { None };
        let s1 = if traced { s.skip(16) } else { s };
        let warned = flags & WARNING == WARNING;
        let w = if warned { string_list_spec(s1) } else { Some((Seq::<Seq<char>>::empty(), s1)) };
        match w {
            None => None,
            Some(wp) => {
                let warnings = if warned { Some(wp.0) } else { None };
                let carried = flags & CUSTOM_PAYLOAD == CUSTOM_PAYLOAD;
                let c = if carried {
                    bytes_map_spec(wp.1)
                } else {
                    Some((Seq::<(Seq<char>, Option<Seq<u8>>)>::empty(), wp.1))
                };
                match c {
                    None => None,
                    Some(cp) => {
                        let payload = if carried { Some(cp.0) } else { None };
                        if opcode == ERROR || opcode == RESULT {
                            if cp.1.len() < 4 {
                                None
                            } else {
                                Some(FlagsModel { tracing, warnings, payload, body_kind: i32_of(cp.1), rest: cp.1.skip(4) })
                            }
                        } else {
                            Some(FlagsModel { tracing, warnings, payload, body_kind: 0, rest: cp.1 })
                        }
                    },
                }
            },
        }
    }
}

/// The header flags of a received frame.
pub struct HeaderFlags {
    pub compression: bool,
    pub tracing: Option<[u8; 16]>,
    pub custom_payload: bool,
    pub warnings: Option<Vec<String>>,
    /// The custom payload, as keys with their values.
    pub payload: Option<Vec<(String, Option<Vec<u8>>)>>,
    pub body_kind: i32,
}

impl HeaderFlags {
    /// Whether these flags hold what the spec reads, apart from where the body starts.
    pub open spec fn matches(&self, flags: u8, m: FlagsModel) -> bool {
        &&& self.compression == (flags & COMPRESSION == COMPRESSION)
        &&& self.custom_payload == (flags & CUSTOM_PAYLOAD == CUSTOM_PAYLOAD)
        &&& (self.tracing is Some <==> m.tracing is Some)
        &&& (self.tracing is Some ==> self.tracing->0@ == m.tracing->0)
        &&& (self.warnings is Some <==> m.warnings is Some)
        &&& (self.warnings is Some ==> texts(self.warnings->0@) == m.warnings->0)
        &&& (self.payload is Some <==> m.payload is Some)
        &&& (self.payload is Some ==> bytes_map_model(self.payload->0@) == m.payload->0)
        &&& self.body_kind == m.body_kind
    }

    /// Whether the frame is compressed.
    pub fn compression(&self) -> (r: bool)
        ensures
            r == self.compression,
    {
        self.compression
    }

    /// Takes the tracing id out.
    pub fn take_tracing_id(&mut self) -> (r: Option<[u8; 16]>)
        ensures
            r == old(self).tracing,
            final(self).tracing is None,
            final(self).warnings == old(self).warnings,
            final(self).payload == old(self).payload,
            final(self).body_kind == old(self).body_kind,
    {
        self.tracing.take()
    }

    /// Takes the warnings out.
    pub fn take_warnings(&mut self) -> (r: Option<Vec<String>>)
        ensures
            r == old(self).warnings,
            final(self).warnings is None,
            final(self).tracing == old(self).tracing,
            final(self).payload == old(self).payload,
            final(self).body_kind == old(self).body_kind,
    {
        self.warnings.take()
    }

    /// Takes the custom payload out.
    pub fn take_custom_payload(&mut self) -> (r: Option<Vec<(String, Option<Vec<u8>>)>>)
        ensures
            r == old(self).payload,
            final(self).payload is None,
            final(self).tracing == old(self).tracing,
            final(self).warnings == old(self).warnings,
            final(self).body_kind == old(self).body_kind,
    {
        self.payload.take()
    }

    /// The body kind of a RESULT or ERROR frame, zero otherwise.
    pub fn body_kind(&self) -> (r: i32)
        ensures
            r == self.body_kind,
    {
        self.body_kind
    }
}

impl Header {
    /// A header from its nine bytes.
    pub fn new(buffer: [u8; 9]) -> (r: Header)
        ensures
            r.buffer == buffer,
    {
        Header { buffer }
    }

    /// The version byte.
    pub fn version(&self) -> (r: u8)
        ensures
            r == self.buffer@[0],
    {
        self.buffer[0]
    }

    /// The flags byte.
    pub fn flags(&self) -> (r: u8)
        ensures
            r == self.buffer@[1],
    {
        self.buffer[1]
    }

    /// The stream id.
    pub fn stream(&self) -> (r: i16)
        ensures
            r == u16_of(self.buffer@.subrange(2, 4)) as i16,
    {
        ((self.buffer[2] as u16) * 256 + self.buffer[3] as u16) as i16
    }

    /// The opcode.
    pub fn opcode(&self) -> (r: u8)
        ensures
            r == self.buffer@[4],
    {
        self.buffer[4]
    }

    /// The body length of the length field.
    pub fn length(&self) -> (r: usize)
        ensures
            r == i32_of(self.buffer@.skip(5)) as usize,
    {
        let n = read_i32_at(self.buffer.as_slice(), 5);
        assert(self.buffer@.subrange(5, 9) =~= self.buffer@.skip(5).subrange(0, 4));
        n as usize
    }

    /// Whether the frame is an ERROR.
    pub fn is_error(&self) -> (r: bool)
        ensures
            r == (self.buffer@[4] == ERROR),
    {
        self.opcode() == ERROR
    }

    /// Whether the frame is a RESULT.
    pub fn is_result(&self) -> (r: bool)
        ensures
            r == (self.buffer@[4] == RESULT),
    {
        self.opcode() == RESULT
    }

    /// Reads what the header's flags announce, and the body kind of a RESULT
    /// or ERROR frame, from the bytes after the header.
    pub fn header_flags(&self, reader: &mut Reader) -> (r: Option<HeaderFlags>)
        ensures
            final(reader).data() == old(reader).data(),
            r is Some <==> header_flags_spec(self.buffer@[1], self.buffer@[4], old(reader).rest()) is Some,
            r is Some ==> r->0.matches(self.buffer@[1], header_flags_spec(self.buffer@[1], self.buffer@[4], old(reader).rest())->0)
                && final(reader).rest() == header_flags_spec(self.buffer@[1], self.buffer@[4], old(reader).rest())->0.rest,
    {
        let flags = self.flags();
        let compression = flags & COMPRESSION == COMPRESSION;
        let tracing = if flags & TRACING == TRACING {
            match reader.read_bytes(16) {
                Some(id) => {
                    assert(id@.len() == 16);
                    Some(array16(id.as_slice()))
                },
                None => return None,
            }
        } else {
            None
        };
        let warnings = if flags & WARNING == WARNING {
            match string_list(reader) {
                Some(list) => Some(list),
                None => return None,
            }
        } else {
            None
        };
        let custom_payload = flags & CUSTOM_PAYLOAD == CUSTOM_PAYLOAD;
        let payload = if custom_payload {
            match bytes_map(reader) {
                Some(p) => Some(p),
                None => return None,
            }
        } else {
            None
        };
        let mut body_kind: i32 = 0;
        if self.is_error() || self.is_result() {
            match reader.read_i32() {
                Some(k) => body_kind = k,
                None => return None,
            }
        }
        Some(HeaderFlags { compression, tracing, custom_payload, warnings, payload, body_kind })
    }
}

/// A received frame: its header, its header flags, and a reader positioned at
/// the start of the body proper.
pub struct Decoder {
    pub reader: Reader,
    pub header: Header,
    pub header_flags: HeaderFlags,
}

/// The frame that decompression leaves, when it succeeds.
pub open spec fn plain_frame(c: Compression, buffer: Seq<u8>) -> Seq<u8> {
    decompress_spec(c, buffer)->Ok_0
}

impl Decoder {
    /// Decompresses a received frame and reads its header.
    pub fn new(buffer: Vec<u8>, compression: Compression) -> (r: Result<Decoder, DecodeError>)
        ensures
            decompress_spec(compression, buffer@) is Err ==> r == Err::<Decoder, DecodeError>(
                DecodeError::Compression(decompress_spec(compression, buffer@)->Err_0),
            ),
            decompress_spec(compression, buffer@) is Ok ==> ({
                let f = plain_frame(compression, buffer@);
                &&& f.len() < 9 ==> r == Err::<Decoder, DecodeError>(DecodeError::TooSmall)
                &&& f.len() >= 9 && header_flags_spec(f[1], f[4], f.skip(9)) is None ==> r == Err::<Decoder, DecodeError>(DecodeError::Malformed)
                &&& f.len() >= 9 && header_flags_spec(f[1], f[4], f.skip(9)) is Some ==> {
                    &&& r is Ok
                    &&& r->Ok_0.header.buffer@ == f.take(9)
                    &&& r->Ok_0.header_flags.matches(f[1], header_flags_spec(f[1], f[4], f.skip(9))->0)
                    &&& r->Ok_0.reader.rest() == header_flags_spec(f[1], f[4], f.skip(9))->0.rest
                    &&& r->Ok_0.reader.data() == f
                }
            }),
    {
        let frame = match compression.decompress(buffer) {
            Ok(f) => f,
            Err(e) => return Err(DecodeError::Compression(e)),
        };
        if frame.len() < 9 {
            return Err(DecodeError::TooSmall);
        }
        let mut reader = Reader::new(frame);
        let head = match reader.read_bytes(9) {
            Some(h) => h,
            None => return Err(DecodeError::TooSmall),
        };
        let buf = [head[0], head[1], head[2], head[3], head[4], head[5], head[6], head[7], head[8]];
        let header = Header::new(buf);
        assert(header.buffer@ =~= head@);
        let header_flags = match header.header_flags(&mut reader) {
            Some(f) => f,
            None => return Err(DecodeError::Malformed),
        };
        Ok(Decoder { reader, header, header_flags })
    }

    /// The reader over the body.
    pub fn reader(&mut self) -> (r: &mut Reader)
        ensures
            *r == old(self).reader,
            final(self).reader == *final(r),
            final(self).header == old(self).header,
            final(self).header_flags == old(self).header_flags,
    {
        &mut self.reader
    }

    /// Gives back the whole frame.
    pub fn into_buffer(self) -> (r: Vec<u8>)
        ensures
            r@ == self.reader.data(),
    {
        self.reader.into_inner()
    }

    /// The header flags.
    pub fn header_flags(&self) -> (r: &HeaderFlags)
        ensures
            r == &self.header_flags,
    {
        &self.header_flags
    }

    /// The version byte.
    pub fn version(&self) -> (r: u8)
        ensures
            r == self.header.buffer@[0],
    {
        self.header.version()
    }

    /// The stream id.
    pub fn stream(&self) -> (r: i16)
        ensures
            r == u16_of(self.header.buffer@.subrange(2, 4)) as i16,
    {
        self.header.stream()
    }

    /// The opcode.
    pub fn opcode(&self) -> (r: u8)
        ensures
            r == self.header.buffer@[4],
    {
        self.header.opcode()
    }

    /// The body length of the header.
    pub fn length(&self) -> (r: usize)
        ensures
            r == i32_of(self.header.buffer@.skip(5)) as usize,
    {
        self.header.length()
    }

    /// The body kind of a RESULT or ERROR frame.
    pub open spec fn kind(&self) -> i32 {
        self.header_flags.body_kind
    }

    /// Whether the frame is an AUTHENTICATE.
    pub fn is_authenticate(&self) -> (r: bool)
        ensures
            r == (self.header.buffer@[4] == AUTHENTICATE),
    {
        self.opcode() == AUTHENTICATE
    }

    /// Whether the frame is an AUTH_CHALLENGE.
    pub fn is_auth_challenge(&self) -> (r: bool)
        ensures
            r == (self.header.buffer@[4] == AUTH_CHALLENGE),
    {
        self.opcode() == AUTH_CHALLENGE
    }

    /// Whether the frame is an AUTH_SUCCESS.
    pub fn is_auth_success(&self) -> (r: bool)
        ensures
            r == (self.header.buffer@[4] == AUTH_SUCCESS),
    {
        self.opcode() == AUTH_SUCCESS
    }

    /// Whether the frame is a SUPPORTED.
    pub fn is_supported(&self) -> (r: bool)
        ensures
            r == (self.header.buffer@[4] == SUPPORTED),
    {
        self.opcode() == SUPPORTED
    }

    /// Whether the frame is a READY.
    pub fn is_ready(&self) -> (r: bool)
        ensures
            r == (self.header.buffer@[4] == READY),
    {
        self.opcode() == READY
    }

    /// Whether the frame is a RESULT of kind Void.
    pub fn is_void(&self) -> (r: bool)
        ensures
            r == (self.header.buffer@[4] == RESULT && self.kind() == VOID),
    {
        self.opcode() == RESULT && self.header_flags.body_kind() == VOID
    }

    /// Whether the frame is a RESULT of kind Rows.
    pub fn is_rows(&self) -> (r: bool)
        ensures
            r == (self.header.buffer@[4] == RESULT && self.kind() == ROWS),
    {
        self.opcode() == RESULT && self.header_flags.body_kind() == ROWS
    }

    /// Whether the frame is an ERROR.
    pub fn is_error(&self) -> (r: bool)
        ensures
            r == (self.header.buffer@[4] == ERROR),
    {
        self.header.is_error()
    }

    /// Whether the frame is an ERROR with the given code.
    pub fn is_error_code(&self, code: i32) -> (r: bool)
        ensures
            r == (self.header.buffer@[4] == ERROR && self.kind() == code),
    {
        self.opcode() == ERROR && self.header_flags.body_kind() == code
    }

    /// Whether the frame is an ERROR with code UNPREPARED.
    pub fn is_unprepared(&self) -> (r: bool)
        ensures
            r == (self.header.buffer@[4] == ERROR && self.kind() == UNPREPARED),
    {
        self.is_error_code(UNPREPARED)
    }

    /// Whether the frame is an ERROR with code ALREADY_EXISTS.
    pub fn is_already_exists(&self) -> (r: bool)
        ensures
            r == (self.header.buffer@[4] == ERROR && self.kind() == ALREADY_EXISTS),
    {
        self.is_error_code(ALREADY_EXISTS)
    }

    /// Whether the frame is an ERROR with code CONFIGURE_ERROR.
    pub fn is_configure_error(&self) -> (r: bool)
        ensures
            r == (self.header.buffer@[4] == ERROR && self.kind() == CONFIGURE_ERROR),
    {
        self.is_error_code(CONFIGURE_ERROR)
    }

    /// Whether the frame is an ERROR with code INVALID.
    pub fn is_invalid(&self) -> (r: bool)
        ensures
            r == (self.header.buffer@[4] == ERROR && self.kind() == INVALID),
    {
        self.is_error_code(INVALID)
    }

    /// Whether the frame is an ERROR with code UNAUTHORIZED.
    pub fn is_unauthorized(&self) -> (r: bool)
        ensures
            r == (self.header.buffer@[4] == ERROR && self.kind() == UNAUTHORIZED),
    {
        self.is_error_code(UNAUTHORIZED)
    }

    /// Whether the frame is an ERROR with code SYNTAX_ERROR.
    pub fn is_syntax_error(&self) -> (r: bool)
        ensures
            r == (self.header.buffer@[4] == ERROR && self.kind() == SYNTAX_ERROR),
    {
        self.is_error_code(SYNTAX_ERROR)
    }

    /// Whether the frame is an ERROR with code WRITE_FAILURE.
    pub fn is_write_failure(&self) -> (r: bool)
        ensures
            r == (self.header.buffer@[4] == ERROR && self.kind() == WRITE_FAILURE),
    {
        self.is_error_code(WRITE_FAILURE)
    }

    /// Whether the frame is an ERROR with code FUNCTION_FAILURE.
    pub fn is_function_failure(&self) -> (r: bool)
        ensures
            r == (self.header.buffer@[4] == ERROR && self.kind() == FUNCTION_FAILURE),
    {
        self.is_error_code(FUNCTION_FAILURE)
    }

    /// Whether the frame is an ERROR with code READ_FAILURE.
    pub fn is_read_failure(&self) -> (r: bool)
        ensures
            r == (self.header.buffer@[4] == ERROR && self.kind() == READ_FAILURE),
    {
        self.is_error_code(READ_FAILURE)
    }

    /// Whether the frame is an ERROR with code READ_TIMEOUT.
    pub fn is_read_timeout(&self) -> (r: bool)
        ensures
            r == (self.header.buffer@[4] == ERROR && self.kind() == READ_TIMEOUT),
    {
        self.is_error_code(READ_TIMEOUT)
    }

    /// Whether the frame is an ERROR with code WRITE_TIMEOUT.
    pub fn is_write_timeout(&self) -> (r: bool)
        ensures
            r == (self.header.buffer@[4] == ERROR && self.kind() == WRITE_TIMEOUT),
    {
        self.is_error_code(WRITE_TIMEOUT)
    }

    /// Whether the frame is an ERROR with code TRUNCATE_ERROR.
    pub fn is_truncate_error(&self) -> (r: bool)
        ensures
            r == (self.header.buffer@[4] == ERROR && self.kind() == TRUNCATE_ERROR),
    {
        self.is_error_code(TRUNCATE_ERROR)
    }

    /// Whether the frame is an ERROR with code IS_BOOSTRAPPING.
    pub fn is_boostrapping(&self) -> (r: bool)
        ensures
            r == (self.header.buffer@[4] == ERROR && self.kind() == IS_BOOSTRAPPING),
    {
        self.is_error_code(IS_BOOSTRAPPING)
    }

    /// Whether the frame is an ERROR with code OVERLOADED.
    pub fn is_overloaded(&self) -> (r: bool)
        ensures
            r == (self.header.buffer@[4] == ERROR && self.kind() == OVERLOADED),
    {
        self.is_error_code(OVERLOADED)
    }

    /// Whether the frame is an ERROR with code UNAVAILABLE_EXCEPTION.
    pub fn is_unavailable_exception(&self) -> (r: bool)
        ensures
            r == (self.header.buffer@[4] == ERROR && self.kind() == UNAVAILABLE_EXCEPTION),
    {
        self.is_error_code(UNAVAILABLE_EXCEPTION)
    }

    /// Whether the frame is an ERROR with code AUTHENTICATION_ERROR.
    pub fn is_authentication_error(&self) -> (r: bool)
        ensures
            r == (self.header.buffer@[4] == ERROR && self.kind() == AUTHENTICATION_ERROR),
    {
        self.is_error_code(AUTHENTICATION_ERROR)
    }

    /// Whether the frame is an ERROR with code PROTOCOL_ERROR.
    pub fn is_protocol_error(&self) -> (r: bool)
        ensures
            r == (self.header.buffer@[4] == ERROR && self.kind() == PROTOCOL_ERROR),
    {
        self.is_error_code(PROTOCOL_ERROR)
    }

    /// Whether the frame is an ERROR with code SERVER_ERROR.
    pub fn is_server_error(&self) -> (r: bool)
        ensures
            r == (self.header.buffer@[4] == ERROR && self.kind() == SERVER_ERROR),
    {
        self.is_error_code(SERVER_ERROR)
    }

    /// A Void result, or the error that the frame is instead.
    pub fn get_void(&self) -> (r: Result<(), DecodeError>)
        ensures
            r is Ok <==> (self.header.buffer@[4] == RESULT && self.kind() == VOID),
            r is Err ==> r->Err_0 == DecodeError::UnexpectedKind,
    {
        if self.is_void() {
            Ok(())
        } else {
            Err(DecodeError::UnexpectedKind)
        }
    }
}

} // verus!
