//! Errors that the server reports in ERROR frames.
use vstd::prelude::*;
use crate::consistency::{consistency_code, Consistency};
use crate::decoder::{DecodeError, Decoder};
use crate::frame::{prepared_id, prepared_id_spec, string, string_list, string_list_spec, string_spec, texts};
use crate::wire::{i32_of, u16_of, Reader};

verus! {

pub const SERVER_ERROR: i32 = 0x0000;
pub const PROTOCOL_ERROR: i32 = 0x000A;
pub const AUTHENTICATION_ERROR: i32 = 0x0100;
pub const UNAVAILABLE_EXCEPTION: i32 = 0x1000;
pub const OVERLOADED: i32 = 0x1001;
pub const IS_BOOSTRAPPING: i32 = 0x1002;
pub const TRUNCATE_ERROR: i32 = 0x1003;
pub const WRITE_TIMEOUT: i32 = 0x1100;
pub const READ_TIMEOUT: i32 = 0x1200;
pub const READ_FAILURE: i32 = 0x1300;
pub const FUNCTION_FAILURE: i32 = 0x1400;
pub const WRITE_FAILURE: i32 = 0x1500;
pub const SYNTAX_ERROR: i32 = 0x2000;
pub const UNAUTHORIZED: i32 = 0x2100;
pub const INVALID: i32 = 0x2200;
pub const CONFIGURE_ERROR: i32 = 0x2300;
pub const ALREADY_EXISTS: i32 = 0x2400;
pub const UNPREPARED: i32 = 0x2500;

/// The error codes of the protocol.
#[derive(Clone, Copy, PartialEq, Eq, Structural, Debug)]
pub enum ErrorCodes {
    ServerError,
    ProtocolError,
    AuthenticationError,
    UnavailableException,
    Overloaded,
    IsBoostrapping,
    TruncateError,
    WriteTimeout,
    ReadTimeout,
    ReadFailure,
    FunctionFailure,
    WriteFailure,
    SyntaxError,
    Unauthorized,
    Invalid,
    ConfigureError,
    AlreadyExists,
    Unprepared,
}

/// The code that stands on the wire for an error.
pub open spec fn error_code(c: ErrorCodes) -> i32 {
    match c {
        ErrorCodes::ServerError => SERVER_ERROR,
        ErrorCodes::ProtocolError => PROTOCOL_ERROR,
        ErrorCodes::AuthenticationError => AUTHENTICATION_ERROR,
        ErrorCodes::UnavailableException => UNAVAILABLE_EXCEPTION,
        ErrorCodes::Overloaded => OVERLOADED,
        ErrorCodes::IsBoostrapping => IS_BOOSTRAPPING,
        ErrorCodes::TruncateError => TRUNCATE_ERROR,
        ErrorCodes::WriteTimeout => WRITE_TIMEOUT,
        ErrorCodes::ReadTimeout => READ_TIMEOUT,
        ErrorCodes::ReadFailure => READ_FAILURE,
        ErrorCodes::FunctionFailure => FUNCTION_FAILURE,
        ErrorCodes::WriteFailure => WRITE_FAILURE,
        ErrorCodes::SyntaxError => SYNTAX_ERROR,
        ErrorCodes::Unauthorized => UNAUTHORIZED,
        ErrorCodes::Invalid => INVALID,
        ErrorCodes::ConfigureError => CONFIGURE_ERROR,
        ErrorCodes::AlreadyExists => ALREADY_EXISTS,
        ErrorCodes::Unprepared => UNPREPARED,
    }
}

/// Whether some error has this code.
pub open spec fn known_error_code(v: i32) -> bool {
    v == SERVER_ERROR || v == PROTOCOL_ERROR || v == AUTHENTICATION_ERROR || v == UNAVAILABLE_EXCEPTION
        || v == OVERLOADED || v == IS_BOOSTRAPPING || v == TRUNCATE_ERROR || v == WRITE_TIMEOUT
        || v == READ_TIMEOUT || v == READ_FAILURE || v == FUNCTION_FAILURE || v == WRITE_FAILURE
        || v == SYNTAX_ERROR || v == UNAUTHORIZED || v == INVALID || v == CONFIGURE_ERROR
        || v == ALREADY_EXISTS || v == UNPREPARED
}

impl ErrorCodes {
    /// The error with the given code, if there is one.
    pub fn from_code(v: i32) -> (r: Option<ErrorCodes>)
        ensures
            r is Some <==> known_error_code(v),
            r is Some ==> error_code(r->0) == v && r->0 == code_for(v),
    {
        let r = match v {
            SERVER_ERROR => Some(ErrorCodes::ServerError),
            PROTOCOL_ERROR => Some(ErrorCodes::ProtocolError),
            AUTHENTICATION_ERROR => Some(ErrorCodes::AuthenticationError),
            UNAVAILABLE_EXCEPTION => Some(ErrorCodes::UnavailableException),
            OVERLOADED => Some(ErrorCodes::Overloaded),
            IS_BOOSTRAPPING => Some(ErrorCodes::IsBoostrapping),
            TRUNCATE_ERROR => Some(ErrorCodes::TruncateError),
            WRITE_TIMEOUT => Some(ErrorCodes::WriteTimeout),
            READ_TIMEOUT => Some(ErrorCodes::ReadTimeout),
            READ_FAILURE => Some(ErrorCodes::ReadFailure),
            FUNCTION_FAILURE => Some(ErrorCodes::FunctionFailure),
            WRITE_FAILURE => Some(ErrorCodes::WriteFailure),
            SYNTAX_ERROR => Some(ErrorCodes::SyntaxError),
            UNAUTHORIZED => Some(ErrorCodes::Unauthorized),
            INVALID => Some(ErrorCodes::Invalid),
            CONFIGURE_ERROR => Some(ErrorCodes::ConfigureError),
            ALREADY_EXISTS => Some(ErrorCodes::AlreadyExists),
            UNPREPARED => Some(ErrorCodes::Unprepared),
            _ => None,
        };
        r
    }

    /// Whether a request that failed with this error may be sent again.
    pub fn is_retryable(&self) -> (r: bool)
        ensures
            r == retryable(*self),
    {
        match self {
            ErrorCodes::SyntaxError | ErrorCodes::Unauthorized | ErrorCodes::Invalid
            | ErrorCodes::AlreadyExists | ErrorCodes::FunctionFailure | ErrorCodes::ConfigureError
            | ErrorCodes::ProtocolError | ErrorCodes::AuthenticationError | ErrorCodes::Unprepared => false,
            _ => true,
        }
    }
}

/// Errors worth another attempt: timeouts, unavailability, overload and the
/// transient server states. Statement errors are not, and an unprepared
/// statement is handled by preparing it.
pub open spec fn retryable(c: ErrorCodes) -> bool {
    !(c == ErrorCodes::SyntaxError || c == ErrorCodes::Unauthorized || c == ErrorCodes::Invalid
        || c == ErrorCodes::AlreadyExists || c == ErrorCodes::FunctionFailure
        || c == ErrorCodes::ConfigureError || c == ErrorCodes::ProtocolError
        || c == ErrorCodes::AuthenticationError || c == ErrorCodes::Unprepared)
}

/// The kind of write that timed out or failed.
#[derive(Clone, Copy, PartialEq, Eq, Structural, Debug)]
pub enum WriteType {
    Simple,
    Batch,
    UnloggedBatch,
    Counter,
    BatchLog,
    Cas,
    View,
    Cdc,
}

/// The name of a write type on the wire.
pub open spec fn write_type_name(w: WriteType) -> Seq<char> {
    match w {
        WriteType::Simple => seq!['S', 'I', 'M', 'P', 'L', 'E'],
        WriteType::Batch => seq!['B', 'A', 'T', 'C', 'H'],
        WriteType::UnloggedBatch => seq!['U', 'N', 'L', 'O', 'G', 'G', 'E', 'D', '_', 'B', 'A', 'T', 'C', 'H'],
        WriteType::Counter => seq!['C', 'O', 'U', 'N', 'T', 'E', 'R'],
        WriteType::BatchLog => seq!['B', 'A', 'T', 'C', 'H', '_', 'L', 'O', 'G'],
        WriteType::Cas => seq!['C', 'A', 'S'],
        WriteType::View => seq!['V', 'I', 'E', 'W'],
        WriteType::Cdc => seq!['C', 'D', 'C'],
    }
}

/// Whether a string spells the given characters.
fn spells(s: &String, word: &[char]) -> (r: bool)
    ensures
        r == (s@ == word@),
{
    let mut chars: Vec<char> = Vec::new();
    let t = s.as_str();
    let n = t.unicode_len();
    if n != word.len() {
        return false;
    }
    let mut i: usize = 0;
    while i < n
        invariant
            i <= n,
            n == t@.len(),
            n == word@.len(),
            t@ == s@,
            forall|j: int| 0 <= j < i ==> t@[j] == word@[j],
        decreases n - i,
    {
        if t.get_char(i) != word[i] {
            return false;
        }
        i = i + 1;
    }
    assert(s@ =~= word@);
    true
}

/// The write type that a name spells, if any.
pub open spec fn write_type_of_name(s: Seq<char>) -> Option<WriteType> {
    if s == write_type_name(WriteType::Simple) {
        Some(WriteType::Simple)
    } else if s == write_type_name(WriteType::Batch) {
        Some(WriteType::Batch)
    } else if s == write_type_name(WriteType::UnloggedBatch) {
        Some(WriteType::UnloggedBatch)
    } else if s == write_type_name(WriteType::Counter) {
        Some(WriteType::Counter)
    } else if s == write_type_name(WriteType::BatchLog) {
        Some(WriteType::BatchLog)
    } else if s == write_type_name(WriteType::Cas) {
        Some(WriteType::Cas)
    } else if s == write_type_name(WriteType::View) {
        Some(WriteType::View)
    } else if s == write_type_name(WriteType::Cdc) {
        Some(WriteType::Cdc)
    } else {
        None
    }
}

impl WriteType {
    /// The name of the write type on the wire.
    pub fn name(&self) -> (r: Vec<char>)
        ensures
            r@ == write_type_name(*self),
    {
        let v = match self {
            WriteType::Simple => vec!['S', 'I', 'M', 'P', 'L', 'E'],
            WriteType::Batch => vec!['B', 'A', 'T', 'C', 'H'],
            WriteType::UnloggedBatch => vec!['U', 'N', 'L', 'O', 'G', 'G', 'E', 'D', '_', 'B', 'A', 'T', 'C', 'H'],
            WriteType::Counter => vec!['C', 'O', 'U', 'N', 'T', 'E', 'R'],
            WriteType::BatchLog => vec!['B', 'A', 'T', 'C', 'H', '_', 'L', 'O', 'G'],
            WriteType::Cas => vec!['C', 'A', 'S'],
            WriteType::View => vec!['V', 'I', 'E', 'W'],
            WriteType::Cdc => vec!['C', 'D', 'C'],
        };
        assert(v@ =~= write_type_name(*self));
        v
    }

    /// The write type that a name spells, if any.
    pub fn from_name(s: &String) -> (r: Option<WriteType>)
        ensures
            r == write_type_of_name(s@),
    {
        let all = [
            WriteType::Simple, WriteType::Batch, WriteType::UnloggedBatch, WriteType::Counter,
            WriteType::BatchLog, WriteType::Cas, WriteType::View, WriteType::Cdc,
        ];
        let mut i: usize = 0;
        while i < 8
            invariant
                i <= 8,
                all@ == seq![
                    WriteType::Simple, WriteType::Batch, WriteType::UnloggedBatch, WriteType::Counter,
                    WriteType::BatchLog, WriteType::Cas, WriteType::View, WriteType::Cdc,
                ],
                forall|j: int| 0 <= j < i ==> write_type_name(#[trigger] all@[j]) != s@,
            decreases 8 - i,
        {
            let w = all[i];
            if spells(s, w.name().as_slice()) {
                return Some(w);
            }
            i = i + 1;
        }
        assert(write_type_name(all@[0]) != s@);
        assert(write_type_name(all@[7]) != s@);
        None
    }
}

/// Reads a `[consistency]`.
pub fn read_consistency(reader: &mut Reader) -> (r: Option<Consistency>)
    ensures
        final(reader).data() == old(reader).data(),
        r is Some <==> old(reader).rest().len() >= 2 && u16_of(old(reader).rest()) <= 10,
        r is Some ==> consistency_code(r->0) == u16_of(old(reader).rest())
            && final(reader).rest() == old(reader).rest().skip(2),
{
    match reader.read_u16() {
        Some(v) => Consistency::from_code(v),
        None => None,
    }
}

/// Reads a write type by its name.
pub fn read_write_type(reader: &mut Reader) -> (r: Option<WriteType>)
    ensures
        final(reader).data() == old(reader).data(),
        r is Some <==> string_spec(old(reader).rest()) is Some
            && write_type_of_name((string_spec(old(reader).rest())->0).0) is Some,
        r is Some ==> r == write_type_of_name((string_spec(old(reader).rest())->0).0)
            && final(reader).rest() == old(reader).rest().skip((string_spec(old(reader).rest())->0).1),
{
    match string(reader) {
        Some(name) => WriteType::from_name(&name),
        None => None,
    }
}

/// Not enough replicas were alive.
#[derive(Clone, Copy, Debug)]
pub struct UnavailableException {
    pub cl: Consistency,
    pub required: i32,
    pub alive: i32,
}

/// Replicas did not acknowledge a write in time.
#[derive(Clone, Copy, Debug)]
pub struct WriteTimeout {
    pub cl: Consistency,
    pub received: i32,
    pub blockfor: i32,
    pub writetype: WriteType,
}

/// Replicas did not answer a read in time.
#[derive(Clone, Copy, Debug)]
pub struct ReadTimeout {
    pub cl: Consistency,
    pub received: i32,
    pub blockfor: i32,
    /// Zero when the replica asked for the data did not answer.
    pub data_present: u8,
}

/// Replicas failed while reading.
#[derive(Clone, Copy, Debug)]
pub struct ReadFailure {
    pub cl: Consistency,
    pub received: i32,
    pub blockfor: i32,
    pub num_failures: i32,
    pub data_present: u8,
}

/// A user-defined function failed.
pub struct FunctionFailure {
    pub keyspace: String,
    pub function: String,
    pub arg_types: Vec<String>,
}

/// Replicas failed while writing.
#[derive(Clone, Copy, Debug)]
pub struct WriteFailure {
    pub cl: Consistency,
    pub received: i32,
    pub blockfor: i32,
    pub num_failures: i32,
    pub writetype: WriteType,
}

/// A keyspace or table that a statement creates exists already.
pub struct AlreadyExists {
    pub ks: String,
    pub table: String,
}

/// The server does not know a prepared statement.
#[derive(Clone, Copy, Debug)]
pub struct Unprepared {
    pub id: [u8; 16],
}

/// What some errors carry beyond their message.
pub enum Additional {
    UnavailableException(UnavailableException),
    WriteTimeout(WriteTimeout),
    ReadTimeout(ReadTimeout),
    ReadFailure(ReadFailure),
    FunctionFailure(FunctionFailure),
    WriteFailure(WriteFailure),
    AlreadyExists(AlreadyExists),
    Unprepared(Unprepared),
}

/// An error that the server reported.
pub struct CqlError {
    pub code: ErrorCodes,
    pub message: String,
    pub additional: Option<Additional>,
}

impl UnavailableException {
    pub fn read(reader: &mut Reader) -> (r: Option<UnavailableException>)
        ensures
            final(reader).data() == old(reader).data(),
            r is Some <==> old(reader).rest().len() >= 10 && u16_of(old(reader).rest()) <= 10,
            r is Some ==> consistency_code(r->0.cl) == u16_of(old(reader).rest())
                && r->0.required == i32_of(old(reader).rest().skip(2))
                && r->0.alive == i32_of(old(reader).rest().skip(6))
                && final(reader).rest() == old(reader).rest().skip(10),
    {
        let ghost s = reader.rest();
        if reader.remaining() < 10 {
            return None;
        }
        let cl = match read_consistency(reader) {
            Some(c) => c,
            None => return None,
        };
        let required = match reader.read_i32() {
            Some(v) => v,
            None => return None,
        };
        assert(s.skip(2).skip(4) =~= s.skip(6));
        let alive = match reader.read_i32() {
            Some(v) => v,
            None => return None,
        };
        assert(s.skip(6).skip(4) =~= s.skip(10));
        Some(UnavailableException { cl, required, alive })
    }
}

impl ReadTimeout {
    pub fn read(reader: &mut Reader) -> (r: Option<ReadTimeout>)
        ensures
            final(reader).data() == old(reader).data(),
            r is Some <==> old(reader).rest().len() >= 11 && u16_of(old(reader).rest()) <= 10,
            r is Some ==> consistency_code(r->0.cl) == u16_of(old(reader).rest())
                && r->0.received == i32_of(old(reader).rest().skip(2))
                && r->0.blockfor == i32_of(old(reader).rest().skip(6))
                && r->0.data_present == old(reader).rest()[10]
                && final(reader).rest() == old(reader).rest().skip(11),
    {
        let ghost s = reader.rest();
        if reader.remaining() < 11 {
            return None;
        }
        let cl = match read_consistency(reader) {
            Some(c) => c,
            None => return None,
        };
        let received = match reader.read_i32() {
            Some(v) => v,
            None => return None,
        };
        assert(s.skip(2).skip(4) =~= s.skip(6));
        let blockfor = match reader.read_i32() {
            Some(v) => v,
            None => return None,
        };
        assert(s.skip(6).skip(4) =~= s.skip(10));
        let data_present = match reader.read_u8() {
            Some(v) => v,
            None => return None,
        };
        assert(s.skip(10).skip(1) =~= s.skip(11));
        Some(ReadTimeout { cl, received, blockfor, data_present })
    }

    /// Whether the replica asked for the data did not answer.
    pub fn replica_had_not_responded(&self) -> (r: bool)
        ensures
            r == (self.data_present == 0),
    {
        self.data_present == 0
    }
}

impl ReadFailure {
    pub fn read(reader: &mut Reader) -> (r: Option<ReadFailure>)
        ensures
            final(reader).data() == old(reader).data(),
            r is Some <==> old(reader).rest().len() >= 15 && u16_of(old(reader).rest()) <= 10,
            r is Some ==> consistency_code(r->0.cl) == u16_of(old(reader).rest())
                && r->0.received == i32_of(old(reader).rest().skip(2))
                && r->0.blockfor == i32_of(old(reader).rest().skip(6))
                && r->0.num_failures == i32_of(old(reader).rest().skip(10))
                && r->0.data_present == old(reader).rest()[14]
                && final(reader).rest() == old(reader).rest().skip(15),
    {
        let ghost s = reader.rest();
        if reader.remaining() < 15 {
            return None;
        }
        let cl = match read_consistency(reader) {
            Some(c) => c,
            None => return None,
        };
        let received = match reader.read_i32() {
            Some(v) => v,
            None => return None,
        };
        assert(s.skip(2).skip(4) =~= s.skip(6));
        let blockfor = match reader.read_i32() {
            Some(v) => v,
            None => return None,
        };
        assert(s.skip(6).skip(4) =~= s.skip(10));
        let num_failures = match reader.read_i32() {
            Some(v) => v,
            None => return None,
        };
        assert(s.skip(10).skip(4) =~= s.skip(14));
        let data_present = match reader.read_u8() {
            Some(v) => v,
            None => return None,
        };
        assert(s.skip(14).skip(1) =~= s.skip(15));
        Some(ReadFailure { cl, received, blockfor, num_failures, data_present })
    }

    /// Whether the replica asked for the data did not answer.
    pub fn replica_had_not_responded(&self) -> (r: bool)
        ensures
            r == (self.data_present == 0),
    {
        self.data_present == 0
    }
}

impl WriteTimeout {
    pub fn read(reader: &mut Reader) -> (r: Option<WriteTimeout>)
        ensures
            final(reader).data() == old(reader).data(),
            r is Some <==> old(reader).rest().len() >= 10 && u16_of(old(reader).rest()) <= 10
                && string_spec(old(reader).rest().skip(10)) is Some
                && write_type_of_name((string_spec(old(reader).rest().skip(10))->0).0) is Some,
            r is Some ==> consistency_code(r->0.cl) == u16_of(old(reader).rest())
                && r->0.received == i32_of(old(reader).rest().skip(2))
                && r->0.blockfor == i32_of(old(reader).rest().skip(6))
                && Some(r->0.writetype) == write_type_of_name((string_spec(old(reader).rest().skip(10))->0).0),
    {
        let ghost s = reader.rest();
        if reader.remaining() < 10 {
            return None;
        }
        let cl = match read_consistency(reader) {
            Some(c) => c,
            None => return None,
        };
        let received = match reader.read_i32() {
            Some(v) => v,
            None => return None,
        };
        assert(s.skip(2).skip(4) =~= s.skip(6));
        let blockfor = match reader.read_i32() {
            Some(v) => v,
            None => return None,
        };
        assert(s.skip(6).skip(4) =~= s.skip(10));
        let writetype = match read_write_type(reader) {
            Some(w) => w,
            None => return None,
        };
        Some(WriteTimeout { cl, received, blockfor, writetype })
    }
}

impl WriteFailure {
    pub fn read(reader: &mut Reader) -> (r: Option<WriteFailure>)
        ensures
            final(reader).data() == old(reader).data(),
            r is Some <==> old(reader).rest().len() >= 14 && u16_of(old(reader).rest()) <= 10
                && string_spec(old(reader).rest().skip(14)) is Some
                && write_type_of_name((string_spec(old(reader).rest().skip(14))->0).0) is Some,
            r is Some ==> consistency_code(r->0.cl) == u16_of(old(reader).rest())
                && r->0.received == i32_of(old(reader).rest().skip(2))
                && r->0.blockfor == i32_of(old(reader).rest().skip(6))
                && r->0.num_failures == i32_of(old(reader).rest().skip(10))
                && Some(r->0.writetype) == write_type_of_name((string_spec(old(reader).rest().skip(14))->0).0),
    {
        let ghost s = reader.rest();
        if reader.remaining() < 14 {
            return None;
        }
        let cl = match read_consistency(reader) {
            Some(c) => c,
            None => return None,
        };
        let received = match reader.read_i32() {
            Some(v) => v,
            None => return None,
        };
        assert(s.skip(2).skip(4) =~= s.skip(6));
        let blockfor = match reader.read_i32() {
            Some(v) => v,
            None => return None,
        };
        assert(s.skip(6).skip(4) =~= s.skip(10));
        let num_failures = match reader.read_i32() {
            Some(v) => v,
            None => return None,
        };
        assert(s.skip(10).skip(4) =~= s.skip(14));
        let writetype = match read_write_type(reader) {
            Some(w) => w,
            None => return None,
        };
        Some(WriteFailure { cl, received, blockfor, num_failures, writetype })
    }
}

impl AlreadyExists {
    pub fn read(reader: &mut Reader) -> (r: Option<AlreadyExists>)
        ensures
            final(reader).data() == old(reader).data(),
            r is Some <==> string_spec(old(reader).rest()) is Some
                && string_spec(old(reader).rest().skip((string_spec(old(reader).rest())->0).1)) is Some,
            r is Some ==> r->0.ks@ == (string_spec(old(reader).rest())->0).0
                && r->0.table@ == (string_spec(old(reader).rest().skip((string_spec(old(reader).rest())->0).1))->0).0,
    {
        let ks = match string(reader) {
            Some(v) => v,
            None => return None,
        };
        let table = match string(reader) {
            Some(v) => v,
            None => return None,
        };
        Some(AlreadyExists { ks, table })
    }
}

/// A keyspace, a function name and the argument types, one after another.
pub open spec fn function_failure_spec(s: Seq<u8>) -> Option<(Seq<char>, Seq<char>, Seq<Seq<char>>)> {
    match string_spec(s) {
        Some(k) => match string_spec(s.skip(k.1)) {
            Some(f) => match string_list_spec(s.skip(k.1).skip(f.1)) {
                Some(a) => Some((k.0, f.0, a.0)),
                None => None,
            },
            None => None,
        },
        None => None,
    }
}

impl FunctionFailure {
    pub fn read(reader: &mut Reader) -> (r: Option<FunctionFailure>)
        ensures
            final(reader).data() == old(reader).data(),
            r is Some <==> function_failure_spec(old(reader).rest()) is Some,
            r is Some ==> {
                let m = function_failure_spec(old(reader).rest())->0;
                &&& r->0.keyspace@ == m.0
                &&& r->0.function@ == m.1
                &&& texts(r->0.arg_types@) == m.2
            },
    {
        let keyspace = match string(reader) {
            Some(v) => v,
            None => return None,
        };
        let function = match string(reader) {
            Some(v) => v,
            None => return None,
        };
        let arg_types = match string_list(reader) {
            Some(v) => v,
            None => return None,
        };
        Some(FunctionFailure { keyspace, function, arg_types })
    }
}

impl Unprepared {
    pub fn read(reader: &mut Reader) -> (r: Option<Unprepared>)
        ensures
            final(reader).data() == old(reader).data(),
            r is Some <==> prepared_id_spec(old(reader).rest()) is Some,
            r is Some ==> r->0.id@ == prepared_id_spec(old(reader).rest())->0,
    {
        match prepared_id(reader) {
            Some(id) => Some(Unprepared { id }),
            None => None,
        }
    }
}

/// The error with a known code.
pub open spec fn code_for(v: i32) -> ErrorCodes {
    if v == SERVER_ERROR { ErrorCodes::ServerError }
    else if v == PROTOCOL_ERROR { ErrorCodes::ProtocolError }
    else if v == AUTHENTICATION_ERROR { ErrorCodes::AuthenticationError }
    else if v == UNAVAILABLE_EXCEPTION { ErrorCodes::UnavailableException }
    else if v == OVERLOADED { ErrorCodes::Overloaded }
    else if v == IS_BOOSTRAPPING { ErrorCodes::IsBoostrapping }
    else if v == TRUNCATE_ERROR { ErrorCodes::TruncateError }
    else if v == WRITE_TIMEOUT { ErrorCodes::WriteTimeout }
    else if v == READ_TIMEOUT { ErrorCodes::ReadTimeout }
    else if v == READ_FAILURE { ErrorCodes::ReadFailure }
    else if v == FUNCTION_FAILURE { ErrorCodes::FunctionFailure }
    else if v == WRITE_FAILURE { ErrorCodes::WriteFailure }
    else if v == SYNTAX_ERROR { ErrorCodes::SyntaxError }
    else if v == UNAUTHORIZED { ErrorCodes::Unauthorized }
    else if v == INVALID { ErrorCodes::Invalid }
    else if v == CONFIGURE_ERROR { ErrorCodes::ConfigureError }
    else if v == ALREADY_EXISTS { ErrorCodes::AlreadyExists }
    else { ErrorCodes::Unprepared }
}

/// Whether the bytes after the message hold what an error with this code carries.
pub open spec fn additional_fits(code: ErrorCodes, s: Seq<u8>) -> bool {
    match code {
        ErrorCodes::UnavailableException => s.len() >= 10 && u16_of(s) <= 10,
        ErrorCodes::ReadTimeout => s.len() >= 11 && u16_of(s) <= 10,
        ErrorCodes::ReadFailure => s.len() >= 15 && u16_of(s) <= 10,
        ErrorCodes::WriteTimeout => s.len() >= 10 && u16_of(s) <= 10 && string_spec(s.skip(10)) is Some
            && write_type_of_name((string_spec(s.skip(10))->0).0) is Some,
        ErrorCodes::WriteFailure => s.len() >= 14 && u16_of(s) <= 10 && string_spec(s.skip(14)) is Some
            && write_type_of_name((string_spec(s.skip(14))->0).0) is Some,
        ErrorCodes::FunctionFailure => function_failure_spec(s) is Some,
        ErrorCodes::AlreadyExists => string_spec(s) is Some && string_spec(s.skip((string_spec(s)->0).1)) is Some,
        ErrorCodes::Unprepared => prepared_id_spec(s) is Some,
        _ => true,
    }
}

/// The statement id that an Unprepared error carries.
pub open spec fn unprepared_id_of(a: Option<Additional>) -> Option<[u8; 16]> {
    match a {
        Some(Additional::Unprepared(u)) => Some(u.id),
        _ => None,
    }
}

/// The additional part that an error with this code carries.
pub open spec fn additional_matches(code: ErrorCodes, a: Option<Additional>) -> bool {
    match code {
        ErrorCodes::UnavailableException => a matches Some(Additional::UnavailableException(_)),
        ErrorCodes::WriteTimeout => a matches Some(Additional::WriteTimeout(_)),
        ErrorCodes::ReadTimeout => a matches Some(Additional::ReadTimeout(_)),
        ErrorCodes::ReadFailure => a matches Some(Additional::ReadFailure(_)),
        ErrorCodes::FunctionFailure => a matches Some(Additional::FunctionFailure(_)),
        ErrorCodes::WriteFailure => a matches Some(Additional::WriteFailure(_)),
        ErrorCodes::AlreadyExists => a matches Some(Additional::AlreadyExists(_)),
        ErrorCodes::Unprepared => a matches Some(Additional::Unprepared(_)),
        _ => a is None,
    }
}

/// Whether an ERROR frame's body holds a whole error.
pub open spec fn error_ok(d: Decoder) -> bool {
    let s = d.reader.rest();
    &&& d.header.buffer@[4] == 0
    &&& known_error_code(d.kind())
    &&& string_spec(s) is Some
    &&& additional_fits(code_for(d.kind()), s.skip((string_spec(s)->0).1))
}

/// Whether an error holds what an ERROR frame's body says.
pub open spec fn error_fits(e: CqlError, d: Decoder) -> bool {
    let s = d.reader.rest();
    &&& e.code == code_for(d.kind())
    &&& error_code(e.code) == d.kind()
    &&& string_spec(s) is Some
    &&& e.message@ == (string_spec(s)->0).0
    &&& additional_matches(e.code, e.additional)
    &&& e.code == ErrorCodes::Unprepared ==> {
        let after = s.skip((string_spec(s)->0).1);
        &&& prepared_id_spec(after) is Some
        &&& unprepared_id_of(e.additional) is Some
        &&& unprepared_id_of(e.additional)->0@ == prepared_id_spec(after)->0
    }
}

impl CqlError {
    /// Reads the error that an ERROR frame carries.
    pub fn new(decoder: &mut Decoder) -> (r: Result<CqlError, DecodeError>)
        ensures
            final(decoder).header == old(decoder).header,
            old(decoder).header.buffer@[4] != 0 ==> r == Err::<CqlError, DecodeError>(DecodeError::UnexpectedKind),
            old(decoder).header.buffer@[4] == 0 ==> (r is Ok <==> error_ok(*old(decoder))),
            old(decoder).header.buffer@[4] == 0 && r is Err ==> r == Err::<CqlError, DecodeError>(DecodeError::Malformed),
            r is Ok ==> error_fits(r->Ok_0, *old(decoder)),
            old(decoder).header.buffer@[4] == 0 && !known_error_code(old(decoder).kind())
                ==> r == Err::<CqlError, DecodeError>(DecodeError::Malformed),
            old(decoder).header.buffer@[4] == 0 && known_error_code(old(decoder).kind())
                && string_spec(old(decoder).reader.rest()) is None
                ==> r == Err::<CqlError, DecodeError>(DecodeError::Malformed),
            old(decoder).header.buffer@[4] == 0 && known_error_code(old(decoder).kind())
                && string_spec(old(decoder).reader.rest()) is Some ==> (r is Ok <==> additional_fits(
                    code_for(old(decoder).kind()),
                    old(decoder).reader.rest().skip((string_spec(old(decoder).reader.rest())->0).1),
                )),
            r is Ok ==> {
                &&& r->Ok_0.code == code_for(old(decoder).kind())
                &&& error_code(r->Ok_0.code) == old(decoder).kind()
                &&& string_spec(old(decoder).reader.rest()) is Some
                &&& r->Ok_0.message@ == (string_spec(old(decoder).reader.rest())->0).0
                &&& additional_matches(r->Ok_0.code, r->Ok_0.additional)
                &&& r->Ok_0.code == ErrorCodes::Unprepared ==> {
                    let after = old(decoder).reader.rest().skip((string_spec(old(decoder).reader.rest())->0).1);
                    &&& prepared_id_spec(after) is Some
                    &&& unprepared_id_of(r->Ok_0.additional) is Some
                    &&& unprepared_id_of(r->Ok_0.additional)->0@ == prepared_id_spec(after)->0
                }
            },
    {
        if !decoder.is_error() {
            return Err(DecodeError::UnexpectedKind);
        }
        let code = match ErrorCodes::from_code(decoder.header_flags.body_kind()) {
            Some(c) => c,
            None => return Err(DecodeError::Malformed),
        };
        let message = match string(&mut decoder.reader) {
            Some(m) => m,
            None => return Err(DecodeError::Malformed),
        };
        let additional = match code {
            ErrorCodes::UnavailableException => match UnavailableException::read(&mut decoder.reader) {
                Some(a) => Some(Additional::UnavailableException(a)),
                None => return Err(DecodeError::Malformed),
            },
            ErrorCodes::WriteTimeout => match WriteTimeout::read(&mut decoder.reader) {
                Some(a) => Some(Additional::WriteTimeout(a)),
                None => return Err(DecodeError::Malformed),
            },
            ErrorCodes::ReadTimeout => match ReadTimeout::read(&mut decoder.reader) {
                Some(a) => Some(Additional::ReadTimeout(a)),
                None => return Err(DecodeError::Malformed),
            },
            ErrorCodes::ReadFailure => match ReadFailure::read(&mut decoder.reader) {
                Some(a) => Some(Additional::ReadFailure(a)),
                None => return Err(DecodeError::Malformed),
            },
            ErrorCodes::FunctionFailure => match FunctionFailure::read(&mut decoder.reader) {
                Some(a) => Some(Additional::FunctionFailure(a)),
                None => return Err(DecodeError::Malformed),
            },
            ErrorCodes::WriteFailure => match WriteFailure::read(&mut decoder.reader) {
                Some(a) => Some(Additional::WriteFailure(a)),
                None => return Err(DecodeError::Malformed),
            },
            ErrorCodes::AlreadyExists => match AlreadyExists::read(&mut decoder.reader) {
                Some(a) => Some(Additional::AlreadyExists(a)),
                None => return Err(DecodeError::Malformed),
            },
            ErrorCodes::Unprepared => match Unprepared::read(&mut decoder.reader) {
                Some(a) => Some(Additional::Unprepared(a)),
                None => return Err(DecodeError::Malformed),
            },
            _ => None,
        };
        Ok(CqlError { code, message, additional })
    }

    /// The id of the statement that the server does not know, for an Unprepared error.
    pub fn try_unprepared_id(&self) -> (r: Option<[u8; 16]>)
        ensures
            r == unprepared_id_of(self.additional),
    {
        match &self.additional {
            Some(Additional::Unprepared(u)) => Some(u.id),
            _ => None,
        }
    }
}

impl Decoder {
    /// The error that an ERROR frame carries.
    pub fn get_error(&mut self) -> (r: Result<CqlError, DecodeError>)
        ensures
            old(self).header.buffer@[4] != 0 ==> r == Err::<CqlError, DecodeError>(DecodeError::UnexpectedKind),
            old(self).header.buffer@[4] == 0 ==> (r is Ok <==> error_ok(*old(self))),
            r is Ok ==> error_fits(r->Ok_0, *old(self)),
    {
        CqlError::new(self)
    }
}

} // verus!
