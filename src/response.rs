//! Response bodies of the handshake, and the decoding of Void and
//! conditional-write results.
use vstd::prelude::*;
use crate::decoder::{DecodeError, Decoder};
use crate::error::{error_fits, error_ok, CqlError};
use crate::frame::{bytes, bytes_spec, bytes_view, multimap_model, string, string_multimap, string_multimap_spec, string_spec, AUTHENTICATE, ERROR, RESULT};
use crate::rows::{cells_fit, rows_start, AnyIter};

verus! {

/// READY: the connection may be used.
pub struct Ready;

impl Ready {
    pub fn new() -> (r: Ready) {
        Ready
    }
}

/// AUTHENTICATE: the server asks for credentials, naming its authenticator.
pub struct Authenticate {
    pub authenticator: String,
}

impl Authenticate {
    pub fn new(decoder: &mut Decoder) -> (r: Result<Authenticate, DecodeError>)
        ensures
            old(decoder).header.buffer@[4] != AUTHENTICATE ==> r == Err::<Authenticate, DecodeError>(DecodeError::UnexpectedKind),
            old(decoder).header.buffer@[4] == AUTHENTICATE ==> (r is Ok <==> string_spec(old(decoder).reader.rest()) is Some),
            r is Ok ==> r->Ok_0.authenticator@ == (string_spec(old(decoder).reader.rest())->0).0,
    {
        if !decoder.is_authenticate() {
            return Err(DecodeError::UnexpectedKind);
        }
        match string(&mut decoder.reader) {
            Some(authenticator) => Ok(Authenticate { authenticator }),
            None => Err(DecodeError::Malformed),
        }
    }

    pub fn authenticator(&self) -> (r: &str)
        ensures
            r@ == self.authenticator@,
    {
        self.authenticator.as_str()
    }
}

/// AUTH_SUCCESS, with the server's final token if any.
pub struct AuthSuccess {
    pub token: Option<Vec<u8>>,
}

impl AuthSuccess {
    pub fn new(decoder: &mut Decoder) -> (r: Result<AuthSuccess, DecodeError>)
        ensures
            r is Ok <==> bytes_spec(old(decoder).reader.rest()) is Some,
            r is Ok ==> bytes_view(r->Ok_0.token) == (bytes_spec(old(decoder).reader.rest())->0).0,
    {
        match bytes(&mut decoder.reader) {
            Some(token) => Ok(AuthSuccess { token }),
            None => Err(DecodeError::Malformed),
        }
    }

    pub fn token(&self) -> (r: Option<&Vec<u8>>)
        ensures
            r is Some <==> self.token is Some,
            r is Some ==> *r->0 == self.token->0,
    {
        match &self.token {
            Some(t) => Some(t),
            None => None,
        }
    }
}

/// AUTH_CHALLENGE, with the server's challenge.
pub struct AuthChallenge {
    pub token: Option<Vec<u8>>,
}

impl AuthChallenge {
    pub fn new(decoder: &mut Decoder) -> (r: Result<AuthChallenge, DecodeError>)
        ensures
            r is Ok <==> bytes_spec(old(decoder).reader.rest()) is Some,
            r is Ok ==> bytes_view(r->Ok_0.token) == (bytes_spec(old(decoder).reader.rest())->0).0,
    {
        match bytes(&mut decoder.reader) {
            Some(token) => Ok(AuthChallenge { token }),
            None => Err(DecodeError::Malformed),
        }
    }
}

/// SUPPORTED: the options that the server offers, with their values.
pub struct Supported {
    pub options: Vec<(String, Vec<String>)>,
}

impl Supported {
    pub fn new(decoder: &mut Decoder) -> (r: Result<Supported, DecodeError>)
        ensures
            r is Ok <==> string_multimap_spec(old(decoder).reader.rest()) is Some,
            r is Ok ==> multimap_model(r->Ok_0.options@) == (string_multimap_spec(old(decoder).reader.rest())->0).0,
    {
        match string_multimap(&mut decoder.reader) {
            Some(options) => Ok(Supported { options }),
            None => Err(DecodeError::Malformed),
        }
    }

    pub fn get_options(&self) -> (r: &Vec<(String, Vec<String>)>)
        ensures
            r == &self.options,
    {
        &self.options
    }
}

/// What a request that expects no rows gets back.
pub enum VoidOutcome {
    Done,
    Failed(CqlError),
}

/// Decodes the answer to a request that returns nothing.
pub struct VoidDecoder;

impl VoidDecoder {
    /// An ERROR frame becomes the error it carries; any other frame is success.
    pub fn try_decode_void(decoder: Decoder) -> (r: Result<VoidOutcome, DecodeError>)
        ensures
            decoder.header.buffer@[4] != ERROR ==> r matches Ok(VoidOutcome::Done),
            decoder.header.buffer@[4] == ERROR ==> {
                &&& (r is Ok <==> error_ok(decoder))
                &&& r is Ok ==> (r->Ok_0 matches VoidOutcome::Failed(e) && error_fits(e, decoder))
                &&& r is Err ==> r == Err::<VoidOutcome, DecodeError>(DecodeError::Malformed)
            },
    {
        let mut decoder = decoder;
        if decoder.is_error() {
            match CqlError::new(&mut decoder) {
                Ok(e) => Ok(VoidOutcome::Failed(e)),
                Err(e) => Err(e),
            }
        } else {
            Ok(VoidOutcome::Done)
        }
    }
}

/// What a conditional write gets back.
pub enum LwtOutcome {
    Rows(AnyIter),
    Failed(CqlError),
}

/// Decodes the answer to a conditional write: the rows that say whether it applied.
pub struct LwtDecoder;

impl LwtDecoder {
    pub fn try_decode_lwt(decoder: Decoder) -> (r: Result<LwtOutcome, DecodeError>)
        ensures
            decoder.header.buffer@[4] != ERROR && !decoder.holds_rows() ==> r == Err::<LwtOutcome, DecodeError>(DecodeError::UnexpectedKind),
            decoder.header.buffer@[4] == ERROR ==> {
                &&& (r is Ok <==> error_ok(decoder))
                &&& r is Ok ==> (r->Ok_0 matches LwtOutcome::Failed(e) && error_fits(e, decoder))
            },
            decoder.holds_rows() ==> {
                &&& (r is Ok <==> cells_fit(decoder.reader.rest()))
                &&& r is Ok ==> (r->Ok_0 matches LwtOutcome::Rows(it) && rows_start(it.decoder, it.metadata, it.rows_count, decoder)
                    && it.remaining_total_columns_count == it.metadata.columns_count * it.rows_count)
            },
    {
        let mut decoder = decoder;
        if decoder.is_error() {
            match CqlError::new(&mut decoder) {
                Ok(e) => Ok(LwtOutcome::Failed(e)),
                Err(e) => Err(e),
            }
        } else if decoder.is_rows() {
            match AnyIter::new(decoder) {
                Ok(it) => Ok(LwtOutcome::Rows(it)),
                Err(e) => Err(e),
            }
        } else {
            Err(DecodeError::UnexpectedKind)
        }
    }
}

/// The 16-byte id in a RESULT/Prepared body.
pub fn prepared_result_id(decoder: &mut Decoder) -> (r: Result<[u8; 16], DecodeError>)
    ensures
        !(old(decoder).header.buffer@[4] == RESULT && old(decoder).kind() == crate::frame::PREPARED)
            ==> r == Err::<[u8; 16], DecodeError>(DecodeError::UnexpectedKind),
        old(decoder).header.buffer@[4] == RESULT && old(decoder).kind() == crate::frame::PREPARED
            ==> (r is Ok <==> crate::frame::prepared_id_spec(old(decoder).reader.rest()) is Some),
        r is Ok ==> crate::frame::prepared_id_spec(old(decoder).reader.rest()) is Some
            && r->Ok_0@ == crate::frame::prepared_id_spec(old(decoder).reader.rest())->0,
{
    if !(decoder.opcode() == RESULT && decoder.header_flags.body_kind() == crate::frame::PREPARED) {
        return Err(DecodeError::UnexpectedKind);
    }
    match crate::frame::prepared_id(&mut decoder.reader) {
        Some(id) => Ok(id),
        None => Err(DecodeError::Malformed),
    }
}

} // verus!
