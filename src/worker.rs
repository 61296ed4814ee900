//! What a worker decides when its request fails, and the requests that carry
//! enough to be prepared again.
use vstd::prelude::*;
use vstd::utf8::*;
use crate::compression::{Compression, CompressionError};
use crate::error::{retryable, unprepared_id_of, CqlError};
use crate::frame::PREPARE;
use crate::request::{prepare, request_frame};
use crate::batch::long_string;
use crate::murmur3::murmur3_token;
use crate::token::{joined, TokenEncoder};

verus! {

/// The 16 bytes of the MD5 digest of a byte string.
pub uninterp spec fn md5_of(data: Seq<u8>) -> Seq<u8>;

/// Relies on `md5::compute`: the digest depends on the bytes alone.
#[verifier::external_body]
fn md5_digest(data: &[u8]) -> (r: [u8; 16])
    ensures
        r@ == md5_of(data@),
{
    md5::compute(data).0
}

/// Relies on `rand::random`: any `i64` may come back.
#[verifier::external_body]
pub(crate) fn random_i64() -> (r: i64) {
    rand::random::<i64>()
}

/// The id under which the server knows a prepared statement: the MD5 digest
/// of its text.
pub fn statement_id(statement: &str) -> (r: [u8; 16])
    ensures
        r@ == md5_of(encode_utf8(statement@)),
{
    md5_digest(statement.as_bytes())
}

/// How a request failed.
pub enum WorkerError {
    /// The server answered with an error.
    Cql(CqlError),
    /// Reading, writing or decoding failed.
    Other(String),
    /// The connection had no free stream id.
    Overload,
    /// The connection was lost while the request was in flight.
    Lost,
    /// No ring has been published yet.
    NoRing,
}

/// What a worker does about a failure.
pub enum ErrorAction {
    /// Prepare this statement on the same connection, then send the request again there.
    Reprepare(String),
    /// Send the request again, through any datacenter.
    Retry,
    /// Hand the error to the caller.
    Surface,
}

/// The statement id that an error asks to prepare again.
pub open spec fn unprepared_of(e: &WorkerError) -> Option<[u8; 16]> {
    match e {
        WorkerError::Cql(c) => unprepared_id_of(c.additional),
        _ => None,
    }
}

/// Whether a failure is worth another attempt.
pub open spec fn worth_retry(e: &WorkerError) -> bool {
    match e {
        WorkerError::Cql(c) => retryable(c.code),
        WorkerError::NoRing => false,
        _ => true,
    }
}

/// A request that knows the statements it names by prepared id.
pub trait Request {
    /// The statement with the given id, if the request names it.
    spec fn statement_spec(&self, id: Seq<u8>) -> Option<Seq<char>>;

    fn statement_by_id(&self, id: &[u8; 16]) -> (r: Option<String>)
        ensures
            r is Some <==> self.statement_spec(id@) is Some,
            r is Some ==> r->0@ == self.statement_spec(id@)->0,
    ;
}

/// A worker bound to one request: the request, the handle through which the
/// caller hears of the outcome, and the attempts left.
pub struct AnyWorker<H, R> {
    pub request: R,
    pub handle: H,
    pub retries: usize,
}

impl<H, R: Request> AnyWorker<H, R> {
    pub fn new(request: R, handle: H, retries: usize) -> (r: AnyWorker<H, R>)
        ensures
            r.request == request,
            r.handle == handle,
            r.retries == retries,
    {
        AnyWorker { request, handle, retries }
    }

    /// The same worker with another number of attempts left.
    pub fn with_retries(self, retries: usize) -> (r: AnyWorker<H, R>)
        ensures
            r.request == self.request,
            r.handle == self.handle,
            r.retries == retries,
    {
        AnyWorker { request: self.request, handle: self.handle, retries }
    }

    /// Decides what to do about a failure. An unprepared statement is prepared
    /// again when the connection is known and the request names it; other
    /// failures are retried while attempts remain, unless retrying cannot help.
    pub fn on_error(&mut self, error: &WorkerError, reporter_known: bool) -> (r: ErrorAction)
        ensures
            final(self).request == old(self).request,
            unprepared_of(error) is Some && reporter_known ==> {
                let st = old(self).request.statement_spec(unprepared_of(error)->0@);
                &&& st is Some ==> r is Reprepare && r->Reprepare_0@ == st->0
                &&& st is None ==> r is Surface
                &&& final(self).retries == old(self).retries
            },
            !(unprepared_of(error) is Some && reporter_known) ==> {
                &&& worth_retry(error) && old(self).retries > 0 ==> r is Retry && final(self).retries == old(self).retries - 1
                &&& !(worth_retry(error) && old(self).retries > 0) ==> r is Surface && final(self).retries == old(self).retries
            },
    {
        if reporter_known {
            if let WorkerError::Cql(c) = error {
                if let Some(id) = c.try_unprepared_id() {
                    return match self.request.statement_by_id(&id) {
                        Some(statement) => ErrorAction::Reprepare(statement),
                        None => ErrorAction::Surface,
                    };
                }
            }
        }
        let worth = match error {
            WorkerError::Cql(c) => c.code.is_retryable(),
            WorkerError::NoRing => false,
            _ => true,
        };
        if worth && self.retries > 0 {
            self.retries = self.retries - 1;
            ErrorAction::Retry
        } else {
            ErrorAction::Surface
        }
    }
}

/// What a worker that shares one handle with other requests does about a failure.
pub struct AtomicDecision {
    /// The statement to prepare again on the same connection, first.
    pub prepare: Option<String>,
    /// Whether to send the request again; if not, the shared handle reports an error.
    pub retry: bool,
}

/// A worker whose outcome joins those of other requests in one shared handle.
pub struct AtomicWorker<R, H> {
    pub request: R,
    pub retries: usize,
    pub handle: H,
}

impl<R: Request, H> AtomicWorker<R, H> {
    pub fn new(request: R, handle: H) -> (r: AtomicWorker<R, H>)
        ensures
            r.request == request,
            r.handle == handle,
            r.retries == 0,
    {
        AtomicWorker { request, retries: 0, handle }
    }

    /// The same worker with another number of attempts left.
    pub fn with_retries(self, retries: usize) -> (r: AtomicWorker<R, H>)
        ensures
            r.request == self.request,
            r.handle == self.handle,
            r.retries == retries,
    {
        AtomicWorker { request: self.request, retries, handle: self.handle }
    }

    /// Decides what to do about a failure. An unprepared statement that the
    /// request names is prepared again and the request retried; one that it
    /// does not name fails the shared handle. Other failures are retried while
    /// attempts remain and retrying can help.
    pub fn on_error(&mut self, error: &WorkerError, reporter_known: bool) -> (r: AtomicDecision)
        ensures
            final(self).request == old(self).request,
            unprepared_of(error) is Some && reporter_known
                && old(self).request.statement_spec(unprepared_of(error)->0@) is None ==> {
                &&& r.prepare is None
                &&& !r.retry
                &&& final(self).retries == old(self).retries
            },
            !(unprepared_of(error) is Some && reporter_known
                && old(self).request.statement_spec(unprepared_of(error)->0@) is None) ==> {
                let st = if unprepared_of(error) is Some && reporter_known {
                    old(self).request.statement_spec(unprepared_of(error)->0@)
                } else {
                    None
                };
                let again = (st is Some || worth_retry(error)) && old(self).retries > 0;
                &&& (r.prepare is Some <==> st is Some)
                &&& r.prepare is Some ==> r.prepare->0@ == st->0
                &&& r.retry == again
                &&& final(self).retries == if again { old(self).retries - 1 } else { old(self).retries as int }
            },
    {
        let mut prepare: Option<String> = None;
        if reporter_known {
            if let WorkerError::Cql(c) = error {
                if let Some(id) = c.try_unprepared_id() {
                    match self.request.statement_by_id(&id) {
                        Some(statement) => prepare = Some(statement),
                        None => return AtomicDecision { prepare: None, retry: false },
                    }
                }
            }
        }
        let worth = prepare.is_some() || match error {
            WorkerError::Cql(c) => c.code.is_retryable(),
            WorkerError::NoRing => false,
            _ => true,
        };
        if worth && self.retries > 0 {
            self.retries = self.retries - 1;
            AtomicDecision { prepare, retry: true }
        } else {
            AtomicDecision { prepare, retry: false }
        }
    }
}

/// A request ready for the ring: the token that picks the replicas, the frame,
/// the statements it names by prepared id, and the keyspace.
pub struct BatchRequest {
    pub token: i64,
    pub payload: Vec<u8>,
    pub map: Vec<([u8; 16], String)>,
    pub keyspace: Option<String>,
}

/// The statement filed under `id` in a map of prepared statements (the first, should ids repeat).
pub open spec fn lookup(map: Seq<([u8; 16], String)>, id: Seq<u8>) -> Option<Seq<char>>
    decreases map.len(),
{
    if map.len() == 0 {
        None
    } else if map[0].0@ == id {
        Some(map[0].1@)
    } else {
        lookup(map.skip(1), id)
    }
}

/// Whether two ids are the same bytes.
fn same_id(a: &[u8; 16], b: &[u8; 16]) -> (r: bool)
    ensures
        r == (a@ == b@),
{
    let mut i: usize = 0;
    while i < 16
        invariant
            i <= 16,
            a@.len() == 16,
            b@.len() == 16,
            forall|j: int| 0 <= j < i ==> a@[j] == b@[j],
        decreases 16 - i,
    {
        if a[i] != b[i] {
            return false;
        }
        i = i + 1;
    }
    assert(a@ =~= b@);
    true
}

impl BatchRequest {
    pub fn new(token: i64, payload: Vec<u8>, map: Vec<([u8; 16], String)>, keyspace: Option<String>) -> (r: BatchRequest)
        ensures
            r.token == token,
            r.payload == payload,
            r.map == map,
            r.keyspace == keyspace,
    {
        BatchRequest { token, payload, map, keyspace }
    }

    /// The same request with the given token.
    pub fn with_token(self, token: i64) -> (r: BatchRequest)
        ensures
            r.token == token,
            r.payload == self.payload,
            r.map == self.map,
            r.keyspace == self.keyspace,
    {
        BatchRequest { token, payload: self.payload, map: self.map, keyspace: self.keyspace }
    }

    /// The same request, routed by the token of a partition key.
    pub fn compute_token<K: TokenEncoder>(self, key: &K) -> (r: BatchRequest)
        ensures
            key.token_parts().len() > 0 ==> r.token == murmur3_token(joined(key.token_parts())),
            r.payload == self.payload,
            r.map == self.map,
            r.keyspace == self.keyspace,
    {
        let token = key.token();
        self.with_token(token)
    }

    /// Takes the map of prepared statements out, leaving it empty.
    pub fn take_map(&mut self) -> (r: Vec<([u8; 16], String)>)
        ensures
            r == old(self).map,
            final(self).map@.len() == 0,
            final(self).token == old(self).token,
            final(self).payload == old(self).payload,
            final(self).keyspace == old(self).keyspace,
    {
        let mut empty: Vec<([u8; 16], String)> = Vec::new();
        core::mem::swap(&mut self.map, &mut empty);
        empty
    }

    /// A copy of the map of prepared statements.
    pub fn clone_map(&self) -> (r: Vec<([u8; 16], String)>)
        ensures
            r@.len() == self.map@.len(),
            forall|i: int| 0 <= i < r@.len() ==> (#[trigger] r@[i]).0 == self.map@[i].0 && r@[i].1@ == self.map@[i].1@,
    {
        let mut out: Vec<([u8; 16], String)> = Vec::new();
        let mut i: usize = 0;
        while i < self.map.len()
            invariant
                i <= self.map@.len(),
                out@.len() == i,
                forall|j: int| 0 <= j < i ==> (#[trigger] out@[j]).0 == self.map@[j].0 && out@[j].1@ == self.map@[j].1@,
            decreases self.map@.len() - i,
        {
            let entry = &self.map[i];
            out.push((entry.0, entry.1.clone()));
            i = i + 1;
        }
        out
    }

    /// The statement filed under `id`.
    pub fn get_statement(&self, id: &[u8; 16]) -> (r: Option<&String>)
        ensures
            r is Some <==> lookup(self.map@, id@) is Some,
            r is Some ==> r->0@ == lookup(self.map@, id@)->0,
    {
        let mut i: usize = 0;
        assert(self.map@.skip(0) =~= self.map@);
        while i < self.map.len()
            invariant
                i <= self.map@.len(),
                lookup(self.map@, id@) == lookup(self.map@.skip(i as int), id@),
            decreases self.map@.len() - i,
        {
            if same_id(&self.map[i].0, id) {
                return Some(&self.map[i].1);
            }
            assert(self.map@.skip(i as int).skip(1) =~= self.map@.skip(i + 1));
            i = i + 1;
        }
        None
    }
}

impl Request for BatchRequest {
    open spec fn statement_spec(&self, id: Seq<u8>) -> Option<Seq<char>> {
        lookup(self.map@, id)
    }

    fn statement_by_id(&self, id: &[u8; 16]) -> (r: Option<String>) {
        match self.get_statement(id) {
            Some(s) => Some(s.clone()),
            None => None,
        }
    }
}

/// A request to prepare a statement.
pub struct PrepareRequest {
    pub statement: String,
    pub token: i64,
}

/// A worker that prepares a statement again after the server forgot it.
pub struct PrepareWorker {
    /// The id under which the statement is expected back.
    pub id: [u8; 16],
    pub retries: usize,
    pub request: PrepareRequest,
}

impl PrepareWorker {
    /// A worker for a statement known under `id`, routed by `token`.
    pub fn new(id: [u8; 16], statement: String, token: i64) -> (r: PrepareWorker)
        ensures
            r.id == id,
            r.retries == 0,
            r.request.statement == statement,
            r.request.token == token,
    {
        PrepareWorker { id, retries: 0, request: PrepareRequest { statement, token } }
    }

    /// A worker for a request, expecting the id that the statement's digest gives.
    pub fn from_request(request: PrepareRequest) -> (r: PrepareWorker)
        ensures
            r.id@ == md5_of(encode_utf8(request.statement@)),
            r.retries == 0,
            r.request == request,
    {
        let id = statement_id(request.statement.as_str());
        PrepareWorker { id, retries: 0, request }
    }

    /// The PREPARE frame to send.
    pub fn payload(&self, compression: Compression) -> (r: Result<Vec<u8>, CompressionError>)
        ensures
            r is Ok <==> request_frame(compression, PREPARE, long_string(self.request.statement@)) is Ok,
            r is Ok ==> r->Ok_0@ == request_frame(compression, PREPARE, long_string(self.request.statement@))->Ok_0,
    {
        prepare(self.request.statement.as_str(), compression)
    }
}

} // verus!
