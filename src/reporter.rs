//! The bookkeeping of one connection: which stream ids are free, which worker
//! waits on each stream in flight, and the payload parked for it. The task that
//! owns a connection feeds it events and carries out what it answers.
use vstd::prelude::*;
use crate::wire::i16_be;

verus! {

/// The largest number of streams one connection may use.
pub const MAX_STREAMS: i16 = 32767;

/// What becomes of a request.
pub enum RequestOutcome<W> {
    /// The payload waits at this stream id; hand the id to the sender.
    Send(i16),
    /// No stream id is free: the worker comes back to be failed with `Overload`.
    Overload(W),
}

/// What becomes of a frame received on a stream.
pub enum Delivery<W> {
    /// A result for the worker to decode.
    Response(W, Vec<u8>),
    /// An ERROR frame for the worker to decode and handle.
    Error(W, Vec<u8>),
}

/// The stream ids of one connection and the workers that wait on them.
pub struct Reporter<W> {
    /// The free stream ids; the next request takes the last one.
    pub streams: Vec<i16>,
    /// For each stream id, the worker that waits on it (slot 0 stays empty).
    pub workers: Vec<Option<W>>,
    /// For each stream id, the payload parked for the sender.
    pub payloads: Vec<Option<Vec<u8>>>,
}

/// The ids from 1 to `n`.
pub open spec fn all_ids(n: int) -> Set<int> {
    Set::new(|s: int| 1 <= s <= n)
}

impl<W> Reporter<W> {
    /// The number of stream ids.
    pub open spec fn capacity(&self) -> int {
        self.workers@.len() - 1
    }

    /// The free stream ids.
    pub open spec fn free_ids(&self) -> Set<int> {
        Set::new(|s: int| exists|i: int| 0 <= i < self.streams@.len() && self.streams@[i] == s)
    }

    /// The stream ids in flight.
    pub open spec fn in_flight_ids(&self) -> Set<int> {
        Set::new(|s: int| 1 <= s <= self.capacity() && self.workers@[s] is Some)
    }

    /// Every id from 1 to the capacity is either free, once, or in flight with
    /// a worker and a parked payload.
    pub open spec fn wf(&self) -> bool {
        &&& 1 <= self.capacity() <= MAX_STREAMS
        &&& self.payloads@.len() == self.workers@.len()
        &&& self.workers@[0] is None
        &&& self.payloads@[0] is None
        &&& forall|i: int| 0 <= i < self.streams@.len() ==> 1 <= #[trigger] self.streams@[i] <= self.capacity()
        &&& forall|i: int, j: int| 0 <= i < j < self.streams@.len() ==> self.streams@[i] != self.streams@[j]
        &&& forall|i: int| 0 <= i < self.streams@.len() ==> self.workers@[self.streams@[i] as int] is None
        &&& forall|s: int| 1 <= s <= self.capacity() && #[trigger] self.workers@[s] is None ==> self.free_ids().contains(s)
        &&& forall|s: int| 0 <= s <= self.capacity() ==> (#[trigger] self.payloads@[s] is Some <==> self.workers@[s] is Some)
    }

    /// A connection with stream ids 1 to `n`, all free.
    pub fn new(n: i16) -> (r: Reporter<W>)
        requires
            1 <= n,
        ensures
            r.wf(),
            r.capacity() == n,
            r.free_ids() == all_ids(n as int),
            r.in_flight_ids() == Set::<int>::empty(),
    {
        let mut streams: Vec<i16> = Vec::new();
        let mut workers: Vec<Option<W>> = Vec::new();
        let mut payloads: Vec<Option<Vec<u8>>> = Vec::new();
        workers.push(None);
        payloads.push(None);
        let mut s: i16 = 0;
        while s < n
            invariant
                0 <= s <= n,
                n <= MAX_STREAMS,
                streams@.len() == s,
                workers@.len() == s + 1,
                payloads@.len() == s + 1,
                forall|i: int| 0 <= i < streams@.len() ==> #[trigger] streams@[i] == i + 1,
                forall|i: int| 0 <= i < workers@.len() ==> #[trigger] workers@[i] is None,
                forall|i: int| 0 <= i < payloads@.len() ==> #[trigger] payloads@[i] is None,
            decreases n - s,
        {
            s = s + 1;
            streams.push(s);
            workers.push(None);
            payloads.push(None);
        }
        let r = Reporter { streams, workers, payloads };
        assert forall|x: int| 1 <= x <= n implies r.free_ids().contains(x) by {
            assert(r.streams@[x - 1] == x);
        }
        assert(r.free_ids() =~= all_ids(n as int));
        assert(r.in_flight_ids() =~= Set::<int>::empty());
        r
    }

    /// Parks a request on a free stream id, or hands the worker back when
    /// there is none.
    pub fn request(&mut self, worker: W, payload: Vec<u8>) -> (r: RequestOutcome<W>)
        requires
            old(self).wf(),
            payload@.len() >= 4,
        ensures
            final(self).wf(),
            final(self).capacity() == old(self).capacity(),
            old(self).streams@.len() == 0 <==> r is Overload,
            r is Overload ==> r->Overload_0 == worker && *final(self) == *old(self),
            r is Send ==> {
                let s = r->Send_0 as int;
                &&& old(self).free_ids().contains(s)
                &&& final(self).free_ids() == old(self).free_ids().remove(s)
                &&& final(self).in_flight_ids() == old(self).in_flight_ids().insert(s)
                &&& final(self).workers@ == old(self).workers@.update(s, Some(worker))
                &&& final(self).payloads@[s] is Some
                &&& final(self).payloads@[s]->0@ == assign_stream_spec(r->Send_0, payload@)
            },
    {
        if self.streams.len() == 0 {
            return RequestOutcome::Overload(worker);
        }
        match self.streams.pop() {
            None => {
                RequestOutcome::Overload(worker)
            },
            Some(stream) => {
                let ghost old_streams = old(self).streams@;
                let mut payload = payload;
                assign_stream_to_payload(stream, &mut payload);
                let ghost p = payload@;
                let idx = stream as usize;
                self.payloads.set(idx, Some(payload));
                self.workers.set(idx, Some(worker));
                proof {
                    let last = old_streams.len() - 1;
                    assert(old_streams[last] == stream);
                    assert(self.streams@ =~= old_streams.drop_last());
                    assert forall|x: int| #[trigger] self.free_ids().contains(x) <==> old(self).free_ids().remove(stream as int).contains(x) by {
                        if old(self).free_ids().contains(x) && x != stream {
                            let i = choose|i: int| 0 <= i < old_streams.len() && old_streams[i] == x;
                            assert(i != last);
                            assert(self.streams@[i] == x);
                        }
                        if self.free_ids().contains(x) {
                            let i = choose|i: int| 0 <= i < self.streams@.len() && self.streams@[i] == x;
                            assert(old_streams[i] == x);
                            assert(i != last);
                        }
                    }
                    assert(self.free_ids() =~= old(self).free_ids().remove(stream as int));
                    assert(self.in_flight_ids() =~= old(self).in_flight_ids().insert(stream as int));
                    assert forall|s: int| 1 <= s <= self.capacity() && #[trigger] self.workers@[s] is None implies self.free_ids().contains(s) by {
                        assert(s != stream);
                        assert(old(self).free_ids().contains(s));
                    }
                }
                RequestOutcome::Send(stream)
            },
        }
    }

    /// The payload parked at a stream, for the sender to write.
    pub fn payload(&self, stream: i16) -> (r: Option<&Vec<u8>>)
        requires
            self.wf(),
        ensures
            (1 <= stream <= self.capacity() && self.payloads@[stream as int] is Some) <==> r is Some,
            r is Some ==> *r->0 == self.payloads@[stream as int]->0,
    {
        if stream < 1 || stream as usize >= self.payloads.len() {
            return None;
        }
        match &self.payloads[stream as usize] {
            Some(p) => Some(p),
            None => None,
        }
    }

    /// Frees a stream in flight and hands back its worker and payload.
    fn release(&mut self, stream: i16) -> (r: Option<(W, Vec<u8>)>)
        requires
            old(self).wf(),
        ensures
            final(self).wf(),
            final(self).capacity() == old(self).capacity(),
            r is Some <==> old(self).in_flight_ids().contains(stream as int),
            r is None ==> *final(self) == *old(self),
            r is Some ==> {
                let s = stream as int;
                &&& Some((r->0).0) == old(self).workers@[s]
                &&& final(self).free_ids() == old(self).free_ids().insert(s)
                &&& final(self).in_flight_ids() == old(self).in_flight_ids().remove(s)
                &&& final(self).workers@ == old(self).workers@.update(s, None)
            },
    {
        if stream < 1 || stream as usize >= self.workers.len() {
            return None;
        }
        let idx = stream as usize;
        if self.workers[idx].is_none() {
            return None;
        }
        let ghost old_streams = self.streams@;
        let worker = self.workers[idx].take();
        let payload = self.payloads[idx].take();
        self.streams.push(stream);
        let w = match worker {
            Some(w) => w,
            None => { proof { assert(false); } return None; },
        };
        let p = match payload {
            Some(p) => p,
            None => { proof { assert(false); } return None; },
        };
        proof {
            assert forall|i: int| 0 <= i < old_streams.len() implies old_streams[i] != stream by {
                assert(old(self).workers@[old_streams[i] as int] is None);
            }
            assert forall|x: int| #[trigger] self.free_ids().contains(x) <==> old(self).free_ids().insert(stream as int).contains(x) by {
                if old(self).free_ids().contains(x) {
                    let i = choose|i: int| 0 <= i < old_streams.len() && old_streams[i] == x;
                    assert(self.streams@[i] == x);
                }
                if x == stream {
                    assert(self.streams@[old_streams.len() as int] == x);
                }
                if self.free_ids().contains(x) && x != stream {
                    let i = choose|i: int| 0 <= i < self.streams@.len() && self.streams@[i] == x;
                    assert(i < old_streams.len());
                    assert(old_streams[i] == x);
                }
            }
            assert(self.free_ids() =~= old(self).free_ids().insert(stream as int));
            assert(self.in_flight_ids() =~= old(self).in_flight_ids().remove(stream as int));
            assert forall|s: int| 1 <= s <= self.capacity() && #[trigger] self.workers@[s] is None implies self.free_ids().contains(s) by {
                if s != stream {
                    assert(old(self).free_ids().contains(s));
                }
            }
        }
        Some((w, p))
    }

    /// A frame arrived on a stream: frees the stream and hands the worker the
    /// frame, as an error when its opcode is ERROR. A frame on a stream that is
    /// not in flight is handed to no worker and the answer is `None`; this holds
    /// for EVENT frames on stream 0 too, which a connection that never sends
    /// REGISTER does not expect. The caller decides what to do with such a frame.
    pub fn response(&mut self, stream: i16, frame: Vec<u8>) -> (r: Option<Delivery<W>>)
        requires
            old(self).wf(),
        ensures
            final(self).wf(),
            final(self).capacity() == old(self).capacity(),
            r is Some <==> old(self).in_flight_ids().contains(stream as int),
            r is None ==> *final(self) == *old(self),
            r is Some ==> {
                let s = stream as int;
                &&& final(self).free_ids() == old(self).free_ids().insert(s)
                &&& final(self).in_flight_ids() == old(self).in_flight_ids().remove(s)
                &&& match r->0 {
                    Delivery::Response(w, f) => Some(w) == old(self).workers@[s] && f == frame && !cql_error_spec(frame@),
                    Delivery::Error(w, f) => Some(w) == old(self).workers@[s] && f == frame && cql_error_spec(frame@),
                }
            },
    {
        match self.release(stream) {
            None => None,
            Some((worker, _payload)) => {
                if is_cql_error(frame.as_slice()) {
                    Some(Delivery::Error(worker, frame))
                } else {
                    Some(Delivery::Response(worker, frame))
                }
            },
        }
    }

    /// Reading or writing a stream failed: frees the stream and hands back its worker.
    pub fn error(&mut self, stream: i16) -> (r: Option<W>)
        requires
            old(self).wf(),
        ensures
            final(self).wf(),
            final(self).capacity() == old(self).capacity(),
            r is Some <==> old(self).in_flight_ids().contains(stream as int),
            r is None ==> *final(self) == *old(self),
            r is Some ==> Some(r->0) == old(self).workers@[stream as int]
                && final(self).free_ids() == old(self).free_ids().insert(stream as int)
                && final(self).in_flight_ids() == old(self).in_flight_ids().remove(stream as int),
    {
        match self.release(stream) {
            None => None,
            Some((worker, _payload)) => Some(worker),
        }
    }

    /// The connection is gone: frees every stream and hands back every worker
    /// in flight, to be failed with `Lost`.
    pub fn drain(&mut self) -> (r: Vec<W>)
        requires
            old(self).wf(),
        ensures
            final(self).wf(),
            final(self).capacity() == old(self).capacity(),
            final(self).in_flight_ids() == Set::<int>::empty(),
            final(self).free_ids() == all_ids(old(self).capacity()),
            r@ == waiting(old(self).workers@),
    {
        let mut out: Vec<W> = Vec::new();
        let n = self.workers.len();
        let mut s: usize = 1;
        proof {
            let t = old(self).workers@.take(1);
            assert(t.drop_last() =~= Seq::<Option<W>>::empty());
            assert(t.last() is None);
            assert(waiting(t) == waiting(t.drop_last()));
            assert(waiting(Seq::<Option<W>>::empty()) =~= Seq::<W>::empty());
            assert(out@ =~= waiting(t));
        }
        while s < n
            invariant
                1 <= s <= n,
                n == self.workers@.len(),
                self.wf(),
                self.capacity() == old(self).capacity(),
                forall|x: int| 1 <= x < s ==> self.workers@[x] is None,
                forall|x: int| s <= x < n ==> self.workers@[x] == old(self).workers@[x],
                out@ == waiting(old(self).workers@.take(s as int)),
            decreases n - s,
        {
            assert(old(self).workers@.take(s + 1).drop_last() =~= old(self).workers@.take(s as int));
            match self.release(s as i16) {
                Some((w, _p)) => {
                    out.push(w);
                },
                None => {},
            }
            s = s + 1;
        }
        proof {
            assert(self.in_flight_ids() =~= Set::<int>::empty());
            assert(old(self).workers@.take(n as int) =~= old(self).workers@);
            assert forall|x: int| #[trigger] self.free_ids().contains(x) <==> all_ids(self.capacity()).contains(x) by {
                if 1 <= x <= self.capacity() {
                    assert(self.workers@[x] is None);
                }
            }
            assert(self.free_ids() =~= all_ids(self.capacity()));
        }
        out
    }
}

/// At every moment the free stream ids and the ids in flight split the ids
/// from 1 to the capacity: no id is both, and every id is one of them.
pub proof fn lemma_streams_partition<W>(r: &Reporter<W>)
    requires
        r.wf(),
    ensures
        r.free_ids().disjoint(r.in_flight_ids()),
        r.free_ids().union(r.in_flight_ids()) == all_ids(r.capacity()),
{
    assert forall|x: int| #[trigger] r.free_ids().contains(x) implies 1 <= x <= r.capacity() && r.workers@[x] is None by {
        let i = choose|i: int| 0 <= i < r.streams@.len() && r.streams@[i] == x;
        assert(1 <= r.streams@[i] <= r.capacity());
    }
    assert(r.free_ids().union(r.in_flight_ids()) =~= all_ids(r.capacity()));
}

/// When every stream id is in flight no id is free, so the next request is
/// turned away with its worker.
pub proof fn lemma_overload_when_full<W>(r: &Reporter<W>)
    requires
        r.wf(),
        r.in_flight_ids() == all_ids(r.capacity()),
    ensures
        r.streams@.len() == 0,
{
    if r.streams@.len() > 0 {
        let x = r.streams@[0] as int;
        assert(r.free_ids().contains(x));
        assert(r.in_flight_ids().contains(x));
        lemma_streams_partition(r);
        assert(r.free_ids().disjoint(r.in_flight_ids()));
    }
}

/// The workers that wait in a table of stream slots, in stream order.
pub open spec fn waiting<W>(ws: Seq<Option<W>>) -> Seq<W>
    decreases ws.len(),
{
    if ws.len() == 0 {
        Seq::empty()
    } else {
        match ws.last() {
            Some(w) => waiting(ws.drop_last()).push(w),
            None => waiting(ws.drop_last()),
        }
    }
}

/// `payload` with its stream field set to `stream`.
pub open spec fn assign_stream_spec(stream: i16, payload: Seq<u8>) -> Seq<u8> {
    payload.update(2, i16_be(stream)[0]).update(3, i16_be(stream)[1])
}

/// Writes a stream id into bytes 2 and 3 of a request frame.
pub fn assign_stream_to_payload(stream: i16, payload: &mut Vec<u8>)
    requires
        old(payload)@.len() >= 4,
    ensures
        final(payload)@ == assign_stream_spec(stream, old(payload)@),
{
    let v = stream as u16;
    payload.set(2, (v / 256) as u8);
    payload.set(3, (v % 256) as u8);
}

/// Whether a received frame is an ERROR: its opcode byte is zero.
pub open spec fn cql_error_spec(frame: Seq<u8>) -> bool {
    frame.len() > 4 && frame[4] == 0
}

/// Whether a received frame is an ERROR.
pub fn is_cql_error(buffer: &[u8]) -> (r: bool)
    ensures
        r == cql_error_spec(buffer@),
{
    buffer.len() > 4 && buffer[4] == 0
}

} // verus!
