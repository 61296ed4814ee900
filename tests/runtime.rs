use scylladb::compression::{Compression, CompressionError};
use scylladb::error::{Additional, CqlError, ErrorCodes, Unprepared};
use scylladb::reporter::{assign_stream_to_payload, is_cql_error, Delivery, Reporter, RequestOutcome};
use scylladb::ring::{build_ring, simple_ring, Replica, Strategy};
use scylladb::worker::{statement_id, AnyWorker, AtomicWorker, BatchRequest, ErrorAction, PrepareRequest, PrepareWorker, WorkerError};

fn payload() -> Vec<u8> {
    vec![4, 0, 0, 0, 0x07, 0, 0, 0, 0]
}

#[test]
fn overload_after_all_streams_are_taken() {
    let mut reporter: Reporter<u32> = Reporter::new(3);
    let mut taken = Vec::new();
    for w in 0..3u32 {
        match reporter.request(w, payload()) {
            RequestOutcome::Send(s) => taken.push(s),
            RequestOutcome::Overload(_) => panic!("a stream was free"),
        }
    }
    taken.sort();
    assert_eq!(taken, vec![1, 2, 3]);
    match reporter.request(99, payload()) {
        RequestOutcome::Overload(w) => assert_eq!(w, 99),
        RequestOutcome::Send(_) => panic!("no stream was free"),
    }
}

#[test]
fn stream_is_written_into_the_payload() {
    let mut reporter: Reporter<&str> = Reporter::new(300);
    let s = match reporter.request("w", payload()) {
        RequestOutcome::Send(s) => s,
        RequestOutcome::Overload(_) => panic!(),
    };
    assert_eq!(s, 300);
    let parked = reporter.payload(s).unwrap();
    assert_eq!(&parked[2..4], &[0x01, 0x2C]);
    let mut p = payload();
    assert_eq!(p.len(), 9);
    assert_eq!(p[2..4], [0, 0]);
    assign_stream_to_payload(-2, &mut p);
    assert_eq!(p[2..4], [0xFF, 0xFE]);
}

#[test]
fn each_request_ends_once() {
    let mut reporter: Reporter<u32> = Reporter::new(2);
    let s1 = match reporter.request(10, payload()) {
        RequestOutcome::Send(s) => s,
        _ => panic!(),
    };
    let s2 = match reporter.request(20, payload()) {
        RequestOutcome::Send(s) => s,
        _ => panic!(),
    };
    let result = vec![0x84, 0, 0, 0, 0x08, 0, 0, 0, 0];
    match reporter.response(s1, result.clone()) {
        Some(Delivery::Response(w, f)) => {
            assert_eq!(w, 10);
            assert_eq!(f, result);
        },
        _ => panic!("expected a response"),
    }
    assert!(reporter.response(s1, result.clone()).is_none());
    let error = vec![0x84, 0, 0, 0, 0x00, 0, 0, 0, 0];
    match reporter.response(s2, error) {
        Some(Delivery::Error(w, _)) => assert_eq!(w, 20),
        _ => panic!("expected an error"),
    }
    assert_eq!(reporter.streams.len(), 2);
    assert!(reporter.error(s2).is_none());
}

#[test]
fn drain_hands_back_every_worker() {
    let mut reporter: Reporter<u32> = Reporter::new(4);
    for w in [5u32, 6, 7] {
        let _ = reporter.request(w, payload());
    }
    let s = match reporter.request(8, payload()) {
        RequestOutcome::Send(s) => s,
        _ => panic!(),
    };
    assert_eq!(reporter.error(s), Some(8));
    let mut lost = reporter.drain();
    lost.sort();
    assert_eq!(lost, vec![5, 6, 7]);
    assert_eq!(reporter.streams.len(), 4);
    assert!(reporter.drain().is_empty());
}

#[test]
fn error_frames_are_told_apart() {
    assert!(is_cql_error(&[0x84, 0, 0, 0, 0x00]));
    assert!(!is_cql_error(&[0x84, 0, 0, 0, 0x08]));
    assert!(!is_cql_error(&[0x84]));
}

#[test]
fn ring_routes_by_token() {
    let a = Replica { node: 1, datacenter: 1 };
    let b = Replica { node: 2, datacenter: 1 };
    let c = Replica { node: 3, datacenter: 2 };
    let owners = vec![(-4611686018427387904_i64, a), (0, b), (4611686018427387903, c)];
    let ring = simple_ring(&owners, 3);
    assert_eq!(ring.owner(-1), 1);
    assert_eq!(ring.owner(-5_000_000_000_000_000_000), 0);
    assert_eq!(ring.owner(0), 1);
    assert_eq!(ring.owner(i64::MAX), 0);
    assert_eq!(ring.replicas_for(-1).clone(), vec![b, c, a]);
    assert_eq!(ring.replicas_for(-5_000_000_000_000_000_000).clone(), vec![a, b, c]);
    for r in 0..6u64 {
        let picked = ring.global_replica(-1, r).unwrap();
        assert!([a, b, c].contains(&picked));
        assert_eq!(ring.local_replica(-1, 2, r), Some(c));
    }
    assert_eq!(ring.local_replica(-1, 9, 0), None);
    let single = simple_ring(&owners, 1);
    assert_eq!(single.replicas_for(5).clone(), vec![c]);
}

#[test]
fn compression_round_trips() {
    for c in [Compression::Uncompressed, Compression::Lz4, Compression::Snappy] {
        let mut frame = vec![4, c.flag(), 0, 1, 0x07, 0, 0, 0, 0];
        frame.extend_from_slice(&[0u8; 64]);
        let packed = c.compress(frame.clone()).unwrap();
        if c != Compression::Uncompressed {
            assert!(packed.len() < frame.len());
            assert_eq!(&packed[5..9], &((packed.len() - 9) as u32).to_be_bytes());
        }
        let unpacked = c.decompress(packed).unwrap();
        let mut expected = frame.clone();
        expected[5..9].copy_from_slice(&64u32.to_be_bytes());
        assert_eq!(unpacked, expected);
    }
}

#[test]
fn compression_of_an_empty_body() {
    for c in [Compression::Uncompressed, Compression::Lz4, Compression::Snappy] {
        let frame = vec![4, c.flag(), 0, 1, 0x07, 0, 0, 0, 0];
        let unpacked = c.decompress(c.compress(frame.clone()).unwrap()).unwrap();
        assert_eq!(unpacked, frame);
    }
}

#[test]
fn unflagged_frame_is_left_alone() {
    let frame = vec![0x84, 0, 0, 1, 0x08, 0, 0, 0, 3, 1, 2, 3];
    assert_eq!(Compression::Lz4.decompress(frame.clone()).unwrap(), frame);
    assert_eq!(Compression::Snappy.decompress(frame.clone()).unwrap(), frame);
}

#[test]
fn frames_shorter_than_a_header_are_refused() {
    assert_eq!(Compression::Lz4.compress(vec![1, 2]), Err(CompressionError::TooSmall));
    assert_eq!(Compression::Uncompressed.decompress(vec![]), Err(CompressionError::TooSmall));
}

#[test]
fn bad_length_and_bad_block() {
    let frame = vec![0x84, 1, 0, 1, 0x08, 0, 0, 0, 50, 1, 2];
    assert_eq!(Compression::Snappy.decompress(frame.clone()), Err(CompressionError::BadLength));
    let junk = vec![0x84, 1, 0, 1, 0x08, 0, 0, 0, 2, 0xFF, 0xFF];
    assert_eq!(Compression::Lz4.decompress(junk.clone()), Err(CompressionError::Codec));
    let empty = vec![0x84, 1, 0, 1, 0x08, 0, 0, 0, 0];
    assert_eq!(Compression::Lz4.decompress(empty.clone()).unwrap(), empty);
    assert_eq!(Compression::Snappy.decompress(junk), Err(CompressionError::Codec));
    assert_eq!(Compression::Lz4.option(), Some("lz4"));
    assert_eq!(Compression::Uncompressed.option(), None);
}

fn unprepared(id: [u8; 16]) -> WorkerError {
    WorkerError::Cql(CqlError {
        code: ErrorCodes::Unprepared,
        message: String::from("unprepared"),
        additional: Some(Additional::Unprepared(Unprepared { id })),
    })
}

#[test]
fn unprepared_statement_is_prepared_again() {
    let id = [3u8; 16];
    let request = BatchRequest::new(0, vec![], vec![(id, String::from("SELECT 1"))], None);
    let mut worker = AnyWorker::new(request, (), 2);
    match worker.on_error(&unprepared(id), true) {
        ErrorAction::Reprepare(s) => assert_eq!(s, "SELECT 1"),
        _ => panic!("expected a prepare"),
    }
    assert_eq!(worker.retries, 2);
    assert!(matches!(worker.on_error(&unprepared([4u8; 16]), true), ErrorAction::Surface));
}

#[test]
fn retries_run_out() {
    let request = BatchRequest::new(0, vec![], vec![], None);
    let mut worker = AnyWorker::new(request, (), 1);
    assert!(matches!(worker.on_error(&WorkerError::Overload, true), ErrorAction::Retry));
    assert_eq!(worker.retries, 0);
    assert!(matches!(worker.on_error(&WorkerError::Lost, true), ErrorAction::Surface));
    let mut worker = worker.with_retries(5);
    assert!(matches!(worker.on_error(&WorkerError::NoRing, false), ErrorAction::Surface));
    let syntax = WorkerError::Cql(CqlError { code: ErrorCodes::SyntaxError, message: String::new(), additional: None });
    assert!(matches!(worker.on_error(&syntax, true), ErrorAction::Surface));
    assert_eq!(worker.retries, 5);
}

#[test]
fn request_map_lookup() {
    let mut request = BatchRequest::new(7, vec![1], vec![([1u8; 16], String::from("A")), ([2u8; 16], String::from("B"))], None);
    assert_eq!(request.get_statement(&[2u8; 16]).map(|s| s.as_str()), Some("B"));
    assert_eq!(request.get_statement(&[9u8; 16]), None);
    assert_eq!(request.clone_map().len(), 2);
    let map = request.take_map();
    assert_eq!(map.len(), 2);
    assert!(request.map.is_empty());
    assert_eq!(request.with_token(9).token, 9);
}

#[test]
fn prepare_worker_expects_the_digest() {
    let worker = PrepareWorker::from_request(PrepareRequest { statement: String::from("SELECT 1"), token: 5 });
    assert_eq!(worker.id, statement_id("SELECT 1"));
    assert_eq!(worker.retries, 0);
    let frame = worker.payload(Compression::Uncompressed).unwrap();
    assert_eq!(frame[4], 0x09);
    assert_eq!(&frame[13..], b"SELECT 1");
    let other = PrepareWorker::new([1u8; 16], String::from("X"), 3);
    assert_eq!(other.request.token, 3);
}

#[test]
fn request_token_from_key() {
    let request = BatchRequest::new(0, vec![], vec![], None).compute_token(&1_i32);
    assert_eq!(request.token, -4069959284402364209);
}

#[test]
fn network_topology_takes_replicas_per_datacenter() {
    let a = Replica { node: 1, datacenter: 1 };
    let b = Replica { node: 2, datacenter: 1 };
    let c = Replica { node: 3, datacenter: 2 };
    let d = Replica { node: 4, datacenter: 2 };
    let owners = vec![(-10_i64, a), (0, b), (10, c), (20, d)];
    let ring = build_ring(&owners, &Strategy::NetworkTopology(vec![(1, 1), (2, 2)]));
    assert_eq!(ring.replicas_for(-20).clone(), vec![a, c, d]);
    assert_eq!(ring.replicas_for(5).clone(), vec![c, d, a]);
    assert_eq!(ring.replicas_for(15).clone(), vec![d, a, c]);
    let simple = build_ring(&owners, &Strategy::Simple(9));
    assert_eq!(simple.replicas_for(100).clone(), vec![a, b, c, d]);
}

#[test]
fn shared_handle_worker_decisions() {
    let id = [3u8; 16];
    let request = BatchRequest::new(0, vec![], vec![(id, String::from("SELECT 1"))], None);
    let mut worker = AtomicWorker::new(request, ()).with_retries(1);
    let d = worker.on_error(&unprepared(id), true);
    assert_eq!(d.prepare, Some(String::from("SELECT 1")));
    assert!(d.retry);
    assert_eq!(worker.retries, 0);
    let d = worker.on_error(&WorkerError::Overload, true);
    assert!(d.prepare.is_none());
    assert!(!d.retry);
    let mut worker = worker.with_retries(3);
    let d = worker.on_error(&unprepared([4u8; 16]), true);
    assert!(d.prepare.is_none());
    assert!(!d.retry);
    assert_eq!(worker.retries, 3);
}

#[test]
fn keyspace_is_kept_with_a_new_token() {
    let request = BatchRequest::new(0, vec![1], vec![], Some(String::from("ks"))).compute_token(&2_i32);
    assert_eq!(request.keyspace, Some(String::from("ks")));
    assert_eq!(request.token, -3248873570005575792);
}
