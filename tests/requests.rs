use scylladb::batch::{Batch, BatchTypes};
use scylladb::column::ColumnEncoder;
use scylladb::compression::Compression;
use scylladb::consistency::Consistency;
use scylladb::request::{execute, prepare, query, startup, QueryParameters};
use scylladb::worker::statement_id;

fn be32(n: usize) -> Vec<u8> {
    (n as u32).to_be_bytes().to_vec()
}

#[test]
fn insert_query_frame() {
    let statement = "INSERT INTO k.t (k,v) VALUES (?,?)";
    let mut values = Vec::new();
    1_i32.encode(&mut values);
    String::from("hello").encode(&mut values);
    let params = QueryParameters::new(Consistency::Quorum, values, 2);
    let frame = query(statement, &params, Compression::Uncompressed).unwrap();
    assert_eq!(statement.len(), 34);
    let mut body = vec![0, 0, 0, 0x22];
    body.extend_from_slice(statement.as_bytes());
    body.extend_from_slice(&[0, 4, 0x01, 0, 2]);
    body.extend_from_slice(&[0, 0, 0, 4, 0, 0, 0, 1]);
    body.extend_from_slice(&[0, 0, 0, 5, 0x68, 0x65, 0x6C, 0x6C, 0x6F]);
    let mut expected = vec![4, 0, 0, 0, 0x07];
    expected.extend(be32(body.len()));
    expected.extend(body);
    assert_eq!(frame, expected);
}

#[test]
fn prepare_and_execute_frames() {
    let statement = "SELECT v FROM k.t WHERE k=?";
    let frame = prepare(statement, Compression::Uncompressed).unwrap();
    assert_eq!(frame[4], 0x09);
    assert_eq!(&frame[9..13], &[0, 0, 0, statement.len() as u8]);
    assert_eq!(&frame[13..], statement.as_bytes());

    let id = statement_id(statement);
    assert_eq!(id.len(), 16);
    let mut values = Vec::new();
    1_i32.encode(&mut values);
    let params = QueryParameters::new(Consistency::One, values, 1);
    let frame = execute(&id, &params, Compression::Uncompressed).unwrap();
    let mut body = vec![0, 0x10];
    body.extend_from_slice(&id);
    body.extend_from_slice(&[0, 1, 0x01, 0, 1, 0, 0, 0, 4, 0, 0, 0, 1]);
    let mut expected = vec![4, 0, 0, 0, 0x0A];
    expected.extend(be32(body.len()));
    expected.extend(body);
    assert_eq!(frame, expected);
}

#[test]
fn statement_id_is_md5() {
    let id = statement_id("");
    assert_eq!(
        id,
        [0xd4, 0x1d, 0x8c, 0xd9, 0x8f, 0x00, 0xb2, 0x04, 0xe9, 0x80, 0x09, 0x98, 0xec, 0xf8, 0x42, 0x7e]
    );
}

#[test]
fn query_with_every_parameter() {
    let mut params = QueryParameters::new(Consistency::LocalOne, Vec::new(), 0);
    params.page_size = Some(100);
    params.paging_state = Some(vec![9, 9]);
    params.serial_consistency = Some(Consistency::Serial);
    params.timestamp = Some(1);
    let frame = query("S", &params, Compression::Uncompressed).unwrap();
    let expected_body = vec![
        0, 0, 0, 1, b'S', 0, 10, 0x3C, 0, 0, 0, 100, 0, 0, 0, 2, 9, 9, 0, 8, 0, 0, 0, 0, 0, 0, 0, 1,
    ];
    assert_eq!(&frame[9..], &expected_body[..]);
    assert_eq!(&frame[5..9], &be32(expected_body.len())[..]);
}

#[test]
fn logged_batch_with_serial_consistency_and_timestamp() {
    let id = [7u8; 16];
    let statement = "INSERT INTO k.t (k,v) VALUES (?,?)";
    let Batch(frame) = Batch::new()
        .logged()
        .id(&id)
        .value(&1_i32)
        .statement(statement)
        .value(&2_i32)
        .value(&String::from("x"))
        .consistency(Consistency::Quorum)
        .serial_consistency(Consistency::LocalSerial)
        .timestamp(1_700_000_000_000)
        .build(Compression::Uncompressed)
        .unwrap();
    let mut body = vec![0, 0, 2];
    body.extend_from_slice(&[1, 0, 16]);
    body.extend_from_slice(&id);
    body.extend_from_slice(&[0, 1, 0, 0, 0, 4, 0, 0, 0, 1]);
    body.push(0);
    body.extend(be32(statement.len()));
    body.extend_from_slice(statement.as_bytes());
    body.extend_from_slice(&[0, 2, 0, 0, 0, 4, 0, 0, 0, 2, 0, 0, 0, 1, b'x']);
    body.extend_from_slice(&[0, 4, 0x30, 0, 9]);
    body.extend_from_slice(&1_700_000_000_000_i64.to_be_bytes());
    let mut expected = vec![4, 0, 0, 0, 0x0D];
    expected.extend(be32(body.len()));
    expected.extend(body);
    assert_eq!(frame, expected);
}

#[test]
fn unlogged_and_counter_batches() {
    let Batch(frame) = Batch::new()
        .batch_type(BatchTypes::Unlogged)
        .statement("A")
        .null_value()
        .unset_value()
        .consistency(Consistency::One)
        .build(Compression::Uncompressed)
        .unwrap();
    assert_eq!(
        &frame[9..],
        &[1, 0, 1, 0, 0, 0, 0, 1, b'A', 0, 2, 0xFF, 0xFF, 0xFF, 0xFF, 0xFF, 0xFF, 0xFF, 0xFE, 0, 1, 0][..]
    );
    let Batch(frame) = Batch::with_capacity(64)
        .counter()
        .statement("C")
        .consistency(Consistency::All)
        .timestamp(-1)
        .build(Compression::Uncompressed)
        .unwrap();
    assert_eq!(
        &frame[9..],
        &[2, 0, 1, 0, 0, 0, 0, 1, b'C', 0, 0, 0, 5, 0x20, 255, 255, 255, 255, 255, 255, 255, 255][..]
    );
}

#[test]
fn compressed_batch_sets_flag() {
    let Batch(frame) = Batch::new()
        .logged()
        .statement("INSERT")
        .consistency(Consistency::One)
        .build(Compression::Lz4)
        .unwrap();
    assert_eq!(frame[1] & 0x01, 0x01);
}

#[test]
fn startup_frame() {
    let frame = startup(Compression::Uncompressed);
    let mut body = vec![0, 1, 0, 11];
    body.extend_from_slice(b"CQL_VERSION");
    body.extend_from_slice(&[0, 5]);
    body.extend_from_slice(b"3.0.0");
    let mut expected = vec![4, 0, 0, 0, 0x01];
    expected.extend(be32(body.len()));
    expected.extend(body);
    assert_eq!(frame, expected);
    let frame = startup(Compression::Snappy);
    assert_eq!(&frame[9..11], &[0, 2]);
    assert!(frame.ends_with(b"snappy"));
}
