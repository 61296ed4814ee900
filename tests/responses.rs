use scylladb::compression::{Compression, CompressionError};
use scylladb::decoder::{DecodeError, Decoder};
use scylladb::error::{Additional, CqlError, ErrorCodes, WriteType};
use scylladb::response::{prepared_result_id, Supported, VoidDecoder, VoidOutcome};
use scylladb::rows::{AnyIter, ColType, Iter};

fn response(opcode: u8, body: &[u8]) -> Vec<u8> {
    let mut f = vec![0x84, 0, 0, 1, opcode];
    f.extend_from_slice(&(body.len() as u32).to_be_bytes());
    f.extend_from_slice(body);
    f
}

fn rows_body() -> Vec<u8> {
    let mut b = vec![0, 0, 0, 2];
    b.extend_from_slice(&[0, 0, 0, 1]);
    b.extend_from_slice(&[0, 0, 0, 2]);
    b.extend_from_slice(&[0, 1, b'k', 0, 1, b't']);
    b.extend_from_slice(&[0, 1, b'k', 0, 9]);
    b.extend_from_slice(&[0, 1, b'v', 0, 9]);
    b.extend_from_slice(&[0, 0, 0, 1]);
    b.extend_from_slice(&[0, 0, 0, 4, 0, 0, 0, 0x2A, 0xFF, 0xFF, 0xFF, 0xFF]);
    b
}

#[test]
fn rows_with_a_null_cell() {
    let decoder = Decoder::new(response(0x08, &rows_body()), Compression::Uncompressed).unwrap();
    assert!(decoder.is_rows());
    let mut rows = AnyIter::new(decoder).unwrap();
    assert_eq!(rows.rows_count(), 1);
    assert_eq!(rows.columns_count(), 2);
    assert_eq!(rows.remaining_total_columns_count(), 2);
    assert!(!rows.has_more_pages());
    let row: Option<(i32, Option<i32>)> = rows.next();
    assert_eq!(row, Some((42, None)));
    assert_eq!(rows.remaining_total_columns_count(), 0);
    assert_eq!(rows.next::<(i32, Option<i32>)>(), None);
}

#[test]
fn metadata_is_read() {
    let mut decoder = Decoder::new(response(0x08, &rows_body()), Compression::Uncompressed).unwrap();
    let metadata = decoder.metadata().unwrap();
    assert_eq!(metadata.columns_count, 2);
    let table = metadata.global_table_spec().unwrap();
    assert_eq!(table.keyspace(), "k");
    assert_eq!(table.table_name(), "t");
    assert_eq!(metadata.column_specs().len(), 2);
    assert_eq!(metadata.column_specs()[1].col_name(), "v");
    assert!(matches!(metadata.column_specs()[0].col_type(), ColType::Int));
    assert!(metadata.column_specs()[0].table_spec().is_none());
    assert!(metadata.get_paging_state().is_none());
}

#[test]
fn rows_iterator_counts_down() {
    let decoder = Decoder::new(response(0x08, &rows_body()), Compression::Uncompressed).unwrap();
    let mut rows: Iter<(i32, Option<i32>)> = Iter::new(decoder).unwrap();
    assert_eq!(rows.remaining_rows_count(), 1);
    assert_eq!(rows.next(), Some((42, None)));
    assert_eq!(rows.remaining_rows_count(), 0);
    assert_eq!(rows.next(), None);
}

#[test]
fn paging_state_and_nested_types() {
    let mut b = vec![0, 0, 0, 2];
    b.extend_from_slice(&[0, 0, 0, 3]);
    b.extend_from_slice(&[0, 0, 0, 1]);
    b.extend_from_slice(&[0, 0, 0, 2, 0xAB, 0xCD]);
    b.extend_from_slice(&[0, 2, b'k', b's', 0, 1, b't']);
    b.extend_from_slice(&[0, 1, b'm', 0, 33, 0, 13, 0, 32, 0, 2]);
    b.extend_from_slice(&[0, 0, 0, 0]);
    let mut decoder = Decoder::new(response(0x08, &b), Compression::Uncompressed).unwrap();
    let mut metadata = decoder.metadata().unwrap();
    assert!(metadata.has_more_pages());
    assert_eq!(metadata.take_paging_state(), Some(vec![0xAB, 0xCD]));
    match metadata.column_specs()[0].col_type() {
        ColType::MapOf { key, value } => {
            assert!(matches!(**key, ColType::Varchar));
            assert!(matches!(**value, ColType::List { .. }));
        },
        _ => panic!("expected a map"),
    }
}

#[test]
fn void_result() {
    let decoder = Decoder::new(response(0x08, &[0, 0, 0, 1]), Compression::Uncompressed).unwrap();
    assert!(decoder.is_void());
    assert!(decoder.get_void().is_ok());
    assert!(matches!(VoidDecoder::try_decode_void(decoder), Ok(VoidOutcome::Done)));
}

#[test]
fn prepared_result_yields_id() {
    let mut body = vec![0, 0, 0, 4, 0, 16];
    body.extend_from_slice(&[5u8; 16]);
    let mut decoder = Decoder::new(response(0x08, &body), Compression::Uncompressed).unwrap();
    assert_eq!(prepared_result_id(&mut decoder), Ok([5u8; 16]));
}

fn error_frame(code: u32, extra: &[u8]) -> Vec<u8> {
    let mut body = code.to_be_bytes().to_vec();
    body.extend_from_slice(&[0, 3, b'b', b'a', b'd']);
    body.extend_from_slice(extra);
    response(0x00, &body)
}

#[test]
fn unprepared_error_carries_id() {
    let mut extra = vec![0, 16];
    extra.extend_from_slice(&[9u8; 16]);
    let mut decoder = Decoder::new(error_frame(0x2500, &extra), Compression::Uncompressed).unwrap();
    assert!(decoder.is_error());
    assert!(decoder.is_error_code(0x2500));
    assert!(decoder.is_unprepared());
    assert!(!decoder.is_overloaded());
    let error = CqlError::new(&mut decoder).unwrap();
    assert_eq!(error.code, ErrorCodes::Unprepared);
    assert_eq!(error.message, "bad");
    assert_eq!(error.try_unprepared_id(), Some([9u8; 16]));
}

#[test]
fn write_timeout_error() {
    let mut extra = vec![0, 4, 0, 0, 0, 1, 0, 0, 0, 2];
    extra.extend_from_slice(&[0, 5]);
    extra.extend_from_slice(b"BATCH");
    let mut decoder = Decoder::new(error_frame(0x1100, &extra), Compression::Uncompressed).unwrap();
    let error = CqlError::new(&mut decoder).unwrap();
    match error.additional {
        Some(Additional::WriteTimeout(w)) => {
            assert_eq!(w.received, 1);
            assert_eq!(w.blockfor, 2);
            assert_eq!(w.writetype, WriteType::Batch);
        },
        _ => panic!("expected a write timeout"),
    }
    assert!(error.code.is_retryable());
}

#[test]
fn read_timeout_error() {
    let extra = vec![0, 1, 0, 0, 0, 0, 0, 0, 0, 1, 0];
    let mut decoder = Decoder::new(error_frame(0x1200, &extra), Compression::Uncompressed).unwrap();
    let error = CqlError::new(&mut decoder).unwrap();
    match error.additional {
        Some(Additional::ReadTimeout(r)) => assert!(r.replica_had_not_responded()),
        _ => panic!("expected a read timeout"),
    }
}

#[test]
fn syntax_error_is_not_retryable() {
    let mut decoder = Decoder::new(error_frame(0x2000, &[]), Compression::Uncompressed).unwrap();
    let error = decoder.get_error().unwrap();
    assert_eq!(error.code, ErrorCodes::SyntaxError);
    assert!(error.additional.is_none());
    assert!(!error.code.is_retryable());
}

#[test]
fn unknown_error_code_is_malformed() {
    let mut decoder = Decoder::new(error_frame(0x7777, &[]), Compression::Uncompressed).unwrap();
    assert!(matches!(CqlError::new(&mut decoder), Err(DecodeError::Malformed)));
}

#[test]
fn error_of_a_result_is_refused() {
    let mut decoder = Decoder::new(response(0x08, &[0, 0, 0, 1]), Compression::Uncompressed).unwrap();
    assert!(matches!(CqlError::new(&mut decoder), Err(DecodeError::UnexpectedKind)));
}

#[test]
fn short_buffer_is_rejected() {
    assert!(matches!(
        Decoder::new(vec![0x84, 0, 0], Compression::Uncompressed),
        Err(DecodeError::Compression(CompressionError::TooSmall))
    ));
}

#[test]
fn warnings_and_tracing_precede_the_body() {
    let mut body = vec![7u8; 16];
    body.extend_from_slice(&[0, 1, 0, 2, b'w', b'1']);
    body.extend_from_slice(&[0, 0, 0, 1]);
    let mut f = response(0x08, &body);
    f[1] = 0x02 | 0x08;
    let mut decoder = Decoder::new(f, Compression::Uncompressed).unwrap();
    assert!(decoder.is_void());
    assert_eq!(decoder.header_flags.take_tracing_id(), Some([7u8; 16]));
    assert_eq!(decoder.header_flags.take_warnings(), Some(vec![String::from("w1")]));
    assert_eq!(decoder.stream(), 1);
    assert_eq!(decoder.version(), 0x84);
}

#[test]
fn supported_options_are_read() {
    let mut body = vec![0, 1, 0, 11];
    body.extend_from_slice(b"COMPRESSION");
    body.extend_from_slice(&[0, 2, 0, 3]);
    body.extend_from_slice(b"lz4");
    body.extend_from_slice(&[0, 6]);
    body.extend_from_slice(b"snappy");
    let mut decoder = Decoder::new(response(0x06, &body), Compression::Uncompressed).unwrap();
    assert!(decoder.is_supported());
    let supported = Supported::new(&mut decoder).unwrap();
    assert_eq!(
        supported.get_options(),
        &vec![(String::from("COMPRESSION"), vec![String::from("lz4"), String::from("snappy")])]
    );
}

#[test]
fn custom_payload_precedes_the_body_kind() {
    let mut body = vec![0, 1, 0, 1, b'k', 0, 0, 0, 2, 7, 8];
    body.extend_from_slice(&[0, 0, 0, 2]);
    let mut f = response(0x08, &body);
    f[1] = 0x04;
    let mut decoder = Decoder::new(f, Compression::Uncompressed).unwrap();
    assert_eq!(decoder.header_flags.body_kind(), 2);
    assert!(decoder.is_rows());
    assert_eq!(
        decoder.header_flags.take_custom_payload(),
        Some(vec![(String::from("k"), Some(vec![7, 8]))])
    );
    let mut empty = response(0x08, &[0, 0, 0, 0, 0, 2]);
    empty[1] = 0x04;
    let decoder = Decoder::new(empty, Compression::Uncompressed).unwrap();
    assert_eq!(decoder.header_flags.body_kind(), 2);
}

#[test]
fn empty_last_page_gives_no_rows() {
    let last = vec![0, 0, 0, 2, 0, 0, 0, 4, 0, 0, 0, 1, 0, 0, 0, 0];
    let decoder = Decoder::new(response(0x08, &last), Compression::Uncompressed).unwrap();
    assert!(Iter::<(i32, i32)>::try_decode_rows(decoder).unwrap().is_none());
    let paged = vec![0, 0, 0, 2, 0, 0, 0, 6, 0, 0, 0, 1, 0, 0, 0, 1, 9, 0, 0, 0, 0];
    let decoder = Decoder::new(response(0x08, &paged), Compression::Uncompressed).unwrap();
    let it = Iter::<(i32, i32)>::try_decode_rows(decoder).unwrap().unwrap();
    assert!(it.has_more_pages());
    assert_eq!(it.rows_count(), 0);
}
