use scylladb::column::{
    encode_new, Blob, ColumnEncodeChain, CqlMap, ColumnDecoder, ColumnEncoder, CqlDate, CqlTime, CqlTimestamp, IpAddr, Null, Unset,
};
use scylladb::wire::Reader;

fn round_trip<T: ColumnEncoder + ColumnDecoder>(v: &T) -> T {
    let mut buf = Vec::new();
    v.encode(&mut buf);
    let mut reader = Reader::new(buf);
    let back = T::try_decode(&mut reader).expect("decodes");
    assert_eq!(reader.remaining(), 0);
    back
}

#[test]
fn integers_round_trip() {
    assert_eq!(round_trip(&1_i32), 1);
    assert_eq!(round_trip(&-7_i32), -7);
    assert_eq!(round_trip(&i64::MIN), i64::MIN);
    assert_eq!(round_trip(&u64::MAX), u64::MAX);
    assert_eq!(round_trip(&-300_i16), -300);
    assert_eq!(round_trip(&65535_u16), 65535);
    assert_eq!(round_trip(&-1_i8), -1);
    assert_eq!(round_trip(&200_u8), 200);
    assert_eq!(round_trip(&true), true);
    assert_eq!(round_trip(&false), false);
}

#[test]
fn int_encoding_is_big_endian_with_length() {
    let mut buf = Vec::new();
    1_i32.encode(&mut buf);
    assert_eq!(buf, vec![0, 0, 0, 4, 0, 0, 0, 1]);
    let mut buf = Vec::new();
    (-2_i64).encode_column(&mut buf);
    assert_eq!(buf, vec![0xFF, 0xFF, 0xFF, 0xFF, 0xFF, 0xFF, 0xFF, 0xFE]);
}

#[test]
fn text_round_trips() {
    let s = String::from("héllo, wörld");
    assert_eq!(round_trip(&s), s);
    let mut buf = Vec::new();
    String::from("hello").encode(&mut buf);
    assert_eq!(buf, vec![0, 0, 0, 5, 0x68, 0x65, 0x6C, 0x6C, 0x6F]);
}

#[test]
fn empty_text_round_trips() {
    let s = String::new();
    let mut buf = Vec::new();
    s.encode(&mut buf);
    assert_eq!(buf, vec![0, 0, 0, 0]);
    assert_eq!(round_trip(&s), s);
}

#[test]
fn invalid_utf8_is_rejected() {
    assert!(String::try_decode_column(&[0xFF, 0xFE]).is_none());
}

#[test]
fn blob_round_trips() {
    let b = Blob(vec![1, 2, 3, 0, 255]);
    assert_eq!(round_trip(&b).0, vec![1, 2, 3, 0, 255]);
}

#[test]
fn addresses_round_trip() {
    let v4 = IpAddr::V4([127, 0, 0, 1]);
    let mut buf = Vec::new();
    v4.encode(&mut buf);
    assert_eq!(buf, vec![0, 0, 0, 4, 127, 0, 0, 1]);
    match round_trip(&v4) {
        IpAddr::V4(o) => assert_eq!(o, [127, 0, 0, 1]),
        IpAddr::V6(_) => panic!("wrong family"),
    }
    let mut o6 = [0u8; 16];
    o6[15] = 1;
    match round_trip(&IpAddr::V6(o6)) {
        IpAddr::V6(o) => assert_eq!(o, o6),
        IpAddr::V4(_) => panic!("wrong family"),
    }
    assert!(IpAddr::try_decode_column(&[1, 2, 3]).is_none());
}

#[test]
fn dates_times_and_timestamps_round_trip() {
    let epoch = CqlDate { days_since_epoch: 0 };
    let mut buf = Vec::new();
    epoch.encode_column(&mut buf);
    assert_eq!(buf, vec![0x80, 0, 0, 0]);
    assert_eq!(round_trip(&epoch), epoch);
    let before = CqlDate { days_since_epoch: -719_162 };
    assert_eq!(round_trip(&before), before);
    let noon = CqlTime { nanos: 12 * 3_600_000_000_000 };
    assert_eq!(round_trip(&noon), noon);
    let ts = CqlTimestamp { millis: 1_700_000_000_000 };
    assert_eq!(round_trip(&ts), ts);
    let negative = CqlTimestamp { millis: -5 };
    assert_eq!(round_trip(&negative), negative);
}

#[test]
fn time_past_midnight_is_rejected() {
    let mut buf = Vec::new();
    86_400_000_000_000_u64.encode_column(&mut buf);
    assert!(CqlTime::try_decode_column(&buf).is_none());
}

#[test]
fn lists_round_trip() {
    let list = vec![1_i32, -2, 3];
    let mut buf = Vec::new();
    list.encode_column(&mut buf);
    assert_eq!(
        buf,
        vec![0, 0, 0, 3, 0, 0, 0, 4, 0, 0, 0, 1, 0, 0, 0, 4, 0xFF, 0xFF, 0xFF, 0xFE, 0, 0, 0, 4, 0, 0, 0, 3]
    );
    assert_eq!(round_trip(&list), list);
    let words = vec![String::from("a"), String::new(), String::from("ccc")];
    assert_eq!(round_trip(&words), words);
    let nested = vec![vec![1_i64], vec![], vec![2, 3]];
    assert_eq!(round_trip(&nested), nested);
}

#[test]
fn optional_values_round_trip() {
    assert_eq!(round_trip(&Some(5_i32)), Some(5));
    assert_eq!(round_trip(&None::<i32>), None);
    assert_eq!(round_trip(&Some(String::new())), Some(String::new()));
}

#[test]
fn null_decodes_to_absent() {
    let mut buf = Vec::new();
    Null.encode(&mut buf);
    assert_eq!(buf, vec![0xFF, 0xFF, 0xFF, 0xFF]);
    let mut reader = Reader::new(buf);
    assert_eq!(Option::<i32>::try_decode(&mut reader), Some(None));
}

#[test]
fn unset_encodes_to_minus_two() {
    let mut buf = Vec::new();
    Unset.encode(&mut buf);
    assert_eq!(buf, vec![0xFF, 0xFF, 0xFF, 0xFE]);
    let mut buf = Vec::new();
    None::<i32>.encode(&mut buf);
    assert_eq!(buf, vec![0xFF, 0xFF, 0xFF, 0xFE]);
}

#[test]
fn truncated_value_is_rejected() {
    let mut reader = Reader::new(vec![0, 0, 0, 8, 1, 2, 3]);
    assert!(i64::try_decode(&mut reader).is_none());
    let mut reader = Reader::new(vec![0, 0]);
    assert!(i32::try_decode(&mut reader).is_none());
}

#[test]
fn pairs_round_trip() {
    let pair = (7_i32, String::from("seven"));
    let mut buf = Vec::new();
    pair.encode_column(&mut buf);
    assert_eq!(buf, vec![0, 0, 0, 4, 0, 0, 0, 7, 0, 0, 0, 5, b's', b'e', b'v', b'e', b'n']);
    assert_eq!(round_trip(&pair), pair);
}

#[test]
fn maps_round_trip() {
    let map = CqlMap(vec![(String::from("a"), 1_i64), (String::from("b"), -1_i64)]);
    let mut buf = Vec::new();
    map.encode_column(&mut buf);
    assert_eq!(&buf[..4], &[0, 0, 0, 2]);
    assert_eq!(&buf[4..9], &[0, 0, 0, 1, b'a']);
    assert_eq!(round_trip(&map).0, map.0);
    let empty: CqlMap<i32, i32> = CqlMap(vec![]);
    assert_eq!(round_trip(&empty).0, vec![]);
}

#[test]
fn encode_chain_writes_values_back_to_back() {
    let bytes = ColumnEncodeChain::start(&1_i32).chain(&String::from("a")).finish();
    assert_eq!(bytes, vec![0, 0, 0, 4, 0, 0, 0, 1, 0, 0, 0, 1, b'a']);
    assert_eq!(encode_new(&true), vec![0, 0, 0, 1, 1]);
}
