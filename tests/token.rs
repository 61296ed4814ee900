use scylladb::column::ColumnEncoder;
use scylladb::murmur3::murmur3_cassandra_x64_128;
use scylladb::token::{token_of_pair, TokenEncodeChain, TokenEncoder};

#[test]
fn int_keys_match_server_tokens() {
    assert_eq!(1_i32.token(), -4069959284402364209);
    assert_eq!(2_i32.token(), -3248873570005575792);
    assert_eq!(3_i32.token(), 9010454139840013625);
}

#[test]
fn token_is_hash_of_raw_value() {
    let mut raw = Vec::new();
    1_i32.encode_column(&mut raw);
    assert_eq!(1_i32.token(), murmur3_cassandra_x64_128(&raw).0);
    assert_eq!(1_i32.token(), 1_i32.token());
}

#[test]
fn tail_bytes_are_sign_extended() {
    let high = murmur3_cassandra_x64_128(&[0xFF]).0;
    let low = murmur3_cassandra_x64_128(&[0x7F]).0;
    assert_ne!(high, low);
    assert_eq!(high, murmur3_cassandra_x64_128(&[0xFF]).0);
}

#[test]
fn hash_of_every_length_up_to_two_blocks() {
    let data: Vec<u8> = (0u8..33).collect();
    let mut seen = Vec::new();
    for n in 0..=32 {
        let h = murmur3_cassandra_x64_128(&data[..n]);
        assert_eq!(h, murmur3_cassandra_x64_128(&data[..n]));
        assert!(!seen.contains(&h));
        seen.push(h);
    }
}

#[test]
fn chain_joins_values_with_zero() {
    let a = String::from("a");
    let b = String::from("b");
    let joined = murmur3_cassandra_x64_128(&[b'a', 0, b'b']).0;
    assert_eq!(token_of_pair(&a, &b), joined);
    let chain = TokenEncodeChain::from_value(&a).chain(&TokenEncodeChain::from_value(&b));
    assert_eq!(chain.len, 2);
    assert_eq!(chain.buffer, Some(vec![b'a', 0, b'b']));
    assert_eq!(chain.finish(), joined);
}

#[test]
fn empty_chain_is_random() {
    let chain = TokenEncodeChain::new();
    assert_eq!(chain.len, 0);
    let _ = chain.finish();
}
