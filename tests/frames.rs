use scylladb::batch::Batch;
use scylladb::compression::Compression;
use scylladb::consistency::Consistency;
use scylladb::request::Options;

#[test]
fn simple_query_builder_test() {
    let Batch(_payload) = Batch::new()
        .logged()
        .statement("INSERT_TX_QUERY")
        .value(&String::from("HASH_VALUE"))
        .value(&String::from("PAYLOAD_VALUE"))
        .id(&[0; 16])
        .value(&String::from("JUNK_VALUE"))
        .consistency(Consistency::One)
        .build(Compression::Uncompressed)
        .unwrap();
}

#[test]
fn simple_options_builder_test() {
    let Options(_payload) = Options::new().build();
}
