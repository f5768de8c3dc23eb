use distributed_channel::node::NodeSetup;

#[test]
fn default_protocol() {
    let setup = NodeSetup::default();
    assert_eq!(setup.protocol, "distributed-channel-1");
}

#[test]
fn alpn_is_protocol_bytes() {
    let setup = NodeSetup::default();
    assert_eq!(setup.alpn(), b"distributed-channel-1".to_vec());
    let setup = NodeSetup { protocol: "café".to_string() };
    assert_eq!(setup.alpn(), vec![b'c', b'a', b'f', 0xc3, 0xa9]);
}

#[test]
fn service_name_of_default_is_unchanged() {
    assert_eq!(NodeSetup::default().service_name(), "distributed-channel-1");
}

#[test]
fn service_name_replaces_other_characters() {
    let setup = NodeSetup { protocol: "my proto/1.0_x".to_string() };
    assert_eq!(setup.service_name(), "my-proto-1-0-x");
}

#[test]
fn service_name_keeps_unicode_alphanumerics() {
    let setup = NodeSetup { protocol: "café №7 ①".to_string() };
    assert_eq!(setup.service_name(), "café--7-①");
}

#[test]
fn service_name_is_idempotent() {
    let setup = NodeSetup { protocol: "a.b:c d".to_string() };
    let once = setup.service_name();
    let twice = NodeSetup { protocol: once.clone() }.service_name();
    assert_eq!(once, "a-b-c-d");
    assert_eq!(once, twice);
}

#[test]
fn service_name_of_empty() {
    let setup = NodeSetup { protocol: String::new() };
    assert_eq!(setup.service_name(), "");
    assert!(setup.alpn().is_empty());
}
