//! Behaviour of the keyed and sequential fake connectors.

use edmunds::mock::{KeyedConnector, SeqConnector};
use edmunds::transport::TransportError;

#[test]
fn keyed_hit_returns_stream_with_scripted_payload() {
    let mut c = KeyedConnector::new();
    c.script("https", "api.example.test", b"{\"ok\":true}");
    c.script("http", "other.example.test", b"second");

    let mut s = c.connect("https", "api.example.test", 443).unwrap();
    // The first read yields exactly the scripted payload bytes.
    assert_eq!(s.read(1024).unwrap(), b"{\"ok\":true}".to_vec());
    assert_eq!(s.read(1024).unwrap().len(), 0);

    // The port is ignored: any port hits the same key.
    let mut s2 = c.connect("https", "api.example.test", 8443).unwrap();
    assert_eq!(s2.read(1024).unwrap(), b"{\"ok\":true}".to_vec());

    let mut s3 = c.connect("http", "other.example.test", 80).unwrap();
    assert_eq!(s3.read(1024).unwrap(), b"second".to_vec());
}

#[test]
fn keyed_miss_aborts_with_descriptive_error() {
    let mut c = KeyedConnector::new();
    c.script("https", "api.example.test", b"payload");

    // Wrong host.
    let err = c.connect("https", "unknown.example.test", 443).unwrap_err();
    assert!(matches!(err, TransportError::Unscripted(_)));
    assert_eq!("fake connector has no script for https://unknown.example.test", err.message());
    // Wrong scheme for a scripted host is a miss too.
    match c.connect("http", "api.example.test", 80) {
        Err(TransportError::Unscripted(msg)) => {
            assert_eq!(msg, "fake connector has no script for http://api.example.test");
        },
        _ => panic!("expected an unscripted-key error"),
    }
}

#[test]
fn sequential_connector_scripts_every_connect_alike() {
    let c = SeqConnector::new(vec![b"first".to_vec(), b"second".to_vec()]);

    // Whatever key is asked for, the stream serves the whole script.
    let mut s = c.connect("https", "anything.example.test", 443).unwrap();
    assert_eq!(s.read(100).unwrap(), b"first".to_vec());
    assert_eq!(s.read(100).unwrap(), b"second".to_vec());
    assert_eq!(s.read(100).unwrap().len(), 0);

    // A second connect gets a fresh stream with the same script.
    let mut s2 = c.connect("http", "elsewhere.example.test", 80).unwrap();
    assert_eq!(s2.read(100).unwrap(), b"first".to_vec());
}
