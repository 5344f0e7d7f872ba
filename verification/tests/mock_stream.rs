//! Behaviour of the fake transport stream and the shared handle.

use edmunds::mock::{MockStream, SharedMockStream};
use edmunds::transport::TransportError;

#[test]
fn read_serves_payload_in_chunks() {
    let mut s = MockStream::with_input(b"hello world");
    let first = s.read(5).unwrap();
    assert_eq!(first, b"hello".to_vec());
    let second = s.read(100).unwrap();
    assert_eq!(second, b" world".to_vec());
    let eof = s.read(100).unwrap();
    assert_eq!(eof.len(), 0);
}

#[test]
fn sequential_payloads_advance_transparently() {
    let responses = vec![b"one".to_vec(), b"two".to_vec(), b"three".to_vec()];
    let mut s = MockStream::with_responses(responses);
    // Exhausting payload 0 moves the stream onto payload 1, and so on.
    assert_eq!(s.read(3).unwrap(), b"one".to_vec());
    assert_eq!(s.read(3).unwrap(), b"two".to_vec());
    assert_eq!(s.read(100).unwrap(), b"three".to_vec());
    // Past the last payload: end of stream, not an error.
    assert_eq!(s.read(10).unwrap().len(), 0);
    assert_eq!(s.read(10).unwrap().len(), 0);
}

#[test]
fn partial_reads_cross_payload_boundary() {
    let responses = vec![b"abcd".to_vec(), b"efgh".to_vec()];
    let mut s = MockStream::with_responses(responses);
    assert_eq!(s.read(2).unwrap(), b"ab".to_vec());
    assert_eq!(s.read(2).unwrap(), b"cd".to_vec());
    // The boundary was crossed by exhausting the first payload.
    assert_eq!(s.read(2).unwrap(), b"ef".to_vec());
    assert_eq!(s.read(2).unwrap(), b"gh".to_vec());
    assert_eq!(s.read(2).unwrap().len(), 0);
}

#[test]
fn write_captures_everything() {
    let mut s = MockStream::new();
    assert_eq!(s.write(b"GET / HTTP/1.1").unwrap(), 14);
    assert_eq!(s.write(b"\r\n\r\n").unwrap(), 4);
    assert_eq!(s.written().as_slice(), b"GET / HTTP/1.1\r\n\r\n");
}

#[test]
fn read_fault_fails_every_read() {
    let mut s = MockStream::with_input(b"data");
    s.set_error_on_read(true);
    assert!(matches!(s.read(4), Err(TransportError::Fault)));
    // Still failing, whatever the buffer, until the switch is cleared.
    assert!(matches!(s.read(0), Err(TransportError::Fault)));
    s.set_error_on_read(false);
    assert_eq!(s.read(4).unwrap(), b"data".to_vec());
}

#[test]
fn write_fault_fails_every_write() {
    let mut s = MockStream::new();
    s.set_error_on_write(true);
    assert!(matches!(s.write(b"x"), Err(TransportError::Fault)));
    assert!(matches!(s.write(b""), Err(TransportError::Fault)));
    // Nothing was captured by the failing writes.
    assert_eq!(s.written().len(), 0);
    // Reads are unaffected by the write fault.
    assert_eq!(s.read(10).unwrap().len(), 0);
}

#[test]
fn equality_ignores_queued_payloads() {
    let a = MockStream::with_responses(vec![b"now".to_vec(), b"later-a".to_vec()]);
    let b = MockStream::with_responses(vec![b"now".to_vec(), b"later-b".to_vec()]);
    // Same unread content and same (empty) write capture: equal, even
    // though the queued future payloads differ.
    assert!(a == b);
}

#[test]
fn equality_sees_unread_content_and_writes() {
    let mut a = MockStream::with_input(b"xyz");
    let b = MockStream::with_input(b"xyz");
    assert!(a == b);
    let _ = a.read(1).unwrap();
    // Unread content now differs.
    assert!(a != b);

    let mut c = MockStream::with_input(b"");
    let d = MockStream::with_input(b"");
    c.write(b"probe").unwrap();
    assert!(c != d);
}

#[test]
fn close_is_idempotent_and_timeouts_are_recorded() {
    let mut s = MockStream::with_input(b"abc");
    assert!(!s.closed());
    s.close();
    assert!(s.closed());
    s.close();
    assert!(s.closed());

    assert_eq!(s.read_timeout(), None);
    s.set_read_timeout(Some(250));
    s.set_write_timeout(Some(500));
    assert_eq!(s.read_timeout(), Some(250));
    assert_eq!(s.write_timeout(), Some(500));
    s.set_read_timeout(None);
    assert_eq!(s.read_timeout(), None);
    // Recorded, never enforced: reading still works.
    assert_eq!(s.read(3).unwrap(), b"abc".to_vec());
}

#[test]
fn peer_address_is_fixed_loopback() {
    let s = MockStream::new();
    let addr = s.peer_address();
    assert_eq!(addr.octets, (127, 0, 0, 1));
    assert_eq!(addr.port, 1337);
}

#[test]
fn shared_handle_clones_observe_one_stream() {
    let shared = SharedMockStream::with_stream(MockStream::with_input(b"payload"));
    let observer = shared.clone();

    // One handle writes; the other sees the capture.
    assert_eq!(shared.write(b"sent").unwrap(), 4);
    assert_eq!(observer.captured_bytes(), b"sent".to_vec());

    // One handle reads; the other finds the payload consumed.
    assert_eq!(shared.read(7).unwrap(), b"payload".to_vec());
    assert_eq!(observer.read(7).unwrap().len(), 0);

    // Closing through one handle is visible through the other.
    assert!(!observer.is_closed());
    shared.close();
    assert!(observer.is_closed());
}
