//! The byte-stream capability that the client depends on.
//!
//! The client never opens a socket itself: it is handed a `Connector`, asks
//! it for a stream, and talks to that stream through the `Transport`
//! interface. Tests hand it one of the fake connectors in `mock`; a real
//! program hands it a connector built on an actual socket.

use vstd::prelude::*;
use vstd::string::StringExecFns;

verus! {

/// A transport-level failure, kept apart from decode failures so a caller
/// can tell "server unreachable" from "server answered garbage".
#[derive(Debug, Clone, PartialEq)]
pub enum TransportError {
    /// An injected or real I/O fault on read or write.
    Fault,
    /// The response was not a well-formed HTTP message (no header/body split).
    Protocol,
    /// The connection could not be established; the payload describes why.
    Refused(String),
    /// A fake connector had no script for the requested key. This is a
    /// test-configuration mistake, never seen by production callers.
    Unscripted(String),
}

impl TransportError {
    /// A short human-readable description, for test diagnostics.
    pub fn message(&self) -> (r: String)
        ensures
            (self matches TransportError::Refused(m) ==> r@ == m@),
            (self matches TransportError::Unscripted(m) ==> r@ == m@),
    {
        match self {
            TransportError::Fault => String::from_str("forced I/O fault"),
            TransportError::Protocol => String::from_str("malformed response"),
            TransportError::Refused(m) => m.clone(),
            TransportError::Unscripted(m) => m.clone(),
        }
    }
}

/// The fixed peer address a fake stream reports: the IPv4 loopback.
#[derive(Debug, Clone, Copy, PartialEq)]
pub struct PeerAddr {
    pub octets: (u8, u8, u8, u8),
    pub port: u16,
}

/// A duplex byte stream: the one capability the client needs from the
/// network. Implemented by the fake stream in `mock`; a real program may
/// implement it over a socket. No behaviour is promised at this level,
/// since an implementation may sit on real I/O.
pub trait Transport {
    /// Read at most `buf_len` bytes; an empty result means end of stream.
    fn read(&mut self, buf_len: usize) -> Result<Vec<u8>, TransportError>;

    /// Write the given bytes, reporting how many were accepted.
    fn write(&mut self, msg: &[u8]) -> Result<usize, TransportError>;

    /// Shut the stream down; further use is implementation-defined.
    fn close(&mut self);

    /// Record a read timeout in milliseconds; `None` clears it.
    fn set_read_timeout(&mut self, ms: Option<u64>);

    /// Record a write timeout in milliseconds; `None` clears it.
    fn set_write_timeout(&mut self, ms: Option<u64>);

    /// The address of the peer, as far as the implementation knows it.
    fn peer_address(&mut self) -> PeerAddr;
}

/// Connection establishment: from a (scheme, host, port) triple to a
/// stream. Implemented by the fake connectors in `mock`; a real program
/// implements it over real connections.
pub trait Connector {
    type S: Transport;

    fn connect(&self, scheme: &str, host: &str, port: u16) -> Result<Self::S, TransportError>;
}

} // verus!
