//! A deterministic in-memory stand-in for a network connection.
//!
//! `MockStream` plays one scripted conversation: a queue of response
//! payloads served to `read`, a capture buffer fed by `write`, and
//! switches that force the next read or write to fail. `KeyedConnector`
//! and `SeqConnector` hand out fresh streams the way a real connector
//! hands out sockets.

use vstd::prelude::*;
use vstd::string::StringExecFns;
use vstd::std_specs::cmp::PartialEqSpec;
use crate::transport::{Connector, PeerAddr, Transport, TransportError};

verus! {

/// An in-memory duplex stream with scripted reads and captured writes.
#[derive(Debug)]
pub struct MockStream {
    read: Vec<u8>,
    pos: usize,
    next_reads: Vec<Vec<u8>>,
    write: Vec<u8>,
    is_closed: bool,
    error_on_read: bool,
    error_on_write: bool,
    read_timeout: Option<u64>,
    write_timeout: Option<u64>,
}

impl MockStream {
    /// The bytes of the current payload not yet consumed by `read`.
    pub closed spec fn unread(&self) -> Seq<u8> {
        if self.pos <= self.read.len() {
            self.read@.skip(self.pos as int)
        } else {
            Seq::empty()
        }
    }

    /// The payloads still queued behind the current one.
    pub closed spec fn queued(&self) -> Seq<Seq<u8>> {
        self.next_reads@.map_values(|v: Vec<u8>| v@)
    }

    /// Everything written to the stream so far.
    pub closed spec fn captured(&self) -> Seq<u8> {
        self.write@
    }

    pub closed spec fn closed_flag(&self) -> bool {
        self.is_closed
    }

    pub closed spec fn read_fault(&self) -> bool {
        self.error_on_read
    }

    pub closed spec fn write_fault(&self) -> bool {
        self.error_on_write
    }

    pub closed spec fn read_timeout_ms(&self) -> Option<u64> {
        self.read_timeout
    }

    pub closed spec fn write_timeout_ms(&self) -> Option<u64> {
        self.write_timeout
    }

    /// All parts of the state that `read` must not touch.
    pub open spec fn non_read_state_eq(&self, other: &MockStream) -> bool {
        &&& self.captured() == other.captured()
        &&& self.closed_flag() == other.closed_flag()
        &&& self.read_fault() == other.read_fault()
        &&& self.write_fault() == other.write_fault()
        &&& self.read_timeout_ms() == other.read_timeout_ms()
        &&& self.write_timeout_ms() == other.write_timeout_ms()
    }

    /// All parts of the state that `write` must not touch.
    pub open spec fn non_write_state_eq(&self, other: &MockStream) -> bool {
        &&& self.unread() == other.unread()
        &&& self.queued() == other.queued()
        &&& self.closed_flag() == other.closed_flag()
        &&& self.read_fault() == other.read_fault()
        &&& self.write_fault() == other.write_fault()
        &&& self.read_timeout_ms() == other.read_timeout_ms()
        &&& self.write_timeout_ms() == other.write_timeout_ms()
    }

    /// A fresh stream with a single empty payload.
    pub fn new() -> (s: MockStream)
        ensures
            s.unread() == Seq::<u8>::empty(),
            s.queued() == Seq::<Seq<u8>>::empty(),
            s.captured() == Seq::<u8>::empty(),
            !s.closed_flag(),
            !s.read_fault(),
            !s.write_fault(),
            s.read_timeout_ms() is None,
            s.write_timeout_ms() is None,
    {
        MockStream::with_input(&[])
    }

    /// A fresh stream whose single payload is `input`.
    pub fn with_input(input: &[u8]) -> (s: MockStream)
        ensures
            s.unread() == input@,
            s.queued() == Seq::<Seq<u8>>::empty(),
            s.captured() == Seq::<u8>::empty(),
            !s.closed_flag(),
            !s.read_fault(),
            !s.write_fault(),
            s.read_timeout_ms() is None,
            s.write_timeout_ms() is None,
    {
        let mut first: Vec<u8> = Vec::new();
        first.extend_from_slice(input);
        let s = (MockStream {
            read: first,
            pos: 0,
            next_reads: Vec::new(),
            write: Vec::new(),
            is_closed: false,
            error_on_read: false,
            error_on_write: false,
            read_timeout: None,
            write_timeout: None,
        });
        proof {
            assert(s.unread() =~= input@);
            assert(s.queued() =~= Seq::<Seq<u8>>::empty());
        }
        s
    }

    /// A fresh stream scripted with a whole sequence of payloads; the
    /// first is served at once, the rest follow as each is exhausted.
    pub fn with_responses(responses: Vec<Vec<u8>>) -> (s: MockStream)
        requires
            responses@.len() >= 1,
        ensures
            s.unread() == responses@[0]@,
            s.queued() == responses@.skip(1).map_values(|v: Vec<u8>| v@),
            s.captured() == Seq::<u8>::empty(),
            !s.closed_flag(),
            !s.read_fault(),
            !s.write_fault(),
            s.read_timeout_ms() is None,
            s.write_timeout_ms() is None,
    {
        let mut rest = responses;
        let first = rest.remove(0);
        let s = (MockStream {
            read: first,
            pos: 0,
            next_reads: rest,
            write: Vec::new(),
            is_closed: false,
            error_on_read: false,
            error_on_write: false,
            read_timeout: None,
            write_timeout: None,
        });
        proof {
            assert(s.unread() =~= responses@[0]@);
            assert(s.queued() =~= responses@.skip(1).map_values(|v: Vec<u8>| v@));
        }
        s
    }

    /// Copy up to `buf_len` bytes out of the current payload. When that
    /// payload is thereby exhausted and another is queued, the stream
    /// advances to it, so the next read continues seamlessly. Reading at
    /// the very end of the script returns no bytes rather than failing.
    /// A set read-fault switch fails every call, whatever the state.
    pub fn read(&mut self, buf_len: usize) -> (r: Result<Vec<u8>, TransportError>)
        ensures
            r is Err <==> old(self).read_fault(),
            old(self).read_fault() ==> *final(self) == *old(self) && r == Err::<Vec<u8>, TransportError>(TransportError::Fault),
            !old(self).read_fault() ==> {
                &&& (r matches Ok(data) && data@ == spec_read_data(*old(self), buf_len as nat))
                &&& final(self).unread() == spec_unread_after(*old(self), buf_len as nat)
                &&& final(self).queued() == spec_queued_after(*old(self), buf_len as nat)
            },
            final(self).non_read_state_eq(old(self)),
    {
        if self.error_on_read {
            return Err(TransportError::Fault);
        }
        let start = if self.pos <= self.read.len() {
            self.pos
        } else {
            self.read.len()
        };
        let avail = self.read.len() - start;
        let k = if buf_len < avail {
            buf_len
        } else {
            avail
        };
        let mut out: Vec<u8> = Vec::new();
        let mut i: usize = 0;
        while i < k
            invariant
                i <= k,
                start + k <= self.read.len(),
                out@ == self.read@.subrange(start as int, start + i as int),
            decreases k - i,
        {
            out.push(self.read[start + i]);
            proof {
                assert(out@ =~= self.read@.subrange(start as int, start + (i + 1) as int));
            }
            i = i + 1;
        }
        proof {
            assert(out@ =~= spec_read_data(*self, buf_len as nat));
        }
        let ghost pre = *self;
        self.pos = start + k;
        if self.pos == self.read.len() && self.next_reads.len() > 0 {
            self.pos = 0;
            self.read = self.next_reads.remove(0);
        }
        proof {
            assert(self.unread() =~= spec_unread_after(pre, buf_len as nat));
            assert(self.queued() =~= spec_queued_after(pre, buf_len as nat));
        }
        Ok(out)
    }

    /// Append `msg` to the capture buffer and report its full length
    /// written, unconditionally — unless the write-fault switch is set,
    /// in which case every call fails and nothing is recorded.
    pub fn write(&mut self, msg: &[u8]) -> (r: Result<usize, TransportError>)
        ensures
            r is Err <==> old(self).write_fault(),
            old(self).write_fault() ==> *final(self) == *old(self) && r == Err::<usize, TransportError>(TransportError::Fault),
            !old(self).write_fault() ==> {
                &&& (r matches Ok(n) && n == msg@.len())
                &&& final(self).captured() == old(self).captured() + msg@
            },
            final(self).non_write_state_eq(old(self)),
    {
        if self.error_on_write {
            return Err(TransportError::Fault);
        }
        self.write.extend_from_slice(msg);
        Ok(msg.len())
    }

    /// Set the closed flag. Idempotent, never fails, changes nothing else.
    pub fn close(&mut self)
        ensures
            final(self).closed_flag(),
            final(self).unread() == old(self).unread(),
            final(self).queued() == old(self).queued(),
            final(self).captured() == old(self).captured(),
            final(self).read_fault() == old(self).read_fault(),
            final(self).write_fault() == old(self).write_fault(),
            final(self).read_timeout_ms() == old(self).read_timeout_ms(),
            final(self).write_timeout_ms() == old(self).write_timeout_ms(),
    {
        self.is_closed = true;
    }

    /// Record the requested read timeout; the fake never enforces it.
    pub fn set_read_timeout(&mut self, ms: Option<u64>)
        ensures
            final(self).read_timeout_ms() == ms,
            final(self).unread() == old(self).unread(),
            final(self).queued() == old(self).queued(),
            final(self).captured() == old(self).captured(),
            final(self).closed_flag() == old(self).closed_flag(),
            final(self).read_fault() == old(self).read_fault(),
            final(self).write_fault() == old(self).write_fault(),
            final(self).write_timeout_ms() == old(self).write_timeout_ms(),
    {
        self.read_timeout = ms;
    }

    /// Record the requested write timeout; the fake never enforces it.
    pub fn set_write_timeout(&mut self, ms: Option<u64>)
        ensures
            final(self).write_timeout_ms() == ms,
            final(self).unread() == old(self).unread(),
            final(self).queued() == old(self).queued(),
            final(self).captured() == old(self).captured(),
            final(self).closed_flag() == old(self).closed_flag(),
            final(self).read_fault() == old(self).read_fault(),
            final(self).write_fault() == old(self).write_fault(),
            final(self).read_timeout_ms() == old(self).read_timeout_ms(),
    {
        self.write_timeout = ms;
    }

    /// Force every subsequent read to fail (or stop doing so).
    pub fn set_error_on_read(&mut self, b: bool)
        ensures
            final(self).read_fault() == b,
            final(self).unread() == old(self).unread(),
            final(self).queued() == old(self).queued(),
            final(self).captured() == old(self).captured(),
            final(self).closed_flag() == old(self).closed_flag(),
            final(self).write_fault() == old(self).write_fault(),
            final(self).read_timeout_ms() == old(self).read_timeout_ms(),
            final(self).write_timeout_ms() == old(self).write_timeout_ms(),
    {
        self.error_on_read = b;
    }

    /// Force every subsequent write to fail (or stop doing so).
    pub fn set_error_on_write(&mut self, b: bool)
        ensures
            final(self).write_fault() == b,
            final(self).unread() == old(self).unread(),
            final(self).queued() == old(self).queued(),
            final(self).captured() == old(self).captured(),
            final(self).closed_flag() == old(self).closed_flag(),
            final(self).read_fault() == old(self).read_fault(),
            final(self).read_timeout_ms() == old(self).read_timeout_ms(),
            final(self).write_timeout_ms() == old(self).write_timeout_ms(),
    {
        self.error_on_write = b;
    }

    /// A fixed loopback address, only there to satisfy the transport
    /// contract.
    pub fn peer_address(&self) -> (r: PeerAddr)
        ensures
            r.octets == (127u8, 0u8, 0u8, 1u8),
            r.port == 1337u16,
    {
        PeerAddr { octets: (127, 0, 0, 1), port: 1337 }
    }

    /// Everything written so far, for test assertions.
    pub fn written(&self) -> (r: &Vec<u8>)
        ensures
            r@ == self.captured(),
    {
        &self.write
    }

    /// Whether `close` has been called.
    pub fn closed(&self) -> (r: bool)
        ensures
            r == self.closed_flag(),
    {
        self.is_closed
    }

    /// The last recorded read timeout.
    pub fn read_timeout(&self) -> (r: Option<u64>)
        ensures
            r == self.read_timeout_ms(),
    {
        self.read_timeout
    }

    /// The last recorded write timeout.
    pub fn write_timeout(&self) -> (r: Option<u64>)
        ensures
            r == self.write_timeout_ms(),
    {
        self.write_timeout
    }
}

/// The bytes a non-faulted `read` with room for `n` bytes returns.
pub open spec fn spec_read_data(s: MockStream, n: nat) -> Seq<u8> {
    if n <= s.unread().len() {
        s.unread().take(n as int)
    } else {
        s.unread()
    }
}

/// The unread bytes after such a read: the remainder of the current
/// payload, or the whole next payload once the current one is exhausted.
pub open spec fn spec_unread_after(s: MockStream, n: nat) -> Seq<u8> {
    let rem = if n <= s.unread().len() {
        s.unread().skip(n as int)
    } else {
        Seq::<u8>::empty()
    };
    if rem.len() == 0 && s.queued().len() > 0 {
        s.queued()[0]
    } else {
        rem
    }
}

/// The queue after such a read: one payload shorter exactly when the
/// read exhausted the current payload and the queue was not empty.
pub open spec fn spec_queued_after(s: MockStream, n: nat) -> Seq<Seq<u8>> {
    if s.unread().len() <= n && s.queued().len() > 0 {
        s.queued().skip(1)
    } else {
        s.queued()
    }
}

/// Reading to the end of one payload hands over exactly its remaining
/// bytes and moves the stream onto the next queued payload.
pub proof fn lemma_read_advances_to_next_payload(s: MockStream, n: nat)
    requires
        s.unread().len() <= n,
        s.queued().len() > 0,
    ensures
        spec_read_data(s, n) == s.unread(),
        spec_unread_after(s, n) == s.queued()[0],
        spec_queued_after(s, n) == s.queued().skip(1),
{
    assert(spec_read_data(s, n) =~= s.unread());
}

/// Once every payload has been served, reads yield no bytes — end of
/// stream — rather than an error, and the state no longer changes.
pub proof fn lemma_read_at_end_of_script(s: MockStream, n: nat)
    requires
        s.unread().len() == 0,
        s.queued().len() == 0,
    ensures
        spec_read_data(s, n).len() == 0,
        spec_unread_after(s, n).len() == 0,
        spec_queued_after(s, n).len() == 0,
{
}

/// A read that does not exhaust the current payload consumes exactly
/// `n` bytes of it and leaves the queue alone.
pub proof fn lemma_read_within_payload(s: MockStream, n: nat)
    requires
        n < s.unread().len(),
    ensures
        spec_read_data(s, n) == s.unread().take(n as int),
        spec_unread_after(s, n) == s.unread().skip(n as int),
        spec_queued_after(s, n) == s.queued(),
{
}

impl PartialEq for MockStream {
    /// Streams compare by what is observable of one conversation: the
    /// current unread bytes and the captured writes. Queued future
    /// payloads and the bookkeeping flags are not compared.
    fn eq(&self, other: &MockStream) -> (r: bool) {
        let a_start = if self.pos <= self.read.len() {
            self.pos
        } else {
            self.read.len()
        };
        let b_start = if other.pos <= other.read.len() {
            other.pos
        } else {
            other.read.len()
        };
        let unread_eq = vec_suffix_eq(&self.read, a_start, &other.read, b_start);
        proof {
            assert(self.read@.skip(a_start as int) =~= self.unread());
            assert(other.read@.skip(b_start as int) =~= other.unread());
        }
        let write_eq = self.write == other.write;
        proof {
            if self.write.eq_spec(&other.write) {
                assert(self.write@ =~= other.write@);
            }
        }
        unread_eq && write_eq
    }
}

impl vstd::std_specs::cmp::PartialEqSpecImpl for MockStream {
    open spec fn obeys_eq_spec() -> bool {
        true
    }

    open spec fn eq_spec(&self, other: &MockStream) -> bool {
        self.unread() == other.unread() && self.captured() == other.captured()
    }
}

/// Two fake streams are equal exactly when their unread content and their
/// write-capture buffers agree byte for byte — whatever payloads may still
/// be queued behind them.
pub proof fn lemma_stream_eq_ignores_queue(a: MockStream, b: MockStream)
    ensures
        a.eq_spec(&b) <==> (a.unread() == b.unread() && a.captured() == b.captured()),
{
}

impl Transport for MockStream {
    fn read(&mut self, buf_len: usize) -> Result<Vec<u8>, TransportError> {
        MockStream::read(self, buf_len)
    }

    fn write(&mut self, msg: &[u8]) -> Result<usize, TransportError> {
        MockStream::write(self, msg)
    }

    fn close(&mut self) {
        MockStream::close(self)
    }

    fn set_read_timeout(&mut self, ms: Option<u64>) {
        MockStream::set_read_timeout(self, ms)
    }

    fn set_write_timeout(&mut self, ms: Option<u64>) {
        MockStream::set_write_timeout(self, ms)
    }

    fn peer_address(&mut self) -> PeerAddr {
        MockStream::peer_address(self)
    }
}

/// The lock predicate of a shared stream: any stream state is welcome.
pub struct AnyStream;

impl vstd::rwlock::RwLockPredicate<MockStream> for AnyStream {
    open spec fn inv(self, v: MockStream) -> bool {
        true
    }
}

/// A reference-counted handle to one shared `MockStream`, so a test can
/// keep watching a stream after handing another handle to the client.
/// Access is serialized through a lock: one caller mutates at a time.
#[derive(Clone)]
pub struct SharedMockStream {
    inner: std::sync::Arc<vstd::rwlock::RwLock<MockStream, AnyStream>>,
}

impl SharedMockStream {
    /// Wrap a stream in shared ownership.
    pub fn with_stream(stream: MockStream) -> (r: SharedMockStream) {
        SharedMockStream {
            inner: std::sync::Arc::new(vstd::rwlock::RwLock::new(stream, Ghost(AnyStream))),
        }
    }

    /// Read through the shared stream. Another handle may have moved the
    /// state, so only what holds of every state is promised: never more
    /// bytes than asked for, and the only failure the fake knows is its
    /// injected fault.
    pub fn read(&self, buf_len: usize) -> (r: Result<Vec<u8>, TransportError>)
        ensures
            r matches Ok(data) ==> data@.len() <= buf_len,
            r matches Err(e) ==> e == TransportError::Fault,
    {
        let (mut s, handle) = self.inner.acquire_write();
        let r = s.read(buf_len);
        handle.release_write(s);
        r
    }

    /// Write through the shared stream; a success always reports the
    /// whole message written, and the only failure the fake knows is
    /// its injected fault.
    pub fn write(&self, msg: &[u8]) -> (r: Result<usize, TransportError>)
        ensures
            r matches Ok(n) ==> n == msg@.len(),
            r matches Err(e) ==> e == TransportError::Fault,
    {
        let (mut s, handle) = self.inner.acquire_write();
        let r = s.write(msg);
        handle.release_write(s);
        r
    }

    /// Close the shared stream.
    pub fn close(&self) {
        let (mut s, handle) = self.inner.acquire_write();
        s.close();
        handle.release_write(s);
    }

    /// Record a read timeout on the shared stream.
    pub fn set_read_timeout(&self, ms: Option<u64>) {
        let (mut s, handle) = self.inner.acquire_write();
        s.set_read_timeout(ms);
        handle.release_write(s);
    }

    /// Record a write timeout on the shared stream.
    pub fn set_write_timeout(&self, ms: Option<u64>) {
        let (mut s, handle) = self.inner.acquire_write();
        s.set_write_timeout(ms);
        handle.release_write(s);
    }

    /// The fixed loopback address of the underlying fake stream.
    pub fn peer_address(&self) -> (r: PeerAddr)
        ensures
            r.octets == (127u8, 0u8, 0u8, 1u8),
            r.port == 1337u16,
    {
        let (s, handle) = self.inner.acquire_write();
        let r = s.peer_address();
        handle.release_write(s);
        r
    }

    /// A copy of everything written to the shared stream so far.
    pub fn captured_bytes(&self) -> (r: Vec<u8>) {
        let (s, handle) = self.inner.acquire_write();
        let r = clone_bytes(s.written());
        handle.release_write(s);
        r
    }

    /// Whether the shared stream has been closed.
    pub fn is_closed(&self) -> (r: bool) {
        let (s, handle) = self.inner.acquire_write();
        let r = s.closed();
        handle.release_write(s);
        r
    }
}

impl Transport for SharedMockStream {
    fn read(&mut self, buf_len: usize) -> Result<Vec<u8>, TransportError> {
        SharedMockStream::read(&*self, buf_len)
    }

    fn write(&mut self, msg: &[u8]) -> Result<usize, TransportError> {
        SharedMockStream::write(&*self, msg)
    }

    fn close(&mut self) {
        SharedMockStream::close(&*self)
    }

    fn set_read_timeout(&mut self, ms: Option<u64>) {
        SharedMockStream::set_read_timeout(&*self, ms)
    }

    fn set_write_timeout(&mut self, ms: Option<u64>) {
        SharedMockStream::set_write_timeout(&*self, ms)
    }

    fn peer_address(&mut self) -> PeerAddr {
        SharedMockStream::peer_address(&*self)
    }
}

/// One scripted key of a `KeyedConnector`: a scheme and host (the port
/// is deliberately ignored) and the canned payload served for them.
pub struct ScriptEntry {
    pub scheme: String,
    pub host: String,
    pub payload: Vec<u8>,
}

/// The payload scripted for the first entry matching (scheme, host).
pub open spec fn spec_lookup(entries: Seq<ScriptEntry>, scheme: Seq<char>, host: Seq<char>) -> Option<Seq<u8>>
    decreases entries.len(),
{
    if entries.len() == 0 {
        None
    } else if entries[0].scheme@ == scheme && entries[0].host@ == host {
        Some(entries[0].payload@)
    } else {
        spec_lookup(entries.skip(1), scheme, host)
    }
}

/// A fake connector in keyed mode: each scripted (scheme, host) pair maps
/// to one canned payload; connecting to anything unscripted is a fatal
/// test-configuration error, reported loudly rather than masked.
pub struct KeyedConnector {
    entries: Vec<ScriptEntry>,
}

impl KeyedConnector {
    /// The scripted entries, in lookup order.
    pub closed spec fn entries_view(&self) -> Seq<ScriptEntry> {
        self.entries@
    }

    /// An empty script.
    pub fn new() -> (r: KeyedConnector)
        ensures
            r.entries_view() == Seq::<ScriptEntry>::empty(),
    {
        KeyedConnector { entries: Vec::new() }
    }

    /// Script `payload` for the given scheme and host.
    pub fn script(&mut self, scheme: &str, host: &str, payload: &[u8])
        ensures
            final(self).entries_view().len() == old(self).entries_view().len() + 1,
            final(self).entries_view().last().scheme@ == scheme@,
            final(self).entries_view().last().host@ == host@,
            final(self).entries_view().last().payload@ == payload@,
            final(self).entries_view().take(old(self).entries_view().len() as int) == old(
                self,
            ).entries_view(),
    {
        let mut bytes: Vec<u8> = Vec::new();
        bytes.extend_from_slice(payload);
        self.entries.push(
            ScriptEntry { scheme: scheme.to_owned(), host: host.to_owned(), payload: bytes },
        );
        proof {
            assert(self.entries@.take(old(self).entries@.len() as int) =~= old(self).entries@);
        }
    }

    /// Connect to a scripted key: a hit returns a fresh stream preloaded
    /// with exactly the scripted payload; a miss returns a descriptive
    /// configuration error and no stream.
    pub fn connect(&self, scheme: &str, host: &str, _port: u16) -> (r: Result<
        MockStream,
        TransportError,
    >)
        ensures
            match spec_lookup(self.entries_view(), scheme@, host@) {
                Some(payload) => {
                    &&& r matches Ok(s)
                    &&& s.unread() == payload
                    &&& s.queued().len() == 0
                    &&& s.captured().len() == 0
                    &&& !s.read_fault()
                    &&& !s.write_fault()
                    &&& !s.closed_flag()
                },
                None => (r matches Err(e) && (e matches TransportError::Unscripted(m) && m@
                    == "fake connector has no script for "@ + scheme@ + "://"@ + host@)),
            },
    {
        let scheme_owned = scheme.to_owned();
        let host_owned = host.to_owned();
        let n = self.entries.len();
        let mut i: usize = 0;
        proof {
            assert(self.entries@.skip(0) =~= self.entries@);
        }
        while i < n
            invariant
                i <= n,
                n == self.entries@.len(),
                scheme_owned@ == scheme@,
                host_owned@ == host@,
                spec_lookup(self.entries@, scheme@, host@) == spec_lookup(
                    self.entries@.skip(i as int),
                    scheme@,
                    host@,
                ),
            decreases n - i,
        {
            let entry = &self.entries[i];
            if entry.scheme == scheme_owned && entry.host == host_owned {
                return Ok(MockStream::with_input(entry.payload.as_slice()));
            }
            proof {
                assert(self.entries@.skip(i as int).skip(1) =~= self.entries@.skip(i + 1));
            }
            i = i + 1;
        }
        let mut msg = String::from_str("fake connector has no script for ");
        msg.append(scheme);
        msg.append("://");
        msg.append(host);
        Err(TransportError::Unscripted(msg))
    }
}

impl Connector for KeyedConnector {
    type S = MockStream;

    fn connect(&self, scheme: &str, host: &str, port: u16) -> Result<MockStream, TransportError> {
        KeyedConnector::connect(self, scheme, host, port)
    }
}

/// A fake connector in sequential mode: every connect, whatever the host,
/// returns a fresh stream scripted with the whole payload list in order.
pub struct SeqConnector {
    responses: Vec<Vec<u8>>,
}

impl SeqConnector {
    /// The scripted payloads, in serving order.
    pub closed spec fn responses_view(&self) -> Seq<Seq<u8>> {
        self.responses@.map_values(|v: Vec<u8>| v@)
    }

    /// Script the given payload list.
    pub fn new(responses: Vec<Vec<u8>>) -> (r: SeqConnector)
        ensures
            r.responses_view() == responses@.map_values(|v: Vec<u8>| v@),
    {
        SeqConnector { responses }
    }

    /// Connect, ignoring the requested key entirely: the fresh stream
    /// serves the scripted payloads one after another.
    pub fn connect(&self, _scheme: &str, _host: &str, _port: u16) -> (r: Result<
        MockStream,
        TransportError,
    >)
        ensures
            r matches Ok(s),
            r matches Ok(s) ==> {
                &&& (if self.responses_view().len() > 0 {
                    s.unread() == self.responses_view()[0] && s.queued()
                        == self.responses_view().skip(1)
                } else {
                    s.unread().len() == 0 && s.queued().len() == 0
                })
                &&& s.captured().len() == 0
                &&& !s.read_fault()
                &&& !s.write_fault()
                &&& !s.closed_flag()
            },
    {
        if self.responses.len() == 0 {
            return Ok(MockStream::new());
        }
        let mut copies: Vec<Vec<u8>> = Vec::new();
        let n = self.responses.len();
        let mut i: usize = 0;
        while i < n
            invariant
                i <= n,
                n == self.responses@.len(),
                copies@.len() == i,
                forall|k: int| 0 <= k < i ==> copies@[k]@ == #[trigger] self.responses@[k]@,
            decreases n - i,
        {
            copies.push(clone_bytes(&self.responses[i]));
            i = i + 1;
        }
        let s = MockStream::with_responses(copies);
        proof {
            assert(copies@.map_values(|v: Vec<u8>| v@) =~= self.responses@.map_values(
                |v: Vec<u8>| v@,
            ));
            assert(copies@.skip(1).map_values(|v: Vec<u8>| v@) =~= self.responses_view().skip(1));
        }
        Ok(s)
    }
}

impl Connector for SeqConnector {
    type S = MockStream;

    fn connect(&self, scheme: &str, host: &str, port: u16) -> Result<MockStream, TransportError> {
        SeqConnector::connect(self, scheme, host, port)
    }
}

/// Connecting to a scripted key and reading with room for the whole
/// payload hands back exactly the scripted bytes on the first read.
pub proof fn lemma_scripted_connect_first_read(s: MockStream, payload: Seq<u8>, n: nat)
    requires
        s.unread() == payload,
        !s.read_fault(),
        n >= payload.len(),
    ensures
        spec_read_data(s, n) == payload,
{
    assert(spec_read_data(s, n) =~= payload);
}

/// An exact byte-for-byte copy of a payload vector.
fn clone_bytes(v: &Vec<u8>) -> (r: Vec<u8>)
    ensures
        r@ == v@,
{
    let mut r: Vec<u8> = Vec::new();
    r.extend_from_slice(v.as_slice());
    r
}

/// Compare the suffixes `a[a_start..]` and `b[b_start..]` byte for byte.
fn vec_suffix_eq(a: &Vec<u8>, a_start: usize, b: &Vec<u8>, b_start: usize) -> (r: bool)
    requires
        a_start <= a@.len(),
        b_start <= b@.len(),
    ensures
        r == (a@.skip(a_start as int) == b@.skip(b_start as int)),
{
    let a_len = a.len() - a_start;
    let b_len = b.len() - b_start;
    if a_len != b_len {
        proof {
            assert(a@.skip(a_start as int).len() != b@.skip(b_start as int).len());
        }
        return false;
    }
    let mut i: usize = 0;
    while i < a_len
        invariant
            i <= a_len,
            a_start + a_len <= a@.len(),
            b_start + b_len <= b@.len(),
            a@.len() <= usize::MAX,
            b@.len() <= usize::MAX,
            a_len == b_len,
            forall|k: int| 0 <= k < i ==> a@[a_start + k] == #[trigger] b@[b_start + k],
        decreases a_len - i,
    {
        if a[a_start + i] != b[b_start + i] {
            proof {
                assert(a@.skip(a_start as int)[i as int] != b@.skip(b_start as int)[i as int]);
            }
            return false;
        }
        i = i + 1;
    }
    proof {
        assert forall|k: int| 0 <= k < a_len implies a@.skip(a_start as int)[k] == b@.skip(
            b_start as int,
        )[k] by {
            assert(a@[a_start + k] == b@[b_start + k]);
        }
        assert(a@.skip(a_start as int) =~= b@.skip(b_start as int));
    }
    true
}

} // verus!
