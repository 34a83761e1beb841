//! Endpoint listener and stream types.
use vstd::prelude::*;
use crate::error::{Error, IoError, IoErrorKind};
use crate::proto::msg::ProxyHeader;
use crate::text::same_text;
use crate::urls::{Url, UrlView};

verus! {

/// A listener endpoint: what ngrok cloud assigned to it and what was asked for.
#[derive(Debug)]
pub struct EndpointListener {
    /// The public URL assigned by ngrok cloud.
    pub url: Url,
    /// The endpoint ID.
    pub id: String,
    /// The endpoint name.
    pub name: String,
    /// The metadata.
    pub metadata: String,
    /// The protocol.
    pub protocol: String,
}

/// A listener, as mathematical values.
pub struct ListenerView {
    /// The public URL assigned by ngrok cloud.
    pub url: UrlView,
    /// The endpoint ID.
    pub id: Seq<char>,
    /// The endpoint name.
    pub name: Seq<char>,
    /// The metadata.
    pub metadata: Seq<char>,
    /// The protocol.
    pub protocol: Seq<char>,
}

impl View for EndpointListener {
    type V = ListenerView;

    open spec fn view(&self) -> ListenerView {
        ListenerView {
            url: self.url@,
            id: self.id@,
            name: self.name@,
            metadata: self.metadata@,
            protocol: self.protocol@,
        }
    }
}

impl EndpointListener {
    /// The public URL assigned by ngrok cloud.
    pub fn url(&self) -> (r: &Url)
        ensures
            r@ == self@.url,
    {
        &self.url
    }

    /// The endpoint ID.
    pub fn id(&self) -> (r: &str)
        ensures
            r@ == self@.id,
    {
        self.id.as_str()
    }

    /// The endpoint name.
    pub fn name(&self) -> (r: &str)
        ensures
            r@ == self@.name,
    {
        self.name.as_str()
    }

    /// The endpoint metadata.
    pub fn metadata(&self) -> (r: &str)
        ensures
            r@ == self@.metadata,
    {
        self.metadata.as_str()
    }

    /// The protocol (e.g., "https", "tcp").
    pub fn protocol(&self) -> (r: &str)
        ensures
            r@ == self@.protocol,
    {
        self.protocol.as_str()
    }

    /// Take the next inbound connection, by the header that its channel delivered. The channel of
    /// a closed endpoint delivers none.
    pub fn accept(header: Option<ProxyHeader>) -> (r: Result<(NgrokStream, NgrokAddr), Error>)
        ensures
            match header {
                Some(h) => r matches Ok((stream, addr)) && stream.remote_addr@ == h.client_addr@
                    && stream.leftover is None && addr@ == h.client_addr@,
                None => is_endpoint_closed(r),
            },
    {
        match header {
            Some(h) => {
                let addr = NgrokAddr(h.client_addr.clone());
                Ok((NgrokStream { remote_addr: h.client_addr, leftover: None }, addr))
            },
            None => Err(Error::Io(IoError::new(IoErrorKind::BrokenPipe, "endpoint closed"))),
        }
    }

    /// Take the next inbound connection as an item of a stream, by the header that the channel
    /// delivered: the stream ends when the endpoint is closed.
    pub fn poll_next(header: Option<ProxyHeader>) -> (r: Option<
        Result<(NgrokStream, NgrokAddr), Error>,
    >)
        ensures
            match header {
                Some(h) => r matches Some(Ok((stream, addr))) && stream.remote_addr@
                    == h.client_addr@ && stream.leftover is None && addr@ == h.client_addr@,
                None => r is None,
            },
    {
        match header {
            Some(h) => Some(EndpointListener::accept(Some(h))),
            None => None,
        }
    }

    /// The address of the endpoint itself: its public URL.
    pub fn local_addr(&self) -> (r: NgrokAddr)
        ensures
            r@ == self@.url.text,
    {
        NgrokAddr(self.url.as_str().to_owned())
    }
}

/// Whether the outcome is the error of a closed endpoint.
pub open spec fn is_endpoint_closed<T>(r: Result<T, Error>) -> bool {
    r matches Err(Error::Io(e)) && e.kind == IoErrorKind::BrokenPipe && e.message@
        == "endpoint closed"@
}

/// Whether an accept error is fatal: the endpoint is closed, so that there is nothing to retry.
pub fn is_fatal_accept_error(e: &Error) -> (r: bool)
    ensures
        r == (e matches Error::Io(io) && io.kind == IoErrorKind::BrokenPipe),
{
    match e {
        Error::Io(io) => io.kind == IoErrorKind::BrokenPipe,
        _ => false,
    }
}

/// A byte buffer of the `bytes` crate.
#[verifier::external_type_specification]
#[verifier::external_body]
pub struct ExBytes(bytes::Bytes);

/// The bytes that a buffer holds.
pub uninterp spec fn bytes_of(b: bytes::Bytes) -> Seq<u8>;

/// `Bytes::len`: how many bytes the buffer holds.
#[verifier::external_body]
fn bytes_len(b: &bytes::Bytes) -> (r: usize)
    ensures
        r == bytes_of(*b).len(),
{
    b.len()
}

/// `Bytes::slice`, copied out: the first `n` bytes of the buffer.
#[verifier::external_body]
fn bytes_prefix(b: &bytes::Bytes, n: usize) -> (r: Vec<u8>)
    requires
        n <= bytes_of(*b).len(),
    ensures
        r@ == bytes_of(*b).take(n as int),
{
    b.slice(..n).to_vec()
}

/// `Buf::advance` on `Bytes`: the first `n` bytes are dropped.
#[verifier::external_body]
fn bytes_advance(b: &mut bytes::Bytes, n: usize)
    requires
        n <= bytes_of(*old(b)).len(),
    ensures
        bytes_of(*final(b)) == bytes_of(*old(b)).skip(n as int),
{
    bytes::Buf::advance(b, n)
}

/// A single inbound connection from ngrok.
#[derive(Debug)]
pub struct NgrokStream {
    /// The remote address as reported by the ngrok proxy header.
    pub remote_addr: String,
    /// Bytes that were received and have not been read yet.
    pub leftover: Option<bytes::Bytes>,
}

impl NgrokStream {
    /// Remote address as reported by the ngrok proxy header.
    pub fn remote_addr(&self) -> (r: &str)
        ensures
            r@ == self.remote_addr@,
    {
        self.remote_addr.as_str()
    }

    /// The bytes that were received and have not been read yet.
    pub open spec fn unread(&self) -> Seq<u8> {
        match self.leftover {
            Some(b) => bytes_of(b),
            None => Seq::empty(),
        }
    }

    /// Read what is left over into a buffer with room for `room` bytes. `None` means that nothing
    /// is left over, so that the connection itself must be read.
    pub fn poll_read(&mut self, room: usize) -> (r: Option<Vec<u8>>)
        ensures
            r is Some == old(self).leftover is Some,
            r matches Some(read) ==> read@ == read_part(old(self).unread(), room),
            final(self).unread() == rest_part(old(self).unread(), room),
            final(self).leftover is Some ==> final(self).unread().len() > 0,
            final(self).remote_addr == old(self).remote_addr,
    {
        match self.leftover.take() {
            None => {
                assert(rest_part(Seq::empty(), room) =~= Seq::<u8>::empty());
                None
            },
            Some(b) => {
                let mut b = b;
                let len: usize = bytes_len(&b);
                let n: usize = if len < room { len } else { room };
                let read: Vec<u8> = bytes_prefix(&b, n);
                bytes_advance(&mut b, n);
                if n < len {
                    self.leftover = Some(b);
                } else {
                    assert(bytes_of(b) =~= Seq::<u8>::empty());
                }
                Some(read)
            },
        }
    }
}

/// What a read with room for `room` bytes gives, of the bytes that are unread.
pub open spec fn read_part(unread: Seq<u8>, room: usize) -> Seq<u8> {
    unread.take(if unread.len() < room { unread.len() as int } else { room as int })
}

/// What a read with room for `room` bytes leaves unread.
pub open spec fn rest_part(unread: Seq<u8>, room: usize) -> Seq<u8> {
    unread.skip(if unread.len() < room { unread.len() as int } else { room as int })
}

/// What is unread after one read for each of `rooms`.
pub open spec fn unread_after(unread: Seq<u8>, rooms: Seq<usize>) -> Seq<u8>
    decreases rooms.len(),
{
    if rooms.len() == 0 {
        unread
    } else {
        rest_part(unread_after(unread, rooms.drop_last()), rooms.last())
    }
}

/// What one read for each of `rooms` gives, put together.
pub open spec fn read_by(unread: Seq<u8>, rooms: Seq<usize>) -> Seq<u8>
    decreases rooms.len(),
{
    if rooms.len() == 0 {
        Seq::empty()
    } else {
        read_by(unread, rooms.drop_last()) + read_part(
            unread_after(unread, rooms.drop_last()),
            rooms.last(),
        )
    }
}

/// However a connection is read, no byte is lost, none comes twice, and they come in order: what
/// all the reads gave, followed by what is still unread, is what was unread before.
pub proof fn reads_keep_every_byte(unread: Seq<u8>, rooms: Seq<usize>)
    ensures
        read_by(unread, rooms) + unread_after(unread, rooms) == unread,
    decreases rooms.len(),
{
    if rooms.len() == 0 {
        assert(Seq::<u8>::empty() + unread =~= unread);
    } else {
        let front = rooms.drop_last();
        reads_keep_every_byte(unread, front);
        let left = unread_after(unread, front);
        assert(read_part(left, rooms.last()) + rest_part(left, rooms.last()) =~= left);
        assert(read_by(unread, rooms) + unread_after(unread, rooms) =~= read_by(unread, front) + (
        read_part(left, rooms.last()) + rest_part(left, rooms.last())));
    }
}

/// The address of a connection or of an endpoint.
///
/// Wraps the public ngrok URL string (for `local_addr`) or the client IP
/// reported in the ngrok proxy header (for per-connection addresses).
#[derive(Debug, Clone, PartialEq, Eq, Hash)]
pub struct NgrokAddr(pub String);

impl View for NgrokAddr {
    type V = Seq<char>;

    open spec fn view(&self) -> Seq<char> {
        self.0@
    }
}

impl NgrokAddr {
    /// Create a new `NgrokAddr` from a string.
    pub fn new(addr: &str) -> (r: NgrokAddr)
        ensures
            r@ == addr@,
    {
        NgrokAddr(addr.to_owned())
    }

    /// The address string.
    pub fn as_str(&self) -> (r: &str)
        ensures
            r@ == self@,
    {
        self.0.as_str()
    }

    /// The address as a string of its own.
    pub fn to_string(&self) -> (r: String)
        ensures
            r@ == self@,
    {
        self.0.clone()
    }
}

impl std::str::FromStr for NgrokAddr {
    type Err = std::convert::Infallible;

    fn from_str(s: &str) -> (r: Result<NgrokAddr, std::convert::Infallible>)
        ensures
            r is Ok,
            r->Ok_0@ == s@,
    {
        Ok(NgrokAddr(s.to_owned()))
    }
}

impl From<String> for NgrokAddr {
    fn from(s: String) -> (r: NgrokAddr) {
        NgrokAddr(s)
    }
}

impl vstd::std_specs::convert::FromSpecImpl<String> for NgrokAddr {
    open spec fn obeys_from_spec() -> bool {
        true
    }

    open spec fn from_spec(s: String) -> NgrokAddr {
        NgrokAddr(s)
    }
}

impl From<&str> for NgrokAddr {
    fn from(s: &str) -> (r: NgrokAddr)
        ensures
            r@ == s@,
    {
        NgrokAddr(s.to_owned())
    }
}

impl vstd::std_specs::convert::FromSpecImpl<&str> for NgrokAddr {
    open spec fn obeys_from_spec() -> bool {
        false
    }

    open spec fn from_spec(s: &str) -> NgrokAddr {
        arbitrary()
    }
}

impl AsRef<str> for NgrokAddr {
    fn as_ref(&self) -> (r: &str)
        ensures
            r@ == self@,
    {
        self.0.as_str()
    }
}

impl PartialEq<str> for NgrokAddr {
    fn eq(&self, other: &str) -> (r: bool) {
        same_text(self.0.as_str(), other)
    }
}

impl vstd::std_specs::cmp::PartialEqSpecImpl<str> for NgrokAddr {
    open spec fn obeys_eq_spec() -> bool {
        true
    }

    open spec fn eq_spec(&self, other: &str) -> bool {
        self@ == other@
    }
}

impl<'a> PartialEq<&'a str> for NgrokAddr {
    fn eq(&self, other: &&'a str) -> (r: bool) {
        same_text(self.0.as_str(), *other)
    }
}

impl<'a> vstd::std_specs::cmp::PartialEqSpecImpl<&'a str> for NgrokAddr {
    open spec fn obeys_eq_spec() -> bool {
        true
    }

    open spec fn eq_spec(&self, other: &&'a str) -> bool {
        self@ == other@
    }
}

impl PartialEq<String> for NgrokAddr {
    fn eq(&self, other: &String) -> (r: bool) {
        self.0 == *other
    }
}

impl vstd::std_specs::cmp::PartialEqSpecImpl<String> for NgrokAddr {
    open spec fn obeys_eq_spec() -> bool {
        true
    }

    open spec fn eq_spec(&self, other: &String) -> bool {
        self@ == other@
    }
}

/// A read gives as many of the unread bytes as there is room for, from the first one on, and leaves
/// the others unread.
pub proof fn read_fills_the_room(unread: Seq<u8>, room: usize)
    ensures
        read_part(unread, room) + rest_part(unread, room) == unread,
        read_part(unread, room).len() <= room,
        read_part(unread, room).len() == room || rest_part(unread, room).len() == 0,
{
    assert(read_part(unread, room) + rest_part(unread, room) =~= unread);
}

/// What is unread of a connection is what is left over of it, if anything is.
pub proof fn leftover_is_unread(s: NgrokStream)
    ensures
        s.leftover matches Some(b) ==> s.unread() == bytes_of(b),
        s.leftover is None ==> s.unread().len() == 0,
{
}

/// The error of a closed endpoint is a broken pipe, so that it is fatal to accepting.
pub proof fn closed_endpoint_breaks_the_pipe<T>(r: Result<T, Error>)
    requires
        is_endpoint_closed(r),
    ensures
        r matches Err(Error::Io(e)) && e.kind == IoErrorKind::BrokenPipe,
{
}

/// A course of reads is its reads, one after the other, each from what the ones before it left.
pub proof fn reads_go_on_from_where_they_stopped(unread: Seq<u8>, rooms: Seq<usize>, room: usize)
    ensures
        unread_after(unread, Seq::empty()) == unread,
        read_by(unread, Seq::empty()).len() == 0,
        unread_after(unread, rooms.push(room)) == rest_part(unread_after(unread, rooms), room),
        read_by(unread, rooms.push(room)) == read_by(unread, rooms) + read_part(
            unread_after(unread, rooms),
            room,
        ),
{
    assert(rooms.push(room).drop_last() =~= rooms);
}

/// A listener is what it holds, part by part.
pub proof fn listener_is_what_it_holds(l: EndpointListener)
    ensures
        l@.url == l.url@ && l@.id == l.id@ && l@.name == l.name@,
        l@.metadata == l.metadata@ && l@.protocol == l.protocol@,
{
}

/// A connection carries the address of its client, with nothing left over yet; the channel of a closed
/// endpoint gives an error that is fatal, and ends the stream of connections.
pub proof fn connection_carries_the_client_address(
    header: Option<ProxyHeader>,
    r: Result<(NgrokStream, NgrokAddr), Error>,
    item: Option<Result<(NgrokStream, NgrokAddr), Error>>,
    e: &Error,
    fatal: bool,
)
    requires
        call_ensures(EndpointListener::accept, (header,), r),
        call_ensures(EndpointListener::poll_next, (header,), item),
        call_ensures(is_fatal_accept_error, (e,), fatal),
    ensures
        r is Ok <==> header is Some,
        header matches Some(h) ==> (r matches Ok((stream, addr)) && stream.remote_addr@
            == h.client_addr@ && addr@ == h.client_addr@ && stream.leftover is None),
        item is Some <==> header is Some,
        header matches Some(h) ==> (item matches Some(Ok((stream, addr))) && addr@ == h.client_addr@),
        r matches Err(x) ==> (x matches Error::Io(io) && io.kind == IoErrorKind::BrokenPipe),
        r matches Err(x) && *e == x ==> fatal,
        fatal <==> (*e matches Error::Io(io) && io.kind == IoErrorKind::BrokenPipe),
{
}

/// Reading what is left over gives the unread bytes in order, as many as there is room for, and leaves
/// the others; it gives nothing only where nothing is left over.
pub proof fn leftover_is_read_in_order(s: &mut NgrokStream, room: usize, r: Option<Vec<u8>>)
    requires
        call_ensures(NgrokStream::poll_read, (s, room), r),
    ensures
        r is Some <==> old(s).leftover is Some,
        r matches Some(read) ==> {
            &&& read@ + final(s).unread() == old(s).unread()
            &&& read@.len() <= room
            &&& read@.len() == room || final(s).unread().len() == 0
        },
        r is None ==> final(s).unread().len() == 0,
        final(s).remote_addr == old(s).remote_addr,
{
    read_fills_the_room(old(s).unread(), room);
}

} // verus!
