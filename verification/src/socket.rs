//! The socket registry and the boundary-facing send path.
//!
//! A socket session maps an opaque handle to the send-only endpoint of the
//! session's unbounded outbound queue.  The two relay tasks that own the live
//! connection run outside this library; the registry only holds the means to
//! enqueue outbound frames, and the inbound path only computes, per frame,
//! the event to raise.  Connection establishment is split the same way: this
//! module validates the caller's options and assembles the trust store (the
//! compute half), and the asynchronous plumbing outside the library performs
//! the handshake with the resulting plan.

use std::collections::HashMap;
use tokio::sync::mpsc::UnboundedSender;
use vstd::prelude::*;
use vstd::string::StringExecFns;

use crate::certificate::handle_ids;
use crate::certificate::selected_anchors;
use crate::certificate::CertificateRegistry;
use crate::codec::decode;
use crate::codec::spec_decode;
use crate::codec::CodecError;
use crate::codec::Message;
use crate::codec::WireFrame;
use crate::options::SocketOptions;

verus! {

broadcast use vstd::std_specs::hash::group_hash_axioms;

/// Opaque handle naming a live socket session across the trust boundary.
#[derive(PartialEq, Eq, Structural, PartialOrd, Ord, Copy, Clone, Hash, Debug)]
pub struct SocketHandle(u64);

impl View for SocketHandle {
    type V = u64;

    closed spec fn view(&self) -> u64 {
        self.0
    }
}

/// The digit character for `d`.
pub open spec fn digit_char(d: nat) -> char {
    if d == 0 {
        '0'
    } else if d == 1 {
        '1'
    } else if d == 2 {
        '2'
    } else if d == 3 {
        '3'
    } else if d == 4 {
        '4'
    } else if d == 5 {
        '5'
    } else if d == 6 {
        '6'
    } else if d == 7 {
        '7'
    } else if d == 8 {
        '8'
    } else {
        '9'
    }
}

/// The decimal digits of `n`, most significant first.
pub open spec fn spec_decimal(n: nat) -> Seq<char>
    decreases n,
{
    if n < 10 {
        seq![digit_char(n)]
    } else {
        spec_decimal(n / 10).push(digit_char(n % 10))
    }
}

/// The session-specific event channel name for the socket with numeric
/// handle `id`: a fixed prefix followed by the handle's decimal value.
pub open spec fn spec_event_name(id: u64) -> Seq<char> {
    "__rhenite_socket/"@ + spec_decimal(id as nat)
}

fn digit_str(d: u64) -> (r: &'static str)
    requires
        d < 10,
    ensures
        r@ == seq![digit_char(d as nat)],
{
    if d == 0 {
        proof {
            reveal_strlit("0");
            assert("0"@ =~= seq![digit_char(0)]);
        }
        "0"
    } else if d == 1 {
        proof {
            reveal_strlit("1");
            assert("1"@ =~= seq![digit_char(1)]);
        }
        "1"
    } else if d == 2 {
        proof {
            reveal_strlit("2");
            assert("2"@ =~= seq![digit_char(2)]);
        }
        "2"
    } else if d == 3 {
        proof {
            reveal_strlit("3");
            assert("3"@ =~= seq![digit_char(3)]);
        }
        "3"
    } else if d == 4 {
        proof {
            reveal_strlit("4");
            assert("4"@ =~= seq![digit_char(4)]);
        }
        "4"
    } else if d == 5 {
        proof {
            reveal_strlit("5");
            assert("5"@ =~= seq![digit_char(5)]);
        }
        "5"
    } else if d == 6 {
        proof {
            reveal_strlit("6");
            assert("6"@ =~= seq![digit_char(6)]);
        }
        "6"
    } else if d == 7 {
        proof {
            reveal_strlit("7");
            assert("7"@ =~= seq![digit_char(7)]);
        }
        "7"
    } else if d == 8 {
        proof {
            reveal_strlit("8");
            assert("8"@ =~= seq![digit_char(8)]);
        }
        "8"
    } else {
        proof {
            reveal_strlit("9");
            assert("9"@ =~= seq![digit_char(9)]);
        }
        "9"
    }
}

/// Appends the decimal digits of `n` to `s`.
fn append_decimal(s: &mut String, n: u64)
    ensures
        final(s)@ == old(s)@ + spec_decimal(n as nat),
    decreases n,
{
    if n < 10 {
        s.append(digit_str(n));
        proof {
            assert(final(s)@ =~= old(s)@ + spec_decimal(n as nat));
        }
    } else {
        append_decimal(s, n / 10);
        s.append(digit_str(n % 10));
        proof {
            assert((n / 10) as nat == (n as nat) / 10);
            assert((n % 10) as nat == (n as nat) % 10);
            assert(final(s)@ =~= old(s)@ + spec_decimal(n as nat));
        }
    }
}

impl SocketHandle {
    /// Rebuilds a handle from its numeric value, as received from the far
    /// side of the trust boundary.
    pub fn from_id(id: u64) -> (r: SocketHandle)
        ensures
            r@ == id,
    {
        SocketHandle(id)
    }

    /// The numeric value of this handle.
    pub fn id(&self) -> (r: u64)
        ensures
            r == self@,
    {
        self.0
    }

    /// The name of the event channel on which this session's inbound
    /// messages are raised.
    pub fn event_name(&self) -> (r: String)
        ensures
            r@ == spec_event_name(self@),
    {
        let mut s = String::from_str("__rhenite_socket/");
        append_decimal(&mut s, self.0);
        s
    }
}

#[verifier::external_type_specification]
#[verifier::external_body]
#[verifier::reject_recursive_types(T)]
pub struct ExUnboundedSender<T>(UnboundedSender<T>);

/// Relies on tokio::sync::mpsc::UnboundedSender::send: the message is placed
/// at the tail of the session's outbound queue, which the receiving half
/// drains in order (first in, first out); it fails exactly when the
/// receiving half has been dropped.
#[verifier::external_body]
fn channel_send(tx: &UnboundedSender<Message>, m: Message) -> (accepted: bool) {
    tx.send(m).is_ok()
}

/// A live session's entry in the registry: the send-only endpoint of the
/// session's unbounded, ordered outbound queue of messages.
pub struct SocketInstance {
    transmitter: UnboundedSender<Message>,
}

impl SocketInstance {
    /// The outbound-queue endpoint this entry holds.
    pub closed spec fn transmitter_spec(&self) -> UnboundedSender<Message> {
        self.transmitter
    }

    pub fn new(transmitter: UnboundedSender<Message>) -> (r: SocketInstance)
        ensures
            r.transmitter_spec() == transmitter,
    {
        SocketInstance { transmitter }
    }
}

/// Sending to a socket failed.
#[derive(Copy, Clone, PartialEq, Eq, Structural, Debug)]
pub enum SendMessageError {
    /// The handle was never returned by socket creation.
    UnknownHandle,
    /// The session's outbound relay has exited and dropped the queue's
    /// receiving half.
    ChannelClosed,
}

/// Maps an opaque socket handle to the live connection's outbound-write
/// entry point.  Entries are only ever added; the registry lives for the
/// lifetime of the process.
pub struct SocketRegistry {
    sockets: HashMap<u64, SocketInstance>,
}

impl View for SocketRegistry {
    type V = Map<u64, SocketInstance>;

    closed spec fn view(&self) -> Map<u64, SocketInstance> {
        self.sockets@
    }
}

impl SocketRegistry {
    pub fn new() -> (r: SocketRegistry)
        ensures
            r@ == Map::<u64, SocketInstance>::empty(),
    {
        SocketRegistry { sockets: HashMap::new() }
    }

    /// Registers a session's outbound endpoint under its handle.
    pub(crate) fn insert(&mut self, handle: SocketHandle, instance: SocketInstance)
        ensures
            final(self)@ == old(self)@.insert(handle@, instance),
    {
        self.sockets.insert(handle.id(), instance);
    }

    /// Removes the session registered under `handle`, handing back its
    /// outbound endpoint, so that an entry does not outlive its connection.
    pub(crate) fn remove(&mut self, handle: SocketHandle) -> (r: Option<SocketInstance>)
        ensures
            final(self)@ == old(self)@.remove(handle@),
            r is Some <==> old(self)@.contains_key(handle@),
    {
        self.sockets.remove(&handle.id())
    }

    /// Shares the outbound endpoint registered under `handle`, if any.
    pub fn get(&self, handle: SocketHandle) -> (r: Option<&SocketInstance>)
        ensures
            match r {
                Some(inst) => self@.contains_key(handle@) && *inst == self@[handle@],
                None => !self@.contains_key(handle@),
            },
    {
        self.sockets.get(&handle.id())
    }

    /// Sends `message` to the session registered under `handle`: the message
    /// is encoded and placed on that session's outbound queue.  Fails with
    /// `UnknownHandle` exactly when no session is registered under `handle`
    /// (and then enqueues nothing), and with `ChannelClosed` when the
    /// session's relay has dropped the queue's receiving half.
    pub fn send_message(&self, handle: SocketHandle, message: Message) -> (r: Result<
        (),
        SendMessageError,
    >)
        ensures
            r == Err::<(), SendMessageError>(SendMessageError::UnknownHandle) <==> !self@.contains_key(handle@),
            self@.contains_key(handle@) ==> r == Ok::<(), SendMessageError>(()) || r == Err::<
                (),
                SendMessageError,
            >(SendMessageError::ChannelClosed),
    {
        match self.sockets.get(&handle.id()) {
            None => Err(SendMessageError::UnknownHandle),
            Some(instance) => {
                if channel_send(&instance.transmitter, message) {
                    Ok(())
                } else {
                    Err(SendMessageError::ChannelClosed)
                }
            },
        }
    }
}

/// The event raised for one inbound frame of the session `handle`: the
/// boundary message decoded from the frame, addressed to the session's event
/// channel.  Fails exactly on the one frame kind that cannot be represented
/// across the boundary, which the transport never produces at this layer.
pub fn inbound_event(handle: SocketHandle, frame: WireFrame) -> (r: Result<
    (String, Message),
    CodecError,
>)
    ensures
        r is Err <==> frame is Raw,
        r matches Err(e) ==> e == CodecError::UnrepresentableFrame,
        r matches Ok(p) ==> p.0@ == spec_event_name(handle@) && Ok::<Message, CodecError>(p.1)
            == spec_decode(frame),
{
    match decode(frame) {
        Ok(message) => Ok((handle.event_name(), message)),
        Err(e) => Err(e),
    }
}

/// Establishing a connection failed before any connection was attempted: the
/// options name a malformed URI or header.  Carries the offending text.
#[derive(Clone, PartialEq, Eq, Debug)]
pub enum ConnectError {
    InvalidUri(String),
    InvalidHeaderName(String),
    InvalidHeaderValue(String),
}

/// Whether `s` parses as a URI for a connection handshake request.  Parsing
/// depends on the string alone.
pub uninterp spec fn uri_ok(s: Seq<char>) -> bool;

/// Whether `s` is a valid header name.  Parsing depends on the string alone.
pub uninterp spec fn header_name_ok(s: Seq<char>) -> bool;

/// Whether `s` is a valid header value.  Parsing depends on the string
/// alone.
pub uninterp spec fn header_value_ok(s: Seq<char>) -> bool;

/// Relies on http::Uri's parser: whether a string is accepted as a URI is a
/// function of the string alone.
#[verifier::external_body]
fn check_uri(s: &str) -> (r: bool)
    ensures
        r == uri_ok(s@),
{
    s.parse::<http::Uri>().is_ok()
}

/// Relies on http::header::HeaderName's parser: whether a string is a valid
/// header name is a function of the string alone.
#[verifier::external_body]
fn check_header_name(s: &str) -> (r: bool)
    ensures
        r == header_name_ok(s@),
{
    s.parse::<http::header::HeaderName>().is_ok()
}

/// Relies on http::header::HeaderValue's parser: whether a string is a valid
/// header value is a function of the string alone.
#[verifier::external_body]
fn check_header_value(s: &str) -> (r: bool)
    ensures
        r == header_value_ok(s@),
{
    s.parse::<http::header::HeaderValue>().is_ok()
}

/// The first rejected header of `hs`, scanned in order, name before value.
pub open spec fn first_header_error(hs: Seq<(String, String)>) -> Option<ConnectError>
    decreases hs.len(),
{
    if hs.len() == 0 {
        None
    } else if !header_name_ok(hs[0].0@) {
        Some(ConnectError::InvalidHeaderName(hs[0].0))
    } else if !header_value_ok(hs[0].1@) {
        Some(ConnectError::InvalidHeaderValue(hs[0].1))
    } else {
        first_header_error(hs.drop_first())
    }
}

/// Every header of `hs` has a valid name and value.
pub open spec fn headers_ok(hs: Seq<(String, String)>) -> bool {
    first_header_error(hs) is None
}

/// Everything the handshake needs, computed and checked: the validated URI
/// and headers, and the trust anchors selected for the connection.
pub struct ConnectionPlan {
    pub uri: String,
    pub headers: Vec<(String, String)>,
    pub anchors: Vec<native_tls::Certificate>,
}

/// Resolves connection options into a handshake plan: rejects a malformed
/// URI or header (before any connection is attempted), and assembles the
/// extra trust anchors, skipping unknown handles silently.
#[verifier::loop_isolation(false)]
pub fn prepare_connection(certificates: &CertificateRegistry, options: SocketOptions) -> (r: Result<
    ConnectionPlan,
    ConnectError,
>)
    ensures
        r is Ok <==> uri_ok(options.uri_spec()) && headers_ok(options.headers_spec()),
        !uri_ok(options.uri_spec()) ==> (r matches Err(e) && e matches ConnectError::InvalidUri(u)
            && u@ == options.uri_spec()),
        uri_ok(options.uri_spec()) ==> (first_header_error(options.headers_spec()) matches Some(e)
            ==> r == Err::<ConnectionPlan, ConnectError>(e)),
        r matches Ok(plan) ==> {
            &&& plan.uri@ == options.uri_spec()
            &&& plan.headers@ == options.headers_spec()
            &&& plan.anchors@ == selected_anchors(
                certificates@,
                handle_ids(options.roots_spec()),
            )
        },
{
    let (uri, headers, root_certificates) = options.into_parts();
    let ghost hs = headers@;
    if !check_uri(uri.as_str()) {
        return Err(ConnectError::InvalidUri(uri));
    }
    let n = headers.len();
    let mut i: usize = 0;
    proof {
        assert(hs.skip(0) =~= hs);
    }
    while i < n
        invariant
            0 <= i <= n,
            n == headers@.len(),
            headers@ == hs,
            first_header_error(hs.skip(i as int)) == first_header_error(hs),
        decreases n - i,
    {
        proof {
            assert(hs.skip(i as int)[0] == hs[i as int]);
        }
        if !check_header_name(headers[i].0.as_str()) {
            return Err(ConnectError::InvalidHeaderName(headers[i].0.clone()));
        }
        if !check_header_value(headers[i].1.as_str()) {
            return Err(ConnectError::InvalidHeaderValue(headers[i].1.clone()));
        }
        proof {
            assert(hs.skip(i as int).drop_first() =~= hs.skip(i as int + 1));
        }
        i = i + 1;
    }
    proof {
        assert(hs.skip(n as int) =~= Seq::<(String, String)>::empty());
    }
    let anchors = certificates.select_anchors(&root_certificates);
    Ok(ConnectionPlan { uri, headers, anchors })
}

} // verus!
