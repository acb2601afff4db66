//! The command dispatcher: the boundary-facing entry points.
//!
//! A `SessionContext` owns the identifier generator and the two registries
//! for one host process, so registry state is explicit rather than ambient.
//! Commands validate their input, call into the registries, and shape
//! results and errors for the caller on the far side of the trust boundary.

use tokio::sync::mpsc::UnboundedSender;
use vstd::prelude::*;

use crate::certificate::der_certificate_ok;
use crate::certificate::pem_certificate_ok;
use crate::certificate::CertificateHandle;
use crate::certificate::CertificateRegistry;
use crate::certificate::TlsParseError;
use crate::codec::CloseCode;
use crate::codec::CloseFrame;
use crate::codec::Message;
use crate::ids::IdGenerator;
use crate::options::SocketOptions;
use crate::socket::first_header_error;
use crate::socket::headers_ok;
use crate::socket::uri_ok;
use crate::socket::ConnectError;
use crate::socket::ConnectionPlan;
use crate::socket::SendMessageError;
use crate::socket::SocketHandle;
use crate::socket::SocketInstance;
use crate::socket::SocketRegistry;

verus! {

/// Owns, for the lifetime of one host process, the identifier generator and
/// the certificate and socket registries.
pub struct SessionContext {
    ids: IdGenerator,
    certificates: CertificateRegistry,
    sockets: SocketRegistry,
}

impl SessionContext {
    /// The stored trust anchors, keyed by handle value.
    pub closed spec fn certificates_view(&self) -> Map<u64, native_tls::Certificate> {
        self.certificates@
    }

    /// The registered socket sessions, keyed by handle value.
    pub closed spec fn sockets_view(&self) -> Map<u64, SocketInstance> {
        self.sockets@
    }

    /// Every handle a registry knows was issued by this context's
    /// generator, which never repeats a value; so a fresh handle collides
    /// with no registry entry.
    pub closed spec fn wf(&self) -> bool {
        &&& self.ids.wf()
        &&& forall|h: u64| self.certificates@.contains_key(h) ==> self.ids.issued().contains(h)
        &&& forall|h: u64| self.sockets@.contains_key(h) ==> self.ids.issued().contains(h)
    }

    /// The handle space is not exhausted.
    pub closed spec fn can_issue(&self) -> bool {
        self.ids.can_issue()
    }

    pub fn new() -> (r: SessionContext)
        ensures
            r.wf(),
            r.can_issue(),
            r.certificates_view() == Map::<u64, native_tls::Certificate>::empty(),
            r.sockets_view() == Map::<u64, SocketInstance>::empty(),
    {
        SessionContext {
            ids: IdGenerator::new(),
            certificates: CertificateRegistry::new(),
            sockets: SocketRegistry::new(),
        }
    }

    /// Whether another resource can still be created.
    pub fn can_allocate(&self) -> (r: bool)
        ensures
            r == self.can_issue(),
    {
        self.ids.has_capacity()
    }

    /// Parses PEM-encoded certificate bytes; on success, stores the parsed
    /// trust anchor under a fresh handle and returns the handle.  On parse
    /// failure, returns the parser's error and changes nothing.
    pub fn create_certificate_from_pem(&mut self, bytes: &[u8]) -> (r: Result<
        CertificateHandle,
        TlsParseError,
    >)
        requires
            old(self).wf(),
            old(self).can_issue(),
        ensures
            final(self).wf(),
            r is Ok <==> pem_certificate_ok(bytes@),
            r matches Ok(h) ==> {
                &&& !old(self).certificates_view().contains_key(h@)
                &&& final(self).certificates_view().contains_key(h@)
                &&& exists|c: native_tls::Certificate|
                    final(self).certificates_view() == old(self).certificates_view().insert(h@, c)
                &&& final(self).sockets_view() == old(self).sockets_view()
            },
            r is Err ==> final(self).certificates_view() == old(self).certificates_view()
                && final(self).sockets_view() == old(self).sockets_view(),
    {
        let r = self.certificates.create_from_pem(&mut self.ids, bytes);
        proof {
            if r is Ok {
                let h = r->Ok_0;
                let c = choose|c: native_tls::Certificate|
                    self.certificates@ == old(self).certificates@.insert(h@, c);
                assert(self.certificates_view() == old(self).certificates_view().insert(h@, c));
            }
        }
        r
    }

    /// Parses DER-encoded certificate bytes; same contract as
    /// `create_certificate_from_pem`, for the DER encoding.
    pub fn create_certificate_from_der(&mut self, bytes: &[u8]) -> (r: Result<
        CertificateHandle,
        TlsParseError,
    >)
        requires
            old(self).wf(),
            old(self).can_issue(),
        ensures
            final(self).wf(),
            r is Ok <==> der_certificate_ok(bytes@),
            r matches Ok(h) ==> {
                &&& !old(self).certificates_view().contains_key(h@)
                &&& final(self).certificates_view().contains_key(h@)
                &&& exists|c: native_tls::Certificate|
                    final(self).certificates_view() == old(self).certificates_view().insert(h@, c)
                &&& final(self).sockets_view() == old(self).sockets_view()
            },
            r is Err ==> final(self).certificates_view() == old(self).certificates_view()
                && final(self).sockets_view() == old(self).sockets_view(),
    {
        let r = self.certificates.create_from_der(&mut self.ids, bytes);
        proof {
            if r is Ok {
                let h = r->Ok_0;
                let c = choose|c: native_tls::Certificate|
                    self.certificates@ == old(self).certificates@.insert(h@, c);
                assert(self.certificates_view() == old(self).certificates_view().insert(h@, c));
            }
        }
        r
    }

    /// Resolves connection options into a handshake plan: rejects a
    /// malformed URI or header, and assembles the extra trust anchors,
    /// skipping unknown handles silently.  No connection is attempted and
    /// nothing is registered here; the plan is handed to the transport, and
    /// the session is registered once the connection is live.
    pub fn prepare_connection(&self, options: SocketOptions) -> (r: Result<
        ConnectionPlan,
        ConnectError,
    >)
        ensures
            r is Ok <==> uri_ok(options.uri_spec()) && headers_ok(options.headers_spec()),
            !uri_ok(options.uri_spec()) ==> (r matches Err(e) && e matches
                ConnectError::InvalidUri(u) && u@ == options.uri_spec()),
            uri_ok(options.uri_spec()) ==> (first_header_error(options.headers_spec()) matches Some(
                e,
            ) ==> r == Err::<ConnectionPlan, ConnectError>(e)),
            r matches Ok(plan) ==> {
                &&& plan.uri@ == options.uri_spec()
                &&& plan.headers@ == options.headers_spec()
                &&& plan.anchors@ == crate::certificate::selected_anchors(
                    self.certificates_view(),
                    crate::certificate::handle_ids(options.roots_spec()),
                )
            },
    {
        crate::socket::prepare_connection(&self.certificates, options)
    }

    /// Registers a live session's outbound endpoint under a fresh handle
    /// and returns the handle.
    pub fn register_socket(&mut self, transmitter: UnboundedSender<Message>) -> (h: SocketHandle)
        requires
            old(self).wf(),
            old(self).can_issue(),
        ensures
            final(self).wf(),
            !old(self).sockets_view().contains_key(h@),
            final(self).sockets_view() == old(self).sockets_view().insert(
                h@,
                final(self).sockets_view()[h@],
            ),
            final(self).sockets_view()[h@].transmitter_spec() == transmitter,
            final(self).certificates_view() == old(self).certificates_view(),
    {
        let instance = SocketInstance::new(transmitter);
        let handle = SocketHandle::from_id(self.ids.next_id());
        self.sockets.insert(handle, instance);
        handle
    }

    /// Removes the session registered under `handle` from the registry, so
    /// that a closed connection's entry (and the queue endpoint it holds)
    /// does not outlive the connection.  Returns whether an entry was
    /// removed; everything else is unchanged.
    pub fn unregister_socket(&mut self, handle: SocketHandle) -> (r: bool)
        requires
            old(self).wf(),
        ensures
            final(self).wf(),
            r == old(self).sockets_view().contains_key(handle@),
            final(self).sockets_view() == old(self).sockets_view().remove(handle@),
            final(self).certificates_view() == old(self).certificates_view(),
            final(self).can_issue() == old(self).can_issue(),
    {
        self.sockets.remove(handle).is_some()
    }

    /// Sends `message` to the session registered under `handle`.  Fails
    /// with `UnknownHandle` exactly when no session is registered under
    /// `handle` (and then enqueues nothing), and with `ChannelClosed` when
    /// the session's relay has dropped the queue's receiving half.
    pub fn send_message_to_socket(&self, handle: SocketHandle, message: Message) -> (r: Result<
        (),
        SendMessageError,
    >)
        ensures
            r == Err::<(), SendMessageError>(SendMessageError::UnknownHandle)
                <==> !self.sockets_view().contains_key(handle@),
            self.sockets_view().contains_key(handle@) ==> r == Ok::<(), SendMessageError>(())
                || r == Err::<(), SendMessageError>(SendMessageError::ChannelClosed),
    {
        self.sockets.send_message(handle, message)
    }

    /// Closes the session's connection without a close frame payload:
    /// expressed as sending a `Close` message, not a distinct primitive.
    pub fn close(&self, handle: SocketHandle) -> (r: Result<(), SendMessageError>)
        ensures
            r == Err::<(), SendMessageError>(SendMessageError::UnknownHandle)
                <==> !self.sockets_view().contains_key(handle@),
            self.sockets_view().contains_key(handle@) ==> r == Ok::<(), SendMessageError>(())
                || r == Err::<(), SendMessageError>(SendMessageError::ChannelClosed),
    {
        self.send_message_to_socket(handle, Message::Close(None))
    }

    /// Closes the session's connection with a status code and reason:
    /// expressed as sending a `Close` message, not a distinct primitive.
    pub fn close_with_reason(&self, handle: SocketHandle, code: CloseCode, reason: String) -> (r:
        Result<(), SendMessageError>)
        ensures
            r == Err::<(), SendMessageError>(SendMessageError::UnknownHandle)
                <==> !self.sockets_view().contains_key(handle@),
            self.sockets_view().contains_key(handle@) ==> r == Ok::<(), SendMessageError>(())
                || r == Err::<(), SendMessageError>(SendMessageError::ChannelClosed),
    {
        self.send_message_to_socket(handle, Message::Close(Some((CloseFrame { code, reason }))))
    }
}

} // verus!
