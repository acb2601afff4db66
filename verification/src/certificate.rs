//! The certificate registry: parsed trust anchors keyed by handle.
//!
//! Trust anchors are created from PEM- or DER-encoded bytes, stored under a
//! fresh handle, and never removed for the lifetime of the process.  The
//! parsed certificate itself is opaque to this library: the TLS
//! implementation parses it and later consumes it when a connection's trust
//! store is assembled.

use std::collections::HashMap;
use vstd::prelude::*;

use crate::ids::IdGenerator;

verus! {

broadcast use vstd::std_specs::hash::group_hash_axioms;

/// Opaque handle naming a stored trust anchor across the trust boundary.
#[derive(PartialEq, Eq, Structural, PartialOrd, Ord, Copy, Clone, Hash, Debug)]
pub struct CertificateHandle(u64);

impl View for CertificateHandle {
    type V = u64;

    closed spec fn view(&self) -> u64 {
        self.0
    }
}

impl CertificateHandle {
    /// Rebuilds a handle from its numeric value, as received from the far
    /// side of the trust boundary.
    pub fn from_id(id: u64) -> (r: CertificateHandle)
        ensures
            r@ == id,
    {
        CertificateHandle(id)
    }

    /// The numeric value of this handle.
    pub fn id(&self) -> (r: u64)
        ensures
            r == self@,
    {
        self.0
    }
}

/// Malformed trust-anchor bytes: the error returned when certificate bytes
/// do not parse.  Carries the underlying parser's message as text.
#[derive(Clone, PartialEq, Eq, Debug)]
pub struct TlsParseError {
    pub message: String,
}

#[verifier::external_type_specification]
#[verifier::external_body]
pub struct ExCertificate(native_tls::Certificate);

/// Whether `bytes` are a PEM-encoded X509 certificate that the TLS
/// implementation accepts.  Parsing depends on the bytes alone.
pub uninterp spec fn pem_certificate_ok(bytes: Seq<u8>) -> bool;

/// Whether `bytes` are a DER-encoded X509 certificate that the TLS
/// implementation accepts.  Parsing depends on the bytes alone.
pub uninterp spec fn der_certificate_ok(bytes: Seq<u8>) -> bool;

/// Relies on native_tls::Certificate::from_pem: parses a PEM-encoded X509
/// certificate; success or failure is a function of the bytes alone, and the
/// error carries the parser's message.
#[verifier::external_body]
fn parse_pem(bytes: &[u8]) -> (r: Result<native_tls::Certificate, TlsParseError>)
    ensures
        r is Ok <==> pem_certificate_ok(bytes@),
{
    match native_tls::Certificate::from_pem(bytes) {
        Ok(c) => Ok(c),
        Err(e) => Err(TlsParseError { message: e.to_string() }),
    }
}

/// Relies on native_tls::Certificate::from_der: parses a DER-encoded X509
/// certificate; success or failure is a function of the bytes alone, and the
/// error carries the parser's message.
#[verifier::external_body]
fn parse_der(bytes: &[u8]) -> (r: Result<native_tls::Certificate, TlsParseError>)
    ensures
        r is Ok <==> der_certificate_ok(bytes@),
{
    match native_tls::Certificate::from_der(bytes) {
        Ok(c) => Ok(c),
        Err(e) => Err(TlsParseError { message: e.to_string() }),
    }
}

/// Relies on native_tls's derived Clone for Certificate: a clone shares the
/// parsed certificate, so it is the same trust anchor.
pub assume_specification[ <native_tls::Certificate as Clone>::clone ](
    c: &native_tls::Certificate,
) -> (r: native_tls::Certificate)
    ensures
        r == *c,
;

/// Stores parsed trust anchors keyed by handle.  Entries are only ever
/// added; the registry lives for the lifetime of the process.
pub struct CertificateRegistry {
    certificates: HashMap<u64, native_tls::Certificate>,
}

impl View for CertificateRegistry {
    type V = Map<u64, native_tls::Certificate>;

    closed spec fn view(&self) -> Map<u64, native_tls::Certificate> {
        self.certificates@
    }
}

/// The trust anchors stored under `handles`, in request order; handles that
/// the registry does not know are skipped silently.
pub open spec fn selected_anchors(
    m: Map<u64, native_tls::Certificate>,
    handles: Seq<u64>,
) -> Seq<native_tls::Certificate>
    decreases handles.len(),
{
    if handles.len() == 0 {
        Seq::empty()
    } else {
        let rest = selected_anchors(m, handles.drop_last());
        if m.contains_key(handles.last()) {
            rest.push(m[handles.last()])
        } else {
            rest
        }
    }
}

/// The numeric values of a sequence of certificate handles.
pub open spec fn handle_ids(handles: Seq<CertificateHandle>) -> Seq<u64> {
    handles.map_values(|h: CertificateHandle| h@)
}

/// Trust-anchor tolerance: handles that the registry does not know
/// contribute nothing, so the anchors selected for any request are exactly
/// those selected for its known handles.
pub proof fn lemma_unknown_anchors_skipped(
    m: Map<u64, native_tls::Certificate>,
    handles: Seq<u64>,
)
    ensures
        selected_anchors(m, handles) == selected_anchors(
            m,
            handles.filter(|h: u64| m.contains_key(h)),
        ),
    decreases handles.len(),
{
    reveal(Seq::filter);
    if handles.len() == 0 {
        assert(handles.filter(|h: u64| m.contains_key(h)) =~= Seq::<u64>::empty());
    } else {
        let rest = handles.drop_last();
        let last = handles.last();
        lemma_unknown_anchors_skipped(m, rest);
        let kept = rest.filter(|h: u64| m.contains_key(h));
        if m.contains_key(last) {
            assert(handles.filter(|h: u64| m.contains_key(h)) =~= kept.push(last));
            assert(kept.push(last).drop_last() =~= kept);
        } else {
            assert(handles.filter(|h: u64| m.contains_key(h)) =~= kept);
        }
    }
}

impl CertificateRegistry {
    pub fn new() -> (r: CertificateRegistry)
        ensures
            r@ == Map::<u64, native_tls::Certificate>::empty(),
    {
        CertificateRegistry { certificates: HashMap::new() }
    }

    /// Parses PEM-encoded certificate bytes; on success, stores the parsed
    /// trust anchor under a fresh handle and returns the handle.  On parse
    /// failure, returns the parser's error and changes nothing.
    pub fn create_from_pem(&mut self, ids: &mut IdGenerator, bytes: &[u8]) -> (r: Result<
        CertificateHandle,
        TlsParseError,
    >)
        requires
            old(ids).wf(),
            old(ids).can_issue(),
        ensures
            final(ids).wf(),
            r is Ok <==> pem_certificate_ok(bytes@),
            r matches Ok(h) ==> {
                &&& !old(ids).issued().contains(h@)
                &&& final(ids).issued() == old(ids).issued().insert(h@)
                &&& final(self)@.contains_key(h@)
                &&& exists|c: native_tls::Certificate| final(self)@ == old(self)@.insert(h@, c)
            },
            r is Err ==> final(self)@ == old(self)@ && final(ids).issued() == old(ids).issued(),
    {
        let certificate = match parse_pem(bytes) {
            Ok(c) => c,
            Err(e) => {
                return Err(e);
            },
        };
        let ghost witness = certificate;
        let handle = CertificateHandle(ids.next_id());
        self.certificates.insert(handle.0, certificate);
        proof {
            assert(self@ == old(self)@.insert(handle.0, witness));
        }
        Ok(handle)
    }

    /// Parses DER-encoded certificate bytes; same contract as
    /// `create_from_pem`, for the DER encoding.
    pub fn create_from_der(&mut self, ids: &mut IdGenerator, bytes: &[u8]) -> (r: Result<
        CertificateHandle,
        TlsParseError,
    >)
        requires
            old(ids).wf(),
            old(ids).can_issue(),
        ensures
            final(ids).wf(),
            r is Ok <==> der_certificate_ok(bytes@),
            r matches Ok(h) ==> {
                &&& !old(ids).issued().contains(h@)
                &&& final(ids).issued() == old(ids).issued().insert(h@)
                &&& final(self)@.contains_key(h@)
                &&& exists|c: native_tls::Certificate| final(self)@ == old(self)@.insert(h@, c)
            },
            r is Err ==> final(self)@ == old(self)@ && final(ids).issued() == old(ids).issued(),
    {
        let certificate = match parse_der(bytes) {
            Ok(c) => c,
            Err(e) => {
                return Err(e);
            },
        };
        let ghost witness = certificate;
        let handle = CertificateHandle(ids.next_id());
        self.certificates.insert(handle.0, certificate);
        proof {
            assert(self@ == old(self)@.insert(handle.0, witness));
        }
        Ok(handle)
    }

    /// Looks a trust anchor up by its handle.  Used only inside the host
    /// process; never exposed across the boundary.
    pub fn lookup(&self, handle: CertificateHandle) -> (r: Option<&native_tls::Certificate>)
        ensures
            match r {
                Some(c) => self@.contains_key(handle@) && *c == self@[handle@],
                None => !self@.contains_key(handle@),
            },
    {
        self.certificates.get(&handle.0)
    }

    /// Assembles the trust anchors for a connection: the anchors stored
    /// under `handles`, in request order; unknown handles are skipped
    /// silently and never fail the selection.
    pub fn select_anchors(&self, handles: &Vec<CertificateHandle>) -> (r: Vec<
        native_tls::Certificate,
    >)
        ensures
            r@ == selected_anchors(self@, handle_ids(handles@)),
    {
        let ghost ids = handle_ids(handles@);
        let mut out: Vec<native_tls::Certificate> = Vec::new();
        let mut i: usize = 0;
        while i < handles.len()
            invariant
                0 <= i <= handles@.len(),
                ids == handle_ids(handles@),
                out@ == selected_anchors(self@, ids.take(i as int)),
            decreases handles@.len() - i,
        {
            proof {
                assert(ids.take(i as int + 1).drop_last() =~= ids.take(i as int));
                assert(ids.take(i as int + 1).last() == ids[i as int]);
            }
            match self.lookup(handles[i]) {
                Some(c) => {
                    out.push(c.clone());
                },
                None => {
                },
            }
            i = i + 1;
        }
        proof {
            assert(ids.take(handles@.len() as int) =~= ids);
        }
        out
    }
}

} // verus!
