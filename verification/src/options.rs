//! Connection options and their builder.
//!
//! Options are constructed by the caller and consumed exactly once when a
//! connection is established.  Headers form a mapping from names to values
//! with unique keys: setting a name that is already present replaces its
//! value, as a map insertion does.

use vstd::prelude::*;

use crate::certificate::CertificateHandle;

verus! {

/// The value mapped to key `k` by the header list `hs`: the value of the
/// first entry whose key reads `k`, if any.
pub open spec fn header_lookup(hs: Seq<(String, String)>, k: Seq<char>) -> Option<Seq<char>>
    decreases hs.len(),
{
    if hs.len() == 0 {
        None
    } else if hs[0].0@ == k {
        Some(hs[0].1@)
    } else {
        header_lookup(hs.drop_first(), k)
    }
}

/// No two header entries share a key, so the list is a mapping.
pub open spec fn header_keys_unique(hs: Seq<(String, String)>) -> bool {
    forall|i: int, j: int| 0 <= i < j < hs.len() ==> hs[i].0@ != hs[j].0@
}

/// Replacing the first entry whose key is `kv`'s key acts, on lookups, as a
/// map insertion for that key.
proof fn lemma_lookup_replace(hs: Seq<(String, String)>, i: int, kv: (String, String), k2: Seq<
    char,
>)
    requires
        0 <= i < hs.len(),
        forall|j: int| 0 <= j < i ==> hs[j].0@ != kv.0@,
        hs[i].0@ == kv.0@,
    ensures
        header_lookup(hs.update(i, kv), k2) == (if k2 == kv.0@ {
            Some(kv.1@)
        } else {
            header_lookup(hs, k2)
        }),
    decreases i,
{
    let hs2 = hs.update(i, kv);
    if i == 0 {
        if k2 != kv.0@ {
            assert(hs2.drop_first() =~= hs.drop_first());
        }
    } else {
        assert(hs2.drop_first() =~= hs.drop_first().update(i - 1, kv));
        lemma_lookup_replace(hs.drop_first(), i - 1, kv, k2);
    }
}

/// Appending an entry whose key is absent acts, on lookups, as a map
/// insertion for that key.
proof fn lemma_lookup_push(hs: Seq<(String, String)>, kv: (String, String), k2: Seq<char>)
    requires
        forall|j: int| 0 <= j < hs.len() ==> hs[j].0@ != kv.0@,
    ensures
        header_lookup(hs.push(kv), k2) == (if k2 == kv.0@ {
            Some(kv.1@)
        } else {
            header_lookup(hs, k2)
        }),
    decreases hs.len(),
{
    assert(hs.push(kv)[hs.len() as int] == kv);
    if hs.len() == 0 {
        assert(hs.push(kv).drop_first() =~= hs);
    } else {
        assert(hs.push(kv)[0] == hs[0]);
        assert(hs.push(kv).drop_first() =~= hs.drop_first().push(kv));
        lemma_lookup_push(hs.drop_first(), kv, k2);
    }
}

/// What a caller hands to connection establishment: the endpoint URI, the
/// request headers, and the handles of the extra trust anchors to use.
pub struct SocketOptions {
    pub(crate) uri: String,
    pub(crate) headers: Vec<(String, String)>,
    pub(crate) root_certificates: Vec<CertificateHandle>,
}

impl SocketOptions {
    /// The endpoint URI.
    pub closed spec fn uri_spec(&self) -> Seq<char> {
        self.uri@
    }

    /// The request headers, in insertion order.
    pub closed spec fn headers_spec(&self) -> Seq<(String, String)> {
        self.headers@
    }

    /// The requested trust-anchor handles, in order.
    pub closed spec fn roots_spec(&self) -> Seq<CertificateHandle> {
        self.root_certificates@
    }

    /// Options for `uri` with no headers and no extra trust anchors.
    pub fn new(uri: String) -> (r: SocketOptions)
        ensures
            r.uri_spec() == uri@,
            r.headers_spec() == Seq::<(String, String)>::empty(),
            r.roots_spec() == Seq::<CertificateHandle>::empty(),
    {
        SocketOptions { uri, headers: Vec::new(), root_certificates: Vec::new() }
    }

    /// Surrenders the parts to connection establishment, which consumes the
    /// options exactly once.
    pub(crate) fn into_parts(self) -> (r: (String, Vec<(String, String)>, Vec<CertificateHandle>))
        ensures
            r.0@ == self.uri_spec(),
            r.1@ == self.headers_spec(),
            r.2@ == self.roots_spec(),
    {
        (self.uri, self.headers, self.root_certificates)
    }

    pub fn builder() -> (r: SocketOptionsBuilder)
        ensures
            r.uri_spec() == Seq::<char>::empty(),
            r.headers_spec() == Seq::<(String, String)>::empty(),
            r.roots_spec() == Seq::<CertificateHandle>::empty(),
    {
        SocketOptionsBuilder::new()
    }
}

/// Assembles `SocketOptions` step by step.
pub struct SocketOptionsBuilder {
    uri: String,
    headers: Vec<(String, String)>,
    root_certificates: Vec<CertificateHandle>,
}

impl SocketOptionsBuilder {
    /// The URI set so far.
    pub closed spec fn uri_spec(&self) -> Seq<char> {
        self.uri@
    }

    /// The headers set so far, in insertion order.
    pub closed spec fn headers_spec(&self) -> Seq<(String, String)> {
        self.headers@
    }

    /// The trust-anchor handles added so far, in order.
    pub closed spec fn roots_spec(&self) -> Seq<CertificateHandle> {
        self.root_certificates@
    }

    /// Header keys never repeat: the list is a mapping.
    pub open spec fn wf(&self) -> bool {
        header_keys_unique(self.headers_spec())
    }

    pub fn new() -> (r: SocketOptionsBuilder)
        ensures
            r.wf(),
            r.uri_spec() == Seq::<char>::empty(),
            r.headers_spec() == Seq::<(String, String)>::empty(),
            r.roots_spec() == Seq::<CertificateHandle>::empty(),
    {
        SocketOptionsBuilder {
            uri: String::new(),
            headers: Vec::new(),
            root_certificates: Vec::new(),
        }
    }

    /// Replaces the endpoint URI.
    pub fn uri(self, uri: String) -> (r: SocketOptionsBuilder)
        ensures
            r.uri_spec() == uri@,
            r.headers_spec() == self.headers_spec(),
            r.roots_spec() == self.roots_spec(),
            self.wf() ==> r.wf(),
    {
        SocketOptionsBuilder {
            uri,
            headers: self.headers,
            root_certificates: self.root_certificates,
        }
    }

    /// Sets header `key` to `value`.  On lookups this acts as a map
    /// insertion: `key` now reads `value` and every other key is unchanged.
    #[verifier::loop_isolation(false)]
    pub fn header(self, key: String, value: String) -> (r: SocketOptionsBuilder)
        requires
            self.wf(),
        ensures
            r.wf(),
            r.uri_spec() == self.uri_spec(),
            r.roots_spec() == self.roots_spec(),
            forall|k2: Seq<char>|
                header_lookup(r.headers_spec(), k2) == (if k2 == key@ {
                    Some(value@)
                } else {
                    header_lookup(self.headers_spec(), k2)
                }),
    {
        let ghost orig = self.headers@;
        let mut this = self;
        let n = this.headers.len();
        let mut i: usize = 0;
        while i < n
            invariant
                0 <= i <= n,
                n == this.headers@.len(),
                this.uri == self.uri,
                this.root_certificates == self.root_certificates,
                this.headers@ == orig,
                forall|j: int| 0 <= j < i ==> orig[j].0@ != key@,
            decreases n - i,
        {
            if this.headers[i].0 == key {
                let ghost kv = (key, value);
                this.headers.remove(i);
                this.headers.insert(i, (key, value));
                proof {
                    let ri = i as int;
                    let upd = orig.update(ri, kv);
                    orig.remove_ensures(ri);
                    orig.remove(ri).insert_ensures(ri, kv);
                    assert(this.headers@ =~= upd);
                    assert(orig[ri].0@ == kv.0@);
                    assert forall|a: int| 0 <= a < upd.len() implies upd[a].0@ == orig[a].0@ by {}
                    assert(header_keys_unique(upd));
                    assert forall|k2: Seq<char>|
                        header_lookup(this.headers@, k2) == (if k2 == key@ {
                            Some(value@)
                        } else {
                            header_lookup(orig, k2)
                        }) by {
                        lemma_lookup_replace(orig, ri, kv, k2);
                        assert(header_lookup(upd, k2) == (if k2 == kv.0@ {
                            Some(kv.1@)
                        } else {
                            header_lookup(orig, k2)
                        }));
                    }
                }
                return this;
            }
            i = i + 1;
        }
        let ghost kv = (key, value);
        this.headers.push((key, value));
        proof {
            assert forall|k2: Seq<char>|
                header_lookup(this.headers@, k2) == (if k2 == kv.0@ {
                    Some(kv.1@)
                } else {
                    header_lookup(orig, k2)
                }) by {
                lemma_lookup_push(orig, kv, k2);
            }
            assert forall|a: int, b: int|
                0 <= a < b < this.headers@.len() implies this.headers@[a].0@
                != this.headers@[b].0@ by {
                if b < orig.len() {
                    assert(orig[a].0@ != orig[b].0@);
                }
            }
        }
        this
    }

    /// Appends a trust-anchor handle to the list used when connecting.
    pub fn add_root_certificate(self, cert: CertificateHandle) -> (r: SocketOptionsBuilder)
        ensures
            r.uri_spec() == self.uri_spec(),
            r.headers_spec() == self.headers_spec(),
            r.roots_spec() == self.roots_spec().push(cert),
            self.wf() ==> r.wf(),
    {
        let mut this = self;
        this.root_certificates.push(cert);
        this
    }

    /// Finishes the build; the options carry exactly what was set.
    pub fn build(self) -> (r: SocketOptions)
        ensures
            r.uri_spec() == self.uri_spec(),
            r.headers_spec() == self.headers_spec(),
            r.roots_spec() == self.roots_spec(),
    {
        SocketOptions {
            uri: self.uri,
            headers: self.headers,
            root_certificates: self.root_certificates,
        }
    }
}

} // verus!
