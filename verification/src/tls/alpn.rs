//! The protocol-tag decorator.
//!
//! Built with an ordered, non-empty list of application-protocol
//! identifiers, the decorator delegates each request to its inner stage
//! unchanged and pairs the successful output with a copy of the list.  It
//! performs no I/O and cannot fail beyond propagating the inner stage's
//! error; its readiness is the inner stage's readiness.

use vstd::prelude::*;

verus! {

/// Copy a protocol-identifier list; the copy holds the same byte strings
/// in the same order.
pub fn clone_protocol_list(protocols: &Vec<Vec<u8>>) -> (r: Vec<Vec<u8>>)
    ensures
        r.deep_view() == protocols.deep_view(),
{
    let mut r: Vec<Vec<u8>> = Vec::new();
    let mut i: usize = 0;
    while i < protocols.len()
        invariant
            i <= protocols.len(),
            r@.len() == i,
            forall|j: int| 0 <= j < i ==> r@[j]@ == protocols@[j]@,
        decreases protocols.len() - i,
    {
        let p: Vec<u8> = clone_protocol(&protocols[i]);
        r.push(p);
        i = i + 1;
    }
    proof {
        assert(r.deep_view() =~~= protocols.deep_view());
    }
    r
}

/// Copy one protocol identifier.
fn clone_protocol(p: &Vec<u8>) -> (r: Vec<u8>)
    ensures
        r@ == p@,
{
    let mut r: Vec<u8> = Vec::new();
    let mut i: usize = 0;
    while i < p.len()
        invariant
            i <= p.len(),
            r@ =~= p@.subrange(0, i as int),
        decreases p.len() - i,
    {
        r.push(p[i]);
        i = i + 1;
    }
    proof {
        assert(r@ =~= p@);
    }
    r
}

/// Factory for the protocol-tag decorator, holding the configured list.
#[derive(Clone)]
pub struct AlpnLayer {
    protocols: Vec<Vec<u8>>,
}

/// Build a protocol-tag layer from an ordered, non-empty list of protocol
/// identifiers.
pub fn alpn(protocols: Vec<Vec<u8>>) -> (r: AlpnLayer)
    requires
        protocols@.len() > 0,
    ensures
        r.protocols() == protocols.deep_view(),
{
    AlpnLayer { protocols }
}

impl AlpnLayer {
    /// The configured protocol list.
    pub closed spec fn protocols(&self) -> Seq<Seq<u8>> {
        self.protocols.deep_view()
    }

    /// Wrap an inner stage: the resulting service delegates to `inner` and
    /// tags its output with this layer's list.
    pub fn layer<S>(&self, inner: S) -> (r: AlpnService<S>)
        ensures
            r.protocols() == self.protocols(),
            r.wrapped() == inner,
    {
        AlpnService { inner, protocols: clone_protocol_list(&self.protocols) }
    }
}

/// The protocol-tag decorator stage.
pub struct AlpnService<S> {
    inner: S,
    protocols: Vec<Vec<u8>>,
}

impl<S> AlpnService<S> {
    /// The protocol list this stage tags outputs with.
    pub closed spec fn protocols(&self) -> Seq<Seq<u8>> {
        self.protocols.deep_view()
    }

    /// The wrapped inner stage.
    pub closed spec fn wrapped(&self) -> S {
        self.inner
    }

    /// The wrapped inner stage; its readiness is this stage's readiness,
    /// and every request goes to it unchanged.
    pub fn inner_stage(&self) -> (r: &S)
        ensures
            *r == self.wrapped(),
    {
        &self.inner
    }

    /// Tag one successful inner output with a copy of the configured list;
    /// an inner failure passes through untouched.
    pub fn tag_output<T, E>(&self, output: Result<T, E>) -> (r: Result<AlpnConfigured<T>, E>)
        ensures
            match r {
                Ok(c) => output matches Ok(t) && c.stream() == t && c.protocols()
                    == self.protocols(),
                Err(e) => output matches Err(e0) && e == e0,
            },
    {
        match output {
            Ok(inner) => Ok(
                AlpnConfigured { inner, protocols: clone_protocol_list(&self.protocols) },
            ),
            Err(err) => Err(err),
        }
    }
}

/// A raw stream paired transiently with the requested protocol list; it
/// lives only between the protocol-tag decorator and the handshake stage,
/// and is consumed when unwrapped.
#[derive(Debug)]
pub struct AlpnConfigured<T> {
    inner: T,
    protocols: Vec<Vec<u8>>,
}

impl<T> AlpnConfigured<T> {
    /// The tagged stream.
    pub closed spec fn stream(&self) -> T {
        self.inner
    }

    /// The attached protocol list.
    pub closed spec fn protocols(&self) -> Seq<Seq<u8>> {
        self.protocols.deep_view()
    }

    /// Consume the pairing: the stream and the attached list.
    pub fn into_parts(self) -> (r: (T, Vec<Vec<u8>>))
        ensures
            r.0 == self.stream(),
            r.1.deep_view() == self.protocols(),
    {
        (self.inner, self.protocols)
    }
}

} // verus!
