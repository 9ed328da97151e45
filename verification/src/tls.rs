//! Server-identity resolution for the security handshake.
//!
//! Before any I/O, the handshake stage turns the request URI into a
//! [`ServerIdentity`]: the canonical peer name the handshake authenticates.
//! The default policy takes the URI host, strips one pair of address-literal
//! brackets if present, and accepts the result exactly when the name parser
//! of the security library does.  The policy is pluggable through
//! [`ResolveServerName`]; a custom resolver may ignore the URI entirely.

use vstd::prelude::*;
use vstd::string::StrSliceExecFns;

use crate::uri::{Uri, UriView};

pub mod alpn;
pub mod handshake;

verus! {

/// What [`rustls_pki_types::ServerName::try_from`] accepts: the set of
/// strings that parse as a DNS name or as an IP address literal.  The
/// outcome depends on the string alone.
pub uninterp spec fn server_name_accepts(name: Seq<char>) -> bool;

/// Relies on `rustls_pki_types::ServerName::try_from(&str)`: it accepts a
/// string exactly when it is a valid DNS name or IP address literal, and
/// its outcome is a function of the string alone; on rejection the error's
/// rendered message is returned as the cause.
#[verifier::external_body]
fn check_server_name(name: &str) -> (r: Result<(), String>)
    ensures
        r is Ok <==> server_name_accepts(name@),
{
    match rustls_pki_types::ServerName::try_from(name) {
        Ok(_) => Ok(()),
        Err(err) => Err(format!("{}", err)),
    }
}

/// Identity-resolution failure, raised before the inner stage runs.
#[derive(Debug)]
pub enum ResolveError {
    /// The URI has no host to derive an identity from.
    MissingHost,
    /// The host does not parse as a handshake identity; `cause` is the
    /// parser's message.
    InvalidIdentity {
        /// The underlying parse error, rendered.
        cause: String,
    },
}

/// Ghost image of a [`ResolveError`]: the variant, without the opaque
/// parser message.
pub ghost enum ResolveErrorView {
    MissingHost,
    InvalidIdentity,
}

impl View for ResolveError {
    type V = ResolveErrorView;

    open spec fn view(&self) -> ResolveErrorView {
        match self {
            ResolveError::MissingHost => ResolveErrorView::MissingHost,
            ResolveError::InvalidIdentity { .. } => ResolveErrorView::InvalidIdentity,
        }
    }
}

/// The canonical peer identity the security handshake authenticates.
///
/// Invariant: the name is one the security library's parser accepts, so a
/// handshake can always be attempted with it.
#[derive(Debug)]
pub struct ServerIdentity {
    name: String,
}

impl View for ServerIdentity {
    type V = Seq<char>;

    closed spec fn view(&self) -> Seq<char> {
        self.name@
    }
}

impl ServerIdentity {
    /// The name was accepted by the security library's parser.
    pub closed spec fn wf(&self) -> bool {
        server_name_accepts(self.name@)
    }

    #[verifier::type_invariant]
    spec fn type_inv(self) -> bool {
        server_name_accepts(self.name@)
    }

    /// Construct an identity from a canonical (already bracket-stripped)
    /// name; succeeds exactly when the security library accepts the name.
    pub fn new(name: String) -> (r: Result<ServerIdentity, ResolveError>)
        ensures
            match r {
                Ok(id) => server_name_accepts(name@) && id@ == name@ && id.wf(),
                Err(e) => !server_name_accepts(name@) && e@ == ResolveErrorView::InvalidIdentity,
            },
    {
        match check_server_name(name.as_str()) {
            Ok(_) => Ok(ServerIdentity { name }),
            Err(cause) => Err(ResolveError::InvalidIdentity { cause }),
        }
    }

    /// The canonical name.
    pub fn as_str(&self) -> (r: &str)
        ensures
            r@ == self@,
    {
        self.name.as_str()
    }

    /// A second identity with the same name.
    pub fn duplicate(&self) -> (r: ServerIdentity)
        ensures
            r@ == self@,
            r.wf(),
    {
        proof {
            use_type_invariant(&*self);
        }
        ServerIdentity { name: self.name.clone() }
    }
}

/// The string wears address-literal delimiters: a leading `[` and a
/// trailing `]`.
pub open spec fn spec_bracketed(h: Seq<char>) -> bool {
    h.len() >= 2 && h[0] == '[' && h[h.len() - 1] == ']'
}

/// One pair of address-literal brackets removed: exactly one leading `[`
/// and one trailing `]`, and only when both are present; any other string
/// is left as it is.
pub open spec fn spec_strip_brackets(h: Seq<char>) -> Seq<char> {
    if spec_bracketed(h) {
        h.subrange(1, h.len() - 1)
    } else {
        h
    }
}

/// Law: bracket stripping is exact — it removes exactly one leading and
/// one trailing delimiter, and only when both are present — and stripping
/// again changes nothing once the result is no longer bracketed.
pub proof fn lemma_strip_brackets_exact(h: Seq<char>)
    ensures
        spec_bracketed(h) ==> spec_strip_brackets(h) == h.subrange(1, h.len() - 1),
        !spec_bracketed(h) ==> spec_strip_brackets(h) == h,
        !spec_bracketed(spec_strip_brackets(h)) ==> spec_strip_brackets(
            spec_strip_brackets(h),
        ) == spec_strip_brackets(h),
{
}

/// Law: under the default policy, a host written as a bracketed address
/// literal resolves to the same identity as the same host written without
/// its brackets, whatever the rest of the two URIs — as long as the inner
/// form is not itself bracketed once more.
pub proof fn lemma_bracketed_host_same_identity(u1: UriView, u2: UriView, h: Seq<char>)
    requires
        spec_bracketed(h),
        !spec_bracketed(h.subrange(1, h.len() - 1)),
        u1.host == Some(h),
        u2.host == Some(h.subrange(1, h.len() - 1)),
    ensures
        (DefaultServerNameResolver {  }).resolve_spec(u1) == (DefaultServerNameResolver {
             }).resolve_spec(u2),
{
    let inner = h.subrange(1, h.len() - 1);
    assert(spec_strip_brackets(h) == inner);
    assert(spec_strip_brackets(inner) == inner);
}

/// Strip one pair of address-literal brackets from a host string.
pub fn strip_brackets(host: &str) -> (r: String)
    ensures
        r@ == spec_strip_brackets(host@),
{
    let n: usize = host.unicode_len();
    if n >= 2 && host.get_char(0) == '[' && host.get_char(n - 1) == ']' {
        host.substring_char(1, n - 1).to_owned()
    } else {
        host.to_owned()
    }
}

/// The pluggable identity-resolution policy.
///
/// The handshake stage depends only on this interface; an embedding
/// application may substitute any policy (a fixed identity, a rewritten
/// peer name).  `resolve_spec` is the policy as a mathematical function,
/// up to the opaque message carried by a rejection.
pub trait ResolveServerName {
    /// The policy itself: which name, or which failure, each URI maps to.
    spec fn resolve_spec(&self, uri: UriView) -> Result<Seq<char>, ResolveErrorView>;

    /// Derive the handshake identity for one request.  No side effects;
    /// returns exactly what `resolve_spec` says.
    fn resolve(&self, uri: &Uri) -> (r: Result<ServerIdentity, ResolveError>)
        ensures
            match r {
                Ok(id) => self.resolve_spec(uri@) == Ok::<Seq<char>, ResolveErrorView>(id@)
                    && id.wf(),
                Err(e) => self.resolve_spec(uri@) == Err::<Seq<char>, ResolveErrorView>(e@),
            },
    ;
}

/// The default policy: the URI host, bracket-stripped, accepted exactly
/// when the security library's name parser accepts it.
#[derive(Clone, Copy)]
pub struct DefaultServerNameResolver;

impl ResolveServerName for DefaultServerNameResolver {
    open spec fn resolve_spec(&self, uri: UriView) -> Result<Seq<char>, ResolveErrorView> {
        match uri.host {
            None => Err(ResolveErrorView::MissingHost),
            Some(h) => if server_name_accepts(spec_strip_brackets(h)) {
                Ok(spec_strip_brackets(h))
            } else {
                Err(ResolveErrorView::InvalidIdentity)
            },
        }
    }

    fn resolve(&self, uri: &Uri) -> (r: Result<ServerIdentity, ResolveError>) {
        let host: &String = match &uri.host {
            Some(h) => h,
            None => {
                return Err(ResolveError::MissingHost);
            },
        };
        let name = strip_brackets(host.as_str());
        ServerIdentity::new(name)
    }
}

/// A resolution policy that ignores the URI and always yields one fixed
/// identity — for virtual hosting, or for tests that pin the handshake
/// peer name.
pub struct FixedServerNameResolver {
    identity: ServerIdentity,
}

impl FixedServerNameResolver {
    /// The identity every request resolves to.
    pub closed spec fn fixed(&self) -> Seq<char> {
        self.identity@
    }

    /// Build the policy around an already-validated identity.
    pub fn new(identity: ServerIdentity) -> (r: FixedServerNameResolver)
        ensures
            r.fixed() == identity@,
    {
        FixedServerNameResolver { identity }
    }
}

impl ResolveServerName for FixedServerNameResolver {
    open spec fn resolve_spec(&self, uri: UriView) -> Result<Seq<char>, ResolveErrorView> {
        Ok(self.fixed())
    }

    fn resolve(&self, uri: &Uri) -> (r: Result<ServerIdentity, ResolveError>) {
        proof {
            use_type_invariant(&self.identity);
        }
        Ok(self.identity.duplicate())
    }
}

} // verus!
