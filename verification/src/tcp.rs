//! Target resolution and the transport connect stage.
//!
//! A connection request enters the pipeline as a [`Uri`]; this module turns
//! it into a [`ConnectionTarget`] — the `(host, port)` pair the transport
//! layer dials.  The explicit port of the URI wins; without one, scheme
//! `"https"` defaults to 443 and anything else (including no scheme) to 80.
//! A URI without a usable host is rejected before any I/O.

use vstd::prelude::*;

use crate::uri::{Uri, UriView, opt_str_view};

pub mod smol;
pub mod tokio;

verus! {

/// Failure of target resolution: the URI lacks a usable host.
#[derive(Debug)]
pub enum TargetError {
    /// The URI has no host, or an empty one.
    InvalidTarget,
}

/// Ghost image of a [`ConnectionTarget`].
pub ghost struct ConnectionTargetView {
    pub host: Seq<char>,
    pub port: u16,
}

/// The resolved dial target of one connection request.
///
/// Invariant: the host is non-empty — a URI without a host fails
/// resolution instead of producing a zero value.
pub struct ConnectionTarget {
    /// Host to dial, exactly as it stood in the URI.
    pub host: String,
    /// Port to dial, explicit or scheme-default.
    pub port: u16,
}

impl View for ConnectionTarget {
    type V = ConnectionTargetView;

    open spec fn view(&self) -> ConnectionTargetView {
        ConnectionTargetView { host: self.host@, port: self.port }
    }
}

impl ConnectionTarget {
    /// The host is non-empty.
    pub open spec fn wf(&self) -> bool {
        self.host@.len() > 0
    }
}

/// The scheme component is exactly `"https"`.
pub open spec fn spec_is_https(scheme: Option<Seq<char>>) -> bool {
    scheme == Some("https"@)
}

/// Port used when the URI names none: 443 for `"https"`, 80 otherwise.
pub open spec fn spec_default_port(scheme: Option<Seq<char>>) -> u16 {
    if spec_is_https(scheme) {
        443u16
    } else {
        80u16
    }
}

/// The port a URI resolves to: its explicit port if present, else the
/// scheme default.
pub open spec fn spec_port(u: UriView) -> u16 {
    match u.port {
        Some(p) => p,
        None => spec_default_port(u.scheme),
    }
}

/// Target resolution: a non-empty host paired with [`spec_port`], or
/// rejection when the URI has no usable host.
pub open spec fn spec_resolve_target(u: UriView) -> Result<ConnectionTargetView, TargetError> {
    match u.host {
        None => Err(TargetError::InvalidTarget),
        Some(h) => if h.len() == 0 {
            Err(TargetError::InvalidTarget)
        } else {
            Ok(ConnectionTargetView { host: h, port: spec_port(u) })
        },
    }
}

/// Law: a URI with an explicit port resolves to exactly that port,
/// whatever its scheme.
pub proof fn lemma_explicit_port_wins(u: UriView, p: u16)
    requires
        u.port == Some(p),
    ensures
        spec_port(u) == p,
        spec_resolve_target(u) matches Ok(t) ==> t.port == p,
{
}

/// Law: a URI without an explicit port resolves to port 443 when its
/// scheme is exactly `"https"`, and to port 80 otherwise (any other
/// scheme, or none).
pub proof fn lemma_scheme_default_port(u: UriView)
    requires
        u.port is None,
    ensures
        spec_is_https(u.scheme) ==> spec_port(u) == 443,
        !spec_is_https(u.scheme) ==> spec_port(u) == 80,
        spec_resolve_target(u) matches Ok(t) ==> t.port == spec_default_port(u.scheme),
{
}

/// Whether the scheme is exactly `"https"`.
fn is_https_scheme(scheme: &Option<String>) -> (b: bool)
    ensures
        b == spec_is_https(opt_str_view(*scheme)),
{
    match scheme {
        Some(s) => {
            let https: String = "https".to_owned();
            *s == https
        },
        None => false,
    }
}

/// Resolve a URI into the target the transport stage dials.
///
/// Succeeds exactly on URIs with a non-empty host; the explicit port wins
/// over the scheme default.  No side effects.
pub fn resolve_target(uri: &Uri) -> (r: Result<ConnectionTarget, TargetError>)
    ensures
        match r {
            Ok(t) => spec_resolve_target(uri@) == Ok::<ConnectionTargetView, TargetError>(t@)
                && t.wf(),
            Err(e) => spec_resolve_target(uri@) == Err::<ConnectionTargetView, TargetError>(e),
        },
{
    let host: String = match &uri.host {
        Some(h) => {
            if h.as_str().is_empty() {
                return Err(TargetError::InvalidTarget);
            }
            h.clone()
        },
        None => {
            return Err(TargetError::InvalidTarget);
        },
    };
    let port: u16 = match uri.port {
        Some(p) => p,
        None => if is_https_scheme(&uri.scheme) {
            443
        } else {
            80
        },
    };
    Ok(ConnectionTarget { host, port })
}

/// The transport connect stage: resolves the target of each request and
/// hands it to the substrate-specific dialer `C` it was built with.
///
/// The stage keeps no queue, so its readiness check always succeeds; the
/// dial itself is the caller's asynchronous work.
#[derive(Clone)]
pub struct TcpConnector<C> {
    inner: C,
}

impl<C> TcpConnector<C> {
    /// The dialer this stage was built with.
    pub closed spec fn dialer(&self) -> C {
        self.inner
    }

    /// Build the stage around a substrate-specific dialer.
    pub fn new(inner: C) -> (r: TcpConnector<C>)
        ensures
            r.dialer() == inner,
    {
        TcpConnector { inner }
    }

    /// Readiness check: this stage queues nothing, so it is always ready.
    pub fn ready(&self) -> (b: bool)
        ensures
            b,
    {
        true
    }

    /// The dialer this stage was built with.
    pub fn connector(&self) -> (r: &C)
        ensures
            *r == self.dialer(),
    {
        &self.inner
    }

    /// Resolve the target of one connection request; the decision half of
    /// the stage's call.  Fails exactly when the URI has no usable host,
    /// before any dial is attempted.
    pub fn target(&self, uri: &Uri) -> (r: Result<ConnectionTarget, TargetError>)
        ensures
            match r {
                Ok(t) => spec_resolve_target(uri@) == Ok::<ConnectionTargetView, TargetError>(t@)
                    && t.wf(),
                Err(e) => spec_resolve_target(uri@) == Err::<ConnectionTargetView, TargetError>(e),
            },
    {
        resolve_target(uri)
    }
}

} // verus!
