//! The security handshake stage.
//!
//! A pipeline is assembled once with an immutable base configuration and
//! an identity-resolution policy.  Each connection then runs the
//! per-connection state machine of [`TlsService::step`]: resolve the peer
//! identity (failing fast, before the inner stage is invoked), obtain the
//! inner stage's output, unwrap an attached protocol tag, derive the
//! effective configuration, and drive the handshake.  A tagged connection
//! gets a connection-scoped copy of the base with the protocol list
//! overridden; an untagged connection reuses the shared base as it is.
//! The base is never mutated, so concurrent connections always observe
//! its original value.
//!
//! The asynchronous work an action names — dialing, the handshake record
//! exchange — is the embedding application's; it reports each outcome
//! back as the next event.

use vstd::prelude::*;

use crate::tcp::{ConnectionTargetView, TargetError, spec_resolve_target};
use crate::tls::alpn::{AlpnConfigured, clone_protocol_list};
use crate::tls::{DefaultServerNameResolver, ResolveError, ResolveErrorView, ResolveServerName,
    ServerIdentity};
use crate::uri::Uri;

verus! {

/// Ghost image of a [`HandshakeConfig`].
pub ghost struct HandshakeConfigView {
    pub trust_roots: Seq<Seq<u8>>,
    pub alpn_protocols: Seq<Seq<u8>>,
}

/// The security-handshake configuration: trust material and protocol
/// preferences.  The pipeline-scoped base is immutable; per-connection
/// values are derived by [`derive_config`].
pub struct HandshakeConfig {
    /// Trust anchors, as opaque certificate blobs.
    pub trust_roots: Vec<Vec<u8>>,
    /// Application-protocol preference list offered in the handshake.
    pub alpn_protocols: Vec<Vec<u8>>,
}

impl View for HandshakeConfig {
    type V = HandshakeConfigView;

    open spec fn view(&self) -> HandshakeConfigView {
        HandshakeConfigView {
            trust_roots: self.trust_roots.deep_view(),
            alpn_protocols: self.alpn_protocols.deep_view(),
        }
    }
}

impl HandshakeConfig {
    /// A configuration with the given trust material and no protocol
    /// preference.
    pub fn new(trust_roots: Vec<Vec<u8>>) -> (r: HandshakeConfig)
        ensures
            r@.trust_roots == trust_roots.deep_view(),
            r@.alpn_protocols == Seq::<Seq<u8>>::empty(),
    {
        let alpn_protocols: Vec<Vec<u8>> = Vec::new();
        proof {
            assert(alpn_protocols.deep_view() =~~= Seq::<Seq<u8>>::empty());
        }
        HandshakeConfig { trust_roots, alpn_protocols }
    }

    /// An exact copy.
    pub fn duplicate(&self) -> (r: HandshakeConfig)
        ensures
            r@ == self@,
    {
        let r = HandshakeConfig {
            trust_roots: clone_protocol_list(&self.trust_roots),
            alpn_protocols: clone_protocol_list(&self.alpn_protocols),
        };
        proof {
            assert(r@ =~~= self@);
        }
        r
    }
}

/// The configuration a connection's handshake runs with: the shared base
/// when the connection carries no protocol tag, else a connection-scoped
/// copy of the base with the protocol list overridden.  The base itself is
/// never changed.
pub open spec fn spec_derive(base: HandshakeConfigView, tag: Option<Seq<Seq<u8>>>)
    -> HandshakeConfigView {
    match tag {
        None => base,
        Some(p) => HandshakeConfigView { trust_roots: base.trust_roots, alpn_protocols: p },
    }
}

/// Derive the effective configuration for one connection.  The base is
/// read, never written; a tagged connection gets a fresh connection-scoped
/// value.
pub fn derive_config(base: &HandshakeConfig, tag: Option<Vec<Vec<u8>>>) -> (r: HandshakeConfig)
    ensures
        r@ == spec_derive(base@, (match tag {
            Some(p) => Some(p.deep_view()),
            None => None,
        })),
{
    match tag {
        None => {
            let r = base.duplicate();
            r
        },
        Some(p) => {
            let r = HandshakeConfig {
                trust_roots: clone_protocol_list(&base.trust_roots),
                alpn_protocols: p,
            };
            proof {
                assert(r@ =~~= spec_derive(base@, Some(p.deep_view())));
            }
            r
        },
    }
}

/// The normalized error a connection fails with.  Heterogeneous failures
/// — identity resolution, the inner stage, the handshake — all surface
/// through this one type at the stage boundary, each keeping its
/// underlying cause; every connection fails at most once, and never falls
/// back to an unencrypted stream.
#[derive(Debug)]
pub enum TlsError {
    /// The URI has no host to derive an identity from.
    MissingHost,
    /// The host does not parse as a handshake identity.
    InvalidIdentity {
        /// The underlying parse error, rendered.
        cause: String,
    },
    /// The inner stage failed to produce a raw stream.
    Transport {
        /// The inner stage's own error, rendered.
        cause: String,
    },
    /// The security handshake failed.
    Handshake {
        /// The handshake collaborator's error, rendered.
        cause: String,
    },
}

/// Ghost image of a [`TlsError`].
pub ghost enum TlsErrorView {
    MissingHost,
    InvalidIdentity { cause: Seq<char> },
    Transport { cause: Seq<char> },
    Handshake { cause: Seq<char> },
}

impl View for TlsError {
    type V = TlsErrorView;

    open spec fn view(&self) -> TlsErrorView {
        match self {
            TlsError::MissingHost => TlsErrorView::MissingHost,
            TlsError::InvalidIdentity { cause } => TlsErrorView::InvalidIdentity {
                cause: cause@,
            },
            TlsError::Transport { cause } => TlsErrorView::Transport { cause: cause@ },
            TlsError::Handshake { cause } => TlsErrorView::Handshake { cause: cause@ },
        }
    }
}

/// Normalize an identity-resolution failure into the stage's error type,
/// keeping its cause.
pub fn normalize_resolve_error(e: ResolveError) -> (r: TlsError)
    ensures
        match e {
            ResolveError::MissingHost => r@ == TlsErrorView::MissingHost,
            ResolveError::InvalidIdentity { cause } => r@ == (TlsErrorView::InvalidIdentity {
                cause: cause@,
            }),
        },
{
    match e {
        ResolveError::MissingHost => TlsError::MissingHost,
        ResolveError::InvalidIdentity { cause } => TlsError::InvalidIdentity { cause },
    }
}

/// What the handshake stage receives from its prior stage: a raw stream,
/// or a stream the protocol-tag decorator paired with a list.
pub enum TlsSource<T> {
    /// Output of an undecorated transport stage.
    Raw(T),
    /// Output of a protocol-tag decorator.
    Tagged(AlpnConfigured<T>),
}

impl<T> TlsSource<T> {
    /// Unwrap the prior stage's output: the raw stream, and the protocol
    /// list exactly when the output was tagged.
    pub fn into_parts(self) -> (r: (T, Option<Vec<Vec<u8>>>))
        ensures
            match self {
                TlsSource::Raw(t) => r.0 == t && r.1 is None,
                TlsSource::Tagged(c) => r.0 == c.stream() && (r.1 matches Some(p)
                    && p.deep_view() == c.protocols()),
            },
    {
        match self {
            TlsSource::Raw(t) => (t, None),
            TlsSource::Tagged(c) => {
                let (stream, protocols) = c.into_parts();
                (stream, Some(protocols))
            },
        }
    }
}

/// Factory for the handshake stage: the shared base configuration and the
/// identity-resolution policy, supplied once at pipeline construction.
pub struct TlsLayer<R> {
    config: HandshakeConfig,
    resolver: R,
}

/// Build a handshake layer with the default identity-resolution policy.
pub fn layer(config: HandshakeConfig) -> (r: TlsLayer<DefaultServerNameResolver>)
    ensures
        r.base_config() == config,
        r.resolver() == DefaultServerNameResolver,
{
    TlsLayer { config, resolver: DefaultServerNameResolver }
}

/// Build a handshake layer with a custom identity-resolution policy.
pub fn layer_with_resolver<R: ResolveServerName>(config: HandshakeConfig, resolver: R) -> (r:
    TlsLayer<R>)
    ensures
        r.base_config() == config,
        r.resolver() == resolver,
{
    TlsLayer { config, resolver }
}

impl<R> TlsLayer<R> {
    /// The shared base configuration.
    pub closed spec fn base_config(&self) -> HandshakeConfig {
        self.config
    }

    /// The identity-resolution policy.
    pub closed spec fn resolver(&self) -> R {
        self.resolver
    }

    /// Wrap an inner stage into a handshake stage sharing this layer's
    /// configuration and policy.
    pub fn layer<S>(self, inner: S) -> (r: TlsService<S, R>)
        ensures
            r.base_config() == self.base_config(),
            r.resolver() == self.resolver(),
            r.wrapped() == inner,
    {
        TlsService { inner, config: self.config, resolver: self.resolver }
    }
}

/// The security handshake stage: wraps a prior stage producing a raw or
/// tagged stream, and secures each connection per [`TlsService::step`].
/// Its readiness is the inner stage's readiness.
pub struct TlsService<S, R> {
    inner: S,
    config: HandshakeConfig,
    resolver: R,
}

/// The per-connection states, in the order a connection passes them.
/// `Secured` and `Failed` are terminal; there is no retry transition.
pub enum HandshakeState {
    /// Nothing happened yet.
    Idle,
    /// The peer identity is resolved; no I/O has been attempted.
    IdentityResolved {
        /// The resolved handshake identity.
        identity: ServerIdentity,
    },
    /// The inner stage produced its output, not yet unwrapped.
    InnerConnected {
        /// The resolved handshake identity.
        identity: ServerIdentity,
    },
    /// The output is unwrapped into a raw stream and an optional tag.
    Unwrapped {
        /// The resolved handshake identity.
        identity: ServerIdentity,
        /// The protocol list the output was tagged with, if any.
        alpn: Option<Vec<Vec<u8>>>,
    },
    /// The effective configuration for this connection is derived.
    ConfigDerived {
        /// The resolved handshake identity.
        identity: ServerIdentity,
        /// The connection's effective configuration.
        config: HandshakeConfig,
    },
    /// The handshake is being driven.
    HandshakeInFlight {
        /// The resolved handshake identity.
        identity: ServerIdentity,
        /// The connection's effective configuration.
        config: HandshakeConfig,
    },
    /// Terminal: the encrypted stream belongs to the caller.
    Secured,
    /// Terminal: the connection failed, exactly once, with one error.
    Failed {
        /// The normalized failure.
        error: TlsError,
    },
}

/// What the driving loop reports into the state machine.
pub enum ConnEvent {
    /// A connection request entered the stage.
    Request {
        /// The request URI.
        uri: Uri,
    },
    /// The inner stage produced its output.
    InnerOk,
    /// The inner stage failed; `cause` is its error, rendered.
    InnerFailed {
        /// The inner stage's error, rendered.
        cause: String,
    },
    /// The output was unwrapped ([`TlsSource::into_parts`]).
    UnwrapDone {
        /// The protocol list the output carried, if any.
        alpn: Option<Vec<Vec<u8>>>,
    },
    /// No outside work pending; take the next internal step.
    Advance,
    /// The handshake succeeded.
    HandshakeDone,
    /// The handshake failed; `cause` is the collaborator's error, rendered.
    HandshakeFailed {
        /// The collaborator's error, rendered.
        cause: String,
    },
}

/// What the state machine asks the driving loop to do next.
pub enum ConnAction {
    /// Await the inner stage's readiness, then call it.
    CallInner,
    /// Unwrap the inner output with [`TlsSource::into_parts`].
    Unwrap,
    /// Nothing external: call [`TlsService::step`] again with
    /// [`ConnEvent::Advance`].
    Continue,
    /// Drive the security handshake with this configuration and identity.
    PerformHandshake {
        /// The connection's effective configuration.
        config: HandshakeConfig,
        /// The peer identity to authenticate.
        identity: ServerIdentity,
    },
    /// Terminal; the state is `Secured` or `Failed`.
    Stop,
}

/// The transitions the per-connection machine defines: which event each
/// state accepts.
pub open spec fn step_enabled(state: HandshakeState, event: ConnEvent) -> bool {
    match (state, event) {
        (HandshakeState::Idle, ConnEvent::Request { .. }) => true,
        (HandshakeState::IdentityResolved { .. }, ConnEvent::InnerOk) => true,
        (HandshakeState::IdentityResolved { .. }, ConnEvent::InnerFailed { .. }) => true,
        (HandshakeState::InnerConnected { .. }, ConnEvent::UnwrapDone { .. }) => true,
        (HandshakeState::Unwrapped { .. }, ConnEvent::Advance) => true,
        (HandshakeState::ConfigDerived { .. }, ConnEvent::Advance) => true,
        (HandshakeState::HandshakeInFlight { .. }, ConnEvent::HandshakeDone) => true,
        (HandshakeState::HandshakeInFlight { .. }, ConnEvent::HandshakeFailed { .. }) => true,
        _ => false,
    }
}

/// A resolution failure and the normalized error it surfaces as: the
/// variant corresponds, and an identity-parse failure keeps a cause.
pub open spec fn resolve_failure_view(ev: ResolveErrorView, e: TlsErrorView) -> bool {
    match ev {
        ResolveErrorView::MissingHost => e == TlsErrorView::MissingHost,
        ResolveErrorView::InvalidIdentity => e matches TlsErrorView::InvalidIdentity { .. },
    }
}

impl<S, R> TlsService<S, R> {
    /// The shared base configuration.
    pub closed spec fn base_config(&self) -> HandshakeConfig {
        self.config
    }

    /// The identity-resolution policy.
    pub closed spec fn resolver(&self) -> R {
        self.resolver
    }

    /// The wrapped inner stage.
    pub closed spec fn wrapped(&self) -> S {
        self.inner
    }

    /// The wrapped inner stage; its readiness is this stage's readiness.
    pub fn inner_stage(&self) -> (r: &S)
        ensures
            *r == self.wrapped(),
    {
        &self.inner
    }

    /// The shared base configuration, read-only.
    pub fn config_ref(&self) -> (r: &HandshakeConfig)
        ensures
            *r == self.base_config(),
    {
        &self.config
    }
}

impl<S, R: ResolveServerName> TlsService<S, R> {
    /// The transition relation of [`TlsService::step`]: given the state
    /// and the event, the next state and action it returns.
    pub open spec fn post(
        &self,
        state: HandshakeState,
        event: ConnEvent,
        s2: HandshakeState,
        a: ConnAction,
    ) -> bool {
        match (state, event) {
            (HandshakeState::Idle, ConnEvent::Request { uri }) => match self.resolver()
                .resolve_spec(uri@) {
                Ok(name) => (s2 matches HandshakeState::IdentityResolved { identity }
                    && identity@ == name && identity.wf()) && a is CallInner,
                Err(ev) => (s2 matches HandshakeState::Failed { error }
                    && resolve_failure_view(ev, error@)) && a is Stop,
            },
            (HandshakeState::IdentityResolved { identity }, ConnEvent::InnerOk) => s2
                == (HandshakeState::InnerConnected { identity }) && a is Unwrap,
            (
                HandshakeState::IdentityResolved { identity },
                ConnEvent::InnerFailed { cause },
            ) => s2 == (HandshakeState::Failed { error: TlsError::Transport { cause } })
                && a is Stop,
            (
                HandshakeState::InnerConnected { identity },
                ConnEvent::UnwrapDone { alpn },
            ) => s2 == (HandshakeState::Unwrapped { identity, alpn }) && a is Continue,
            (HandshakeState::Unwrapped { identity, alpn }, ConnEvent::Advance) => (s2
                matches HandshakeState::ConfigDerived { identity: id2, config }
                && id2 == identity && config@ == spec_derive(self.base_config()@, (match alpn {
                    Some(p) => Some(p.deep_view()),
                    None => None,
                }))) && a is Continue,
            (HandshakeState::ConfigDerived { identity, config }, ConnEvent::Advance) => s2
                == (HandshakeState::HandshakeInFlight { identity, config }) && (a matches
                ConnAction::PerformHandshake { config: c2, identity: id2 } && c2@ == config@
                && id2@ == identity@ && id2.wf() == identity.wf()),
            (HandshakeState::HandshakeInFlight { .. }, ConnEvent::HandshakeDone) => s2
                is Secured && a is Stop,
            (
                HandshakeState::HandshakeInFlight { .. },
                ConnEvent::HandshakeFailed { cause },
            ) => s2 == (HandshakeState::Failed { error: TlsError::Handshake { cause } })
                && a is Stop,
            _ => false,
        }
    }

    /// Take one per-connection step: consume the current state and the
    /// event the driving loop reports, return the next state and the next
    /// action.
    ///
    /// The ordering of one connection is strict: the identity is resolved
    /// on the request event, before any action asks for the inner stage;
    /// a resolution failure stops the connection with no I/O attempted.
    /// Failures of the inner stage and of the handshake surface exactly
    /// once, normalized, keeping their cause.
    pub fn step(&self, state: HandshakeState, event: ConnEvent) -> (r: (
        HandshakeState,
        ConnAction,
    ))
        requires
            step_enabled(state, event),
        ensures
            self.post(state, event, r.0, r.1),
    {
        match (state, event) {
            (HandshakeState::Idle, ConnEvent::Request { uri }) => {
                match self.resolver.resolve(&uri) {
                    Ok(identity) => (
                        HandshakeState::IdentityResolved { identity },
                        ConnAction::CallInner,
                    ),
                    Err(e) => {
                        let error = normalize_resolve_error(e);
                        (HandshakeState::Failed { error }, ConnAction::Stop)
                    },
                }
            },
            (HandshakeState::IdentityResolved { identity }, ConnEvent::InnerOk) => (
                HandshakeState::InnerConnected { identity },
                ConnAction::Unwrap,
            ),
            (HandshakeState::IdentityResolved { identity: _ }, ConnEvent::InnerFailed {
                cause,
            }) => (
                HandshakeState::Failed { error: TlsError::Transport { cause } },
                ConnAction::Stop,
            ),
            (HandshakeState::InnerConnected { identity }, ConnEvent::UnwrapDone { alpn }) => (
                HandshakeState::Unwrapped { identity, alpn },
                ConnAction::Continue,
            ),
            (HandshakeState::Unwrapped { identity, alpn }, ConnEvent::Advance) => {
                let config = derive_config(&self.config, alpn);
                (HandshakeState::ConfigDerived { identity, config }, ConnAction::Continue)
            },
            (HandshakeState::ConfigDerived { identity, config }, ConnEvent::Advance) => {
                let config_copy = config.duplicate();
                let identity_copy = identity.duplicate();
                (
                    HandshakeState::HandshakeInFlight { identity, config },
                    ConnAction::PerformHandshake {
                        config: config_copy,
                        identity: identity_copy,
                    },
                )
            },
            (HandshakeState::HandshakeInFlight { .. }, ConnEvent::HandshakeDone) => (
                HandshakeState::Secured,
                ConnAction::Stop,
            ),
            (HandshakeState::HandshakeInFlight { .. }, ConnEvent::HandshakeFailed { cause }) => (
                HandshakeState::Failed { error: TlsError::Handshake { cause } },
                ConnAction::Stop,
            ),
            _ => unreached(),
        }
    }
}

/// Law: deriving a connection-scoped configuration never touches the
/// shared base — while one connection derives with a tag, a concurrent
/// untagged connection still observes and reuses the base exactly as it
/// was.
pub proof fn lemma_base_config_stable(base: HandshakeConfigView, p: Seq<Seq<u8>>)
    ensures
        spec_derive(base, Some(p)).trust_roots == base.trust_roots,
        spec_derive(base, Some(p)).alpn_protocols == p,
        spec_derive(base, None) == base,
{
}

/// Law: of two connections through one pipeline, the one tagged with a
/// protocol list derives a configuration whose list is exactly that tag,
/// with the base's trust material; the untagged one derives the base
/// configuration itself, unchanged.
pub proof fn lemma_tagged_untagged_configs<S, R: ResolveServerName>(
    svc: TlsService<S, R>,
    id1: ServerIdentity,
    alpn1: Vec<Vec<u8>>,
    id2: ServerIdentity,
    s1: HandshakeState,
    a1: ConnAction,
    s2: HandshakeState,
    a2: ConnAction,
)
    requires
        svc.post(
            HandshakeState::Unwrapped { identity: id1, alpn: Some(alpn1) },
            ConnEvent::Advance,
            s1,
            a1,
        ),
        svc.post(
            HandshakeState::Unwrapped { identity: id2, alpn: None },
            ConnEvent::Advance,
            s2,
            a2,
        ),
    ensures
        s1 matches HandshakeState::ConfigDerived { config, .. } && config@.alpn_protocols
            == alpn1.deep_view() && config@.trust_roots == svc.base_config()@.trust_roots,
        s2 matches HandshakeState::ConfigDerived { config, .. } && config@
            == svc.base_config()@,
{
}

/// Law: the handshake is invoked with exactly the configuration and
/// identity derived for the connection — nothing is substituted between
/// derivation and the handshake action.
pub proof fn lemma_handshake_uses_derived_config<S, R: ResolveServerName>(
    svc: TlsService<S, R>,
    identity: ServerIdentity,
    config: HandshakeConfig,
    s2: HandshakeState,
    a: ConnAction,
)
    requires
        svc.post(
            HandshakeState::ConfigDerived { identity, config },
            ConnEvent::Advance,
            s2,
            a,
        ),
    ensures
        a matches ConnAction::PerformHandshake { config: c2, identity: id2 } && c2@ == config@
            && id2@ == identity@,
        s2 == (HandshakeState::HandshakeInFlight { identity, config }),
{
}

/// Law: whenever identity resolution rejects the request, the machine
/// stops at once — the inner stage is never asked to dial, so no I/O is
/// attempted on a resolution failure.
pub proof fn lemma_resolution_failure_stops<S, R: ResolveServerName>(
    svc: TlsService<S, R>,
    uri: Uri,
    s2: HandshakeState,
    a: ConnAction,
)
    requires
        svc.resolver().resolve_spec(uri@) is Err,
        svc.post(HandshakeState::Idle, ConnEvent::Request { uri }, s2, a),
    ensures
        s2 matches HandshakeState::Failed { .. },
        a is Stop,
        !(a is CallInner),
{
}

/// Law: a URI without a host fails target resolution and default
/// identity resolution alike, and the handshake stage stops the
/// connection at the request event, before any inner-stage work.
pub proof fn lemma_no_host_fails_fast<S>(
    svc: TlsService<S, DefaultServerNameResolver>,
    uri: Uri,
    s2: HandshakeState,
    a: ConnAction,
)
    requires
        uri@.host is None,
        svc.post(HandshakeState::Idle, ConnEvent::Request { uri }, s2, a),
    ensures
        spec_resolve_target(uri@) == Err::<ConnectionTargetView, TargetError>(
            TargetError::InvalidTarget,
        ),
        svc.resolver().resolve_spec(uri@) == Err::<Seq<char>, ResolveErrorView>(
            ResolveErrorView::MissingHost,
        ),
        s2 matches HandshakeState::Failed { error } && error@ == TlsErrorView::MissingHost,
        a is Stop,
        !(a is CallInner),
{
}

/// Law: when the inner transport fails after the identity has already
/// resolved, the connection surfaces exactly one normalized error that
/// still carries the transport cause — the earlier resolution success
/// does not mask it.
pub proof fn lemma_transport_failure_keeps_cause<S, R: ResolveServerName>(
    svc: TlsService<S, R>,
    identity: ServerIdentity,
    cause: String,
    s2: HandshakeState,
    a: ConnAction,
)
    requires
        svc.post(
            HandshakeState::IdentityResolved { identity },
            ConnEvent::InnerFailed { cause },
            s2,
            a,
        ),
    ensures
        s2 matches HandshakeState::Failed { error } && error@ == (TlsErrorView::Transport {
            cause: cause@,
        }),
        a is Stop,
{
}

} // verus!
