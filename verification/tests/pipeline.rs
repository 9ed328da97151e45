use hyper_rustls::tcp;
use hyper_rustls::tls::alpn::{alpn, clone_protocol_list};
use hyper_rustls::tls::handshake::{
    self, derive_config, normalize_resolve_error, ConnAction, ConnEvent, HandshakeConfig,
    HandshakeState, TlsError, TlsSource,
};
use hyper_rustls::tls::ResolveError;
use hyper_rustls::uri::Uri;

fn https_uri(host: &str) -> Uri {
    Uri::new(Some("https".to_string()), Some(host.to_string()), None)
}

fn base_config() -> HandshakeConfig {
    HandshakeConfig {
        trust_roots: vec![vec![0x30, 0x82], vec![0x30, 0x81]],
        alpn_protocols: vec![b"http/1.1".to_vec()],
    }
}

#[test]
fn alpn_layer_tags_successful_output() {
    let protocols = vec![b"h2".to_vec(), b"http/1.1".to_vec()];
    let layer = alpn(clone_protocol_list(&protocols));
    let service = layer.layer(tcp::tokio::tokio());

    let tagged = service.tag_output(Ok::<u32, String>(7)).unwrap();
    let (stream, list) = tagged.into_parts();
    assert_eq!(stream, 7);
    assert_eq!(list, protocols);

    let err = service
        .tag_output(Err::<u32, String>("refused".to_string()))
        .unwrap_err();
    assert_eq!(err, "refused");
}

#[test]
fn tls_source_unwraps_raw_and_tagged() {
    let (stream, tag) = TlsSource::Raw(5u32).into_parts();
    assert_eq!(stream, 5);
    assert!(tag.is_none());

    let protocols = vec![b"h2".to_vec()];
    let layer = alpn(clone_protocol_list(&protocols));
    let service = layer.layer(tcp::tokio::tokio());
    let tagged = service.tag_output(Ok::<u32, String>(9)).unwrap();
    let (stream, tag) = TlsSource::Tagged(tagged).into_parts();
    assert_eq!(stream, 9);
    assert_eq!(tag.unwrap(), protocols);
}

#[test]
fn fresh_config_has_no_protocol_preference() {
    let c = HandshakeConfig::new(vec![vec![0x30]]);
    assert!(c.alpn_protocols.is_empty());
    assert_eq!(c.trust_roots, vec![vec![0x30]]);
}

#[test]
fn config_derivation_overrides_without_touching_base() {
    let base = base_config();
    let tag = vec![b"h2".to_vec()];

    let derived = derive_config(&base, Some(tag.clone()));
    assert_eq!(derived.alpn_protocols, tag);
    assert_eq!(derived.trust_roots, base.trust_roots);

    // The shared base, observed by a concurrent untagged connection, is
    // unchanged: deriving without a tag still yields the original value.
    assert_eq!(base.alpn_protocols, vec![b"http/1.1".to_vec()]);
    let untouched = derive_config(&base, None);
    assert_eq!(untouched.alpn_protocols, base.alpn_protocols);
    assert_eq!(untouched.trust_roots, base.trust_roots);
}

/// Drive one connection through the machine up to the handshake action,
/// feeding it the given tag; returns the effective config and identity of
/// the `PerformHandshake` action.
fn run_to_handshake(
    service: &handshake::TlsService<tcp::TcpConnector<tcp::tokio::TokioTcp>,
        hyper_rustls::tls::DefaultServerNameResolver>,
    host: &str,
    tag: Option<Vec<Vec<u8>>>,
) -> (HandshakeConfig, String) {
    let (state, action) = service.step(HandshakeState::Idle, ConnEvent::Request {
        uri: https_uri(host),
    });
    assert!(matches!(action, ConnAction::CallInner));
    let (state, action) = service.step(state, ConnEvent::InnerOk);
    assert!(matches!(action, ConnAction::Unwrap));
    let (state, action) = service.step(state, ConnEvent::UnwrapDone { alpn: tag });
    assert!(matches!(action, ConnAction::Continue));
    let (state, action) = service.step(state, ConnEvent::Advance);
    assert!(matches!(action, ConnAction::Continue));
    let (state, action) = service.step(state, ConnEvent::Advance);
    assert!(matches!(state, HandshakeState::HandshakeInFlight { .. }));
    match action {
        ConnAction::PerformHandshake { config, identity } => {
            (config, identity.as_str().to_string())
        }
        _ => panic!("expected a handshake action"),
    }
}

#[test]
fn tagged_and_untagged_connections_share_one_base() {
    let layer = handshake::layer(base_config());
    let service = layer.layer(tcp::tokio::tokio());
    let p1 = vec![b"h2".to_vec()];

    let (tagged_config, _) = run_to_handshake(&service, "example.com", Some(p1.clone()));
    let (untagged_config, _) = run_to_handshake(&service, "example.com", None);

    // The tagged connection's handshake runs with protocol list p1; the
    // untagged one runs with a config identical to the original base.
    assert_eq!(tagged_config.alpn_protocols, p1);
    assert_eq!(tagged_config.trust_roots, base_config().trust_roots);
    assert_eq!(untagged_config.alpn_protocols, base_config().alpn_protocols);
    assert_eq!(untagged_config.trust_roots, base_config().trust_roots);
}

#[test]
fn end_to_end_https_untagged() {
    // https://example.com/ with the default resolver and no tag: target
    // ("example.com", 443), identity "example.com", handshake invoked
    // with the unmodified shared base config.
    let target = tcp::resolve_target(&https_uri("example.com")).unwrap();
    assert_eq!((target.host.as_str(), target.port), ("example.com", 443));

    let layer = handshake::layer(base_config());
    let service = layer.layer(tcp::tokio::tokio());
    let (config, identity) = run_to_handshake(&service, "example.com", None);
    assert_eq!(identity, "example.com");
    assert_eq!(config.alpn_protocols, base_config().alpn_protocols);
    assert_eq!(config.trust_roots, base_config().trust_roots);

    // The handshake succeeds; the connection ends secured.
    let in_flight = HandshakeState::HandshakeInFlight {
        identity: hyper_rustls::tls::ServerIdentity::new("example.com".to_string()).unwrap(),
        config,
    };
    let (state, action) = service.step(in_flight, ConnEvent::HandshakeDone);
    assert!(matches!(state, HandshakeState::Secured));
    assert!(matches!(action, ConnAction::Stop));
}

#[test]
fn missing_host_stops_before_inner_stage() {
    let layer = handshake::layer(base_config());
    let service = layer.layer(tcp::tokio::tokio());
    let no_host = Uri::new(Some("https".to_string()), None, None);
    let (state, action) = service.step(HandshakeState::Idle, ConnEvent::Request {
        uri: no_host,
    });
    assert!(matches!(action, ConnAction::Stop));
    match state {
        HandshakeState::Failed { error } => assert!(matches!(error, TlsError::MissingHost)),
        _ => panic!("expected a failed connection"),
    }
}

#[test]
fn transport_failure_surfaces_its_cause() {
    let layer = handshake::layer(base_config());
    let service = layer.layer(tcp::tokio::tokio());
    let (state, action) = service.step(HandshakeState::Idle, ConnEvent::Request {
        uri: https_uri("example.com"),
    });
    assert!(matches!(action, ConnAction::CallInner));
    let (state, action) = service.step(state, ConnEvent::InnerFailed {
        cause: "connection refused".to_string(),
    });
    assert!(matches!(action, ConnAction::Stop));
    match state {
        HandshakeState::Failed { error } => match error {
            TlsError::Transport { cause } => assert_eq!(cause, "connection refused"),
            _ => panic!("expected a transport error"),
        },
        _ => panic!("expected a failed connection"),
    }
}

#[test]
fn handshake_failure_surfaces_its_cause() {
    let layer = handshake::layer(base_config());
    let service = layer.layer(tcp::tokio::tokio());
    let (config, _) = run_to_handshake(&service, "example.com", None);
    let identity = hyper_rustls::tls::ServerIdentity::new("example.com".to_string()).unwrap();
    let in_flight = HandshakeState::HandshakeInFlight { identity, config };
    let (state, action) = service.step(in_flight, ConnEvent::HandshakeFailed {
        cause: "bad certificate".to_string(),
    });
    assert!(matches!(action, ConnAction::Stop));
    match state {
        HandshakeState::Failed { error } => match error {
            TlsError::Handshake { cause } => assert_eq!(cause, "bad certificate"),
            _ => panic!("expected a handshake error"),
        },
        _ => panic!("expected a failed connection"),
    }
}

#[test]
fn unparsable_host_fails_with_normalized_cause() {
    let layer = handshake::layer(base_config());
    let service = layer.layer(tcp::tokio::tokio());
    let (state, action) = service.step(HandshakeState::Idle, ConnEvent::Request {
        uri: https_uri("exa mple.com"),
    });
    assert!(matches!(action, ConnAction::Stop));
    match state {
        HandshakeState::Failed { error } => match error {
            TlsError::InvalidIdentity { cause } => assert!(!cause.is_empty()),
            _ => panic!("expected an identity error"),
        },
        _ => panic!("expected a failed connection"),
    }
}

#[test]
fn resolve_errors_normalize_and_keep_causes() {
    let e = normalize_resolve_error(ResolveError::MissingHost);
    assert!(matches!(e, TlsError::MissingHost));
    let e = normalize_resolve_error(ResolveError::InvalidIdentity {
        cause: "not a name".to_string(),
    });
    match e {
        TlsError::InvalidIdentity { cause } => assert_eq!(cause, "not a name"),
        _ => panic!("expected an identity error"),
    }
}
