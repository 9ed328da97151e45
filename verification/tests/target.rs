use hyper_rustls::tcp::{self, resolve_target, TargetError};
use hyper_rustls::uri::Uri;

fn uri(scheme: Option<&str>, host: Option<&str>, port: Option<u16>) -> Uri {
    Uri::new(
        scheme.map(|s| s.to_string()),
        host.map(|h| h.to_string()),
        port,
    )
}

#[test]
fn explicit_port_wins_over_scheme() {
    let t = resolve_target(&uri(Some("https"), Some("example.com"), Some(8443))).unwrap();
    assert_eq!(t.host, "example.com");
    assert_eq!(t.port, 8443);

    let t = resolve_target(&uri(Some("http"), Some("example.com"), Some(8080))).unwrap();
    assert_eq!(t.port, 8080);

    let t = resolve_target(&uri(None, Some("example.com"), Some(8080))).unwrap();
    assert_eq!(t.port, 8080);
}

#[test]
fn https_defaults_to_443() {
    let t = resolve_target(&uri(Some("https"), Some("example.com"), None)).unwrap();
    assert_eq!(t.host, "example.com");
    assert_eq!(t.port, 443);
}

#[test]
fn other_schemes_default_to_80() {
    let t = resolve_target(&uri(Some("http"), Some("example.com"), None)).unwrap();
    assert_eq!(t.port, 80);

    let t = resolve_target(&uri(None, Some("example.com"), None)).unwrap();
    assert_eq!(t.port, 80);

    let t = resolve_target(&uri(Some("ftp"), Some("example.com"), None)).unwrap();
    assert_eq!(t.port, 80);

    // The default is case- and content-exact: only "https" gives 443.
    let t = resolve_target(&uri(Some("HTTPS"), Some("example.com"), None)).unwrap();
    assert_eq!(t.port, 80);
}

#[test]
fn missing_host_is_invalid_target() {
    let r = resolve_target(&uri(Some("https"), None, Some(443)));
    assert!(matches!(r, Err(TargetError::InvalidTarget)));

    let r = resolve_target(&uri(Some("https"), Some(""), None));
    assert!(matches!(r, Err(TargetError::InvalidTarget)));
}

#[test]
fn end_to_end_http_with_port() {
    // http://example.com:8080/ resolves target ("example.com", 8080).
    let t = resolve_target(&uri(Some("http"), Some("example.com"), Some(8080))).unwrap();
    assert_eq!((t.host.as_str(), t.port), ("example.com", 8080));
}

#[test]
fn connector_stage_resolves_and_is_ready() {
    let c = tcp::tokio::tokio();
    assert!(c.ready());
    let t = c.target(&uri(Some("https"), Some("example.com"), None)).unwrap();
    assert_eq!((t.host.as_str(), t.port), ("example.com", 443));

    let c = tcp::smol::smol();
    assert!(c.ready());
    let r = c.target(&uri(None, None, None));
    assert!(matches!(r, Err(TargetError::InvalidTarget)));
}
