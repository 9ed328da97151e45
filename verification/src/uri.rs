//! Connection-request URI, reduced to the components this crate reads.
//!
//! A request names its peer by scheme, host and optional port; everything
//! else in a URI (path, query) is irrelevant to connection establishment.
//! Callers that hold a full parsed URI hand over these three components as
//! plain values.

use vstd::prelude::*;

verus! {

/// The view of an optional string component.
pub open spec fn opt_str_view(s: Option<String>) -> Option<Seq<char>> {
    match s {
        Some(s) => Some(s@),
        None => None,
    }
}

/// Ghost image of a [`Uri`]: the three components as mathematical values.
pub ghost struct UriView {
    pub scheme: Option<Seq<char>>,
    pub host: Option<Seq<char>>,
    pub port: Option<u16>,
}

/// The components of a connection-request URI that target and identity
/// resolution read.
///
/// `host` is `None` when the URI has no authority part; a present host may
/// still be empty, which every resolver in this crate rejects.
pub struct Uri {
    /// URI scheme, lower-case, e.g. `"https"`; `None` when absent.
    pub scheme: Option<String>,
    /// Host component, exactly as written in the URI (a bracketed address
    /// literal keeps its brackets here); `None` when absent.
    pub host: Option<String>,
    /// Explicit port, `None` when the URI names no port.
    pub port: Option<u16>,
}

impl View for Uri {
    type V = UriView;

    open spec fn view(&self) -> UriView {
        UriView {
            scheme: opt_str_view(self.scheme),
            host: opt_str_view(self.host),
            port: self.port,
        }
    }
}

impl Uri {
    /// Build a URI from its components.
    pub fn new(scheme: Option<String>, host: Option<String>, port: Option<u16>) -> (r: Uri)
        ensures
            r@.scheme == opt_str_view(scheme),
            r@.host == opt_str_view(host),
            r@.port == port,
    {
        Uri { scheme, host, port }
    }
}

} // verus!
