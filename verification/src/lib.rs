//! Verified core of an HTTPS connector.
//!
//! The crate establishes one secure connection per request: it resolves a
//! URI into a `(host, port)` target, lets a transport stage open a raw
//! stream, optionally tags the stream with an ordered application-protocol
//! list, derives a per-connection handshake configuration from a shared
//! immutable base, and drives the security handshake through an explicit
//! per-connection state machine.  All decision logic lives here with
//! contracts; the asynchronous I/O that carries it out lives outside.

pub mod tcp;
pub mod tls;
pub mod uri;
