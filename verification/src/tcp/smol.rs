//! Transport stage on the cooperative, single-thread-friendly substrate.

use vstd::prelude::*;

use crate::tcp::TcpConnector;

verus! {

/// Dialer marker for the cooperative substrate.  The dial itself is
/// asynchronous I/O and lives with the embedding application; every stage
/// above sees only the [`TcpConnector`] contract.
#[derive(Clone, Copy)]
pub struct SmolTcp;

/// Build the transport connect stage on the cooperative substrate.
pub fn smol() -> (r: TcpConnector<SmolTcp>)
    ensures
        r.dialer() == (SmolTcp {  }),
{
    TcpConnector::new(SmolTcp)
}

} // verus!
