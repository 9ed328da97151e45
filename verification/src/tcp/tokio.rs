//! Transport stage on the multi-thread-friendly substrate.

use vstd::prelude::*;

use crate::tcp::TcpConnector;

verus! {

/// Dialer marker for the multi-threaded substrate.  The dial itself is
/// asynchronous I/O and lives with the embedding application; every stage
/// above sees only the [`TcpConnector`] contract.
#[derive(Clone, Copy)]
pub struct TokioTcp;

/// Build the transport connect stage on the multi-threaded substrate.
pub fn tokio() -> (r: TcpConnector<TokioTcp>)
    ensures
        r.dialer() == (TokioTcp {  }),
{
    TcpConnector::new(TokioTcp)
}

} // verus!
