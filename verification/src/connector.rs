//! How to reach a target that resolves to several endpoints: they are
//! tried in order, and the first that answers is the connection.

use vstd::prelude::*;
use crate::addr::SocketEndpoint;
use crate::error::IoErrorKind;

verus! {

/// What to do next while connecting.
#[derive(Debug, Eq, PartialEq, Copy, Clone)]
pub enum ConnectStep {
    /// Try to connect to this endpoint.
    Try(SocketEndpoint),
    /// Every endpoint has failed, or there was none: give up with this.
    GiveUp(IoErrorKind),
}

/// What `tcp_connect` decides: the endpoint that comes after those that
/// have failed; with none left, the failure of the last attempt; with
/// none at all, that the address is not available.
pub open spec fn next_attempt(
    endpoints: Seq<SocketEndpoint>,
    failures: Seq<IoErrorKind>,
) -> ConnectStep {
    if failures.len() < endpoints.len() {
        ConnectStep::Try(endpoints[failures.len() as int])
    } else if failures.len() == 0 {
        ConnectStep::GiveUp(IoErrorKind::AddrNotAvailable)
    } else {
        ConnectStep::GiveUp(failures.last())
    }
}

/// Decides the next step of connecting to the first of `endpoints` that
/// answers, where `failures` holds how each attempt so far has failed, in
/// the order of the endpoints. The caller resolves the target, makes the
/// attempts and stops at the first that succeeds.
pub fn tcp_connect(endpoints: &[SocketEndpoint], failures: &[IoErrorKind]) -> (step: ConnectStep)
    ensures
        step == next_attempt(endpoints@, failures@),
{
    let attempted = failures.len();
    if attempted < endpoints.len() {
        ConnectStep::Try(endpoints[attempted])
    } else if attempted == 0 {
        ConnectStep::GiveUp(IoErrorKind::AddrNotAvailable)
    } else {
        ConnectStep::GiveUp(failures[attempted - 1])
    }
}

} // verus!
