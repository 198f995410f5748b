//! Teleop lets a client attach to an already-running local process by its ID
//! and drive it over a capability channel.
//!
//! The target process arms an attacher and waits; the client provokes it with
//! an out-of-band wake-up (a witness file plus, for some variants, a signal),
//! then connects to a rendezvous socket whose existence is the acknowledgment.
//! Each connection is served by a router that resolves service names to
//! lazily-built capabilities.
//!
//! The crate holds the decision logic of that protocol: path construction,
//! the cancellation token, the per-variant attach state machines, the connect
//! retry budget, and the service router. The surrounding I/O (signals,
//! filesystem watches, sockets, the RPC transport) is driven by a thin
//! unverified shell that feeds observations into these machines and carries
//! out the actions they return.

use vstd::prelude::*;

pub mod attach;
pub mod cancellation;
pub mod internal;
pub mod operate;

verus! {

/// Why an attach operation failed.
#[derive(Clone, Copy, Debug, PartialEq, Eq, Structural)]
pub enum AttachError {
    /// The target PID could not be mapped to a working directory.
    ResolveTargetCwd,
    /// A filesystem or socket operation failed.
    Io,
    /// The connect retry budget was exhausted without the socket appearing.
    NoResponse,
}

impl AttachError {
    /// A human-readable description of the error.
    pub fn message(&self) -> (m: &'static str)
        ensures
            *self is ResolveTargetCwd ==> m@ == "Cannot find process working directory"@,
            *self is Io ==> m@ == "I/O error"@,
            *self is NoResponse ==> m@ == "target process doesn't respond"@,
    {
        match self {
            AttachError::ResolveTargetCwd => "Cannot find process working directory",
            AttachError::Io => "I/O error",
            AttachError::NoResponse => "target process doesn't respond",
        }
    }
}

} // verus!
