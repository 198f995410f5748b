//! The echo conformance capability.

use vstd::prelude::*;

verus! {

/// A server that replies to every request by echoing the input.
#[derive(Debug)]
pub struct EchoServer;

impl EchoServer {
    /// Returns the message verbatim, for every message, the empty one
    /// included.
    pub fn echo(&self, message: String) -> (reply: String)
        ensures
            reply@ == message@,
    {
        message
    }
}

} // verus!
