use vstd::prelude::*;

verus! {

/// Port on which the boards listen for control messages.
pub const SAM_PORT: u16 = 8378;

/// An IPv4 socket address: the host as a 32-bit number (most significant
/// byte first, as written in dotted form) and a port.
#[derive(Clone, Copy, Debug, PartialEq, Eq, Structural)]
pub struct SocketAddress {
    pub ip: u32,
    pub port: u16,
}

impl SocketAddress {
    /// Whether the host is the wildcard address `0.0.0.0`.
    pub open spec fn spec_is_wildcard(self) -> bool {
        self.ip == 0
    }

    pub fn is_wildcard(&self) -> (r: bool)
        ensures
            r == self.spec_is_wildcard(),
    {
        self.ip == 0
    }
}

} // verus!
