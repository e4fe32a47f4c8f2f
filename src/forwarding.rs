use vstd::prelude::*;
use crate::address::SocketAddress;

verus! {

/// Port of the server that receives the forwarded vehicle state.
pub const FORWARD_PORT: u16 = 7201;

/// Port from which the vehicle state is forwarded.
pub const FORWARD_SOURCE_PORT: u16 = 8765;

/// Period between two forwards, in milliseconds.
pub const FORWARD_PERIOD_MILLIS: u64 = 100;

/// Periodically pushes the vehicle state to the server.
pub struct ForwardingAgent {
    pub period_millis: u64,
}

impl ForwardingAgent {
    pub fn new() -> (r: ForwardingAgent)
        ensures
            r.period_millis == FORWARD_PERIOD_MILLIS,
    {
        ForwardingAgent { period_millis: FORWARD_PERIOD_MILLIS }
    }

    /// The address the state goes to once the server's host is resolved
    /// (`None` while it is not).
    pub fn server_target(&self, server_ip: Option<u32>) -> (r: Option<SocketAddress>)
        ensures
            r == match server_ip {
                Some(ip) => Some(SocketAddress { ip, port: FORWARD_PORT }),
                None => None::<SocketAddress>,
            },
    {
        match server_ip {
            Some(ip) => Some(SocketAddress { ip, port: FORWARD_PORT }),
            None => None,
        }
    }

    /// The local address the agent sends from: any interface, on its own port.
    pub fn source_address(&self) -> (r: SocketAddress)
        ensures
            r == (SocketAddress { ip: 0, port: FORWARD_SOURCE_PORT }),
    {
        SocketAddress { ip: 0, port: FORWARD_SOURCE_PORT }
    }
}

} // verus!
