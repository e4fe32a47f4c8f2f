use vstd::prelude::*;
use crate::address::SocketAddress;
use crate::routing::{lookup_spec, merged, Route, RouteError, RoutingTable};

verus! {

/// The destination board named by a packet's routing header: its first four
/// bytes, least significant first. A shorter packet has no header.
pub open spec fn header_board_id(p: Seq<u8>) -> Option<u32> {
    if p.len() >= 4 {
        Some(
            (p[0] as int + p[1] as int * 0x100 + p[2] as int * 0x10000 + p[3] as int * 0x1000000) as u32,
        )
    } else {
        None
    }
}

/// Reads the destination board of a packet from its routing header.
pub fn parse_header(payload: &[u8]) -> (r: Option<u32>)
    ensures
        r == header_board_id(payload@),
{
    if payload.len() >= 4 {
        let id: u32 = payload[0] as u32 + payload[1] as u32 * 0x100 + payload[2] as u32 * 0x10000
            + payload[3] as u32 * 0x1000000;
        Some(id)
    } else {
        None
    }
}

/// The route that a packet's header resolves to in a table with contents `m`.
pub open spec fn destination_spec(m: Map<u32, Route>, p: Seq<u8>) -> Option<Route> {
    match header_board_id(p) {
        Some(id) => match lookup_spec(m, id) {
            Ok(route) => Some(route),
            Err(_) => None,
        },
        None => None,
    }
}

/// Resolves the destination of a packet: the route of the board that its
/// header names, if the packet has a header and the board is known.
pub fn destination(table: &RoutingTable, payload: &[u8]) -> (r: Option<Route>)
    ensures
        r == destination_spec(table@, payload@),
{
    match parse_header(payload) {
        Some(id) => match table.lookup(id) {
            Ok(route) => Some(route),
            Err(_) => None,
        },
        None => None,
    }
}

/// What to do with a packet that came in from a board.
#[derive(Clone, Copy, Debug, PartialEq, Eq, Structural)]
pub enum BoardPacketRoute {
    /// Addressed to this computer: deliver it again over the datagram socket.
    Local(SocketAddress),
    /// Relay it whole to the control server over the stream.
    Server,
    /// No destination could be resolved: drop it.
    Drop,
}

/// The routing decision for a packet from a board, in a table with contents `m`:
/// a destination on the wildcard host is this computer itself.
pub open spec fn board_route_spec(m: Map<u32, Route>, p: Seq<u8>) -> BoardPacketRoute {
    match destination_spec(m, p) {
        Some(route) => if route.address.spec_is_wildcard() {
            BoardPacketRoute::Local(route.address)
        } else {
            BoardPacketRoute::Server
        },
        None => BoardPacketRoute::Drop,
    }
}

/// Relays datagrams between the boards: runs on the flight computer and
/// forwards each packet, unchanged, to the address its header resolves to.
pub struct BoardCommunicator {
    pub addr: SocketAddress,
    pub mappings: RoutingTable,
    pub deployed: bool,
}

impl BoardCommunicator {
    pub fn new(addr: SocketAddress) -> (r: BoardCommunicator)
        ensures
            r.addr == addr,
            r.mappings@ == Map::<u32, Route>::empty(),
            !r.deployed,
    {
        BoardCommunicator { addr, mappings: RoutingTable::new(), deployed: false }
    }

    /// The route of board `board_id`; `NotFound` where none is mapped.
    pub fn get_mappings(&self, board_id: u32) -> (r: Result<Route, RouteError>)
        ensures
            r == lookup_spec(self.mappings@, board_id),
    {
        self.mappings.lookup(board_id)
    }

    /// Merges `updates` into the routes and returns the whole resulting table.
    pub fn update_mappings(&mut self, updates: &RoutingTable) -> (r: RoutingTable)
        ensures
            final(self).mappings@ == merged(old(self).mappings@, updates@),
            final(self).addr == old(self).addr,
            final(self).deployed == old(self).deployed,
            r@ == final(self).mappings@,
    {
        self.mappings.merge(updates);
        self.mappings.duplicate()
    }

    /// Where a received packet is to be relayed: the address of the board
    /// that its header names, if that board is mapped.
    pub fn relay_target(&self, payload: &[u8]) -> (r: Option<SocketAddress>)
        ensures
            r == match destination_spec(self.mappings@, payload@) {
                Some(route) => Some(route.address),
                None => None::<SocketAddress>,
            },
    {
        match destination(&self.mappings, payload) {
            Some(route) => Some(route.address),
            None => None,
        }
    }
}

/// Bridges the control server's stream and the boards' datagrams.
pub struct ControlServerCommunicator {
    pub addr: SocketAddress,
    pub mappings: RoutingTable,
    pub deployed: bool,
}

impl ControlServerCommunicator {
    pub fn new(addr: SocketAddress) -> (r: ControlServerCommunicator)
        ensures
            r.addr == addr,
            r.mappings@ == Map::<u32, Route>::empty(),
            !r.deployed,
    {
        ControlServerCommunicator { addr, mappings: RoutingTable::new(), deployed: false }
    }

    /// The route of board `board_id`; `NotFound` where none is mapped.
    pub fn get_mappings(&self, board_id: u32) -> (r: Result<Route, RouteError>)
        ensures
            r == lookup_spec(self.mappings@, board_id),
    {
        self.mappings.lookup(board_id)
    }

    /// Merges `updates` into the routes and returns the whole resulting table.
    pub fn update_mappings(&mut self, updates: &RoutingTable) -> (r: RoutingTable)
        ensures
            final(self).mappings@ == merged(old(self).mappings@, updates@),
            final(self).addr == old(self).addr,
            final(self).deployed == old(self).deployed,
            r@ == final(self).mappings@,
    {
        self.mappings.merge(updates);
        self.mappings.duplicate()
    }

    /// Routing of a packet received from a board.
    pub fn route_board_packet(&self, payload: &[u8]) -> (r: BoardPacketRoute)
        ensures
            r == board_route_spec(self.mappings@, payload@),
    {
        match destination(&self.mappings, payload) {
            Some(route) => if route.address.is_wildcard() {
                BoardPacketRoute::Local(route.address)
            } else {
                BoardPacketRoute::Server
            },
            None => BoardPacketRoute::Drop,
        }
    }

    /// Routing of data received from the control server: the address of the
    /// board that its header names, if that board is mapped.
    pub fn route_server_packet(&self, payload: &[u8]) -> (r: Option<SocketAddress>)
        ensures
            r == match destination_spec(self.mappings@, payload@) {
                Some(route) => Some(route.address),
                None => None::<SocketAddress>,
            },
    {
        match destination(&self.mappings, payload) {
            Some(route) => Some(route.address),
            None => None,
        }
    }
}

/// A packet from a board whose destination lies on the wildcard host is
/// delivered again locally, to that destination, and never sent to the server.
pub proof fn wildcard_destination_loops_back(m: Map<u32, Route>, p: Seq<u8>)
    requires
        destination_spec(m, p) is Some,
        destination_spec(m, p).unwrap().address.ip == 0,
    ensures
        board_route_spec(m, p) == BoardPacketRoute::Local(destination_spec(m, p).unwrap().address),
        board_route_spec(m, p) != BoardPacketRoute::Server,
{
}

} // verus!
