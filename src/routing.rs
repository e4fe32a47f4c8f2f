use vstd::prelude::*;
use crate::address::SocketAddress;
use std::collections::HashMap;

verus! {

broadcast use vstd::std_specs::hash::group_hash_axioms;

/// The kind of node a board identifier stands for.
#[derive(Clone, Copy, Debug, PartialEq, Eq, Structural)]
pub enum DeviceType {
    Sam,
    Bms,
    FlightComputer,
    ControlServer,
}

/// Where a board is reached, and what it is.
#[derive(Clone, Copy, Debug, PartialEq, Eq, Structural)]
pub struct Route {
    pub device_type: DeviceType,
    pub address: SocketAddress,
}

/// Failure to resolve a board identifier.
#[derive(Clone, Copy, Debug, PartialEq, Eq, Structural)]
pub enum RouteError {
    NotFound,
}

/// What a lookup of `id` in a table with contents `m` returns.
pub open spec fn lookup_spec(m: Map<u32, Route>, id: u32) -> Result<Route, RouteError> {
    if m.contains_key(id) {
        Ok(m[id])
    } else {
        Err(RouteError::NotFound)
    }
}

/// The table that results from merging the updates `u` into `t`.
pub open spec fn merged(t: Map<u32, Route>, u: Map<u32, Route>) -> Map<u32, Route> {
    t.union_prefer_right(u)
}

/// Resolution of board identifiers to routes: at most one route per board.
pub struct RoutingTable {
    routes: HashMap<u32, Route>,
}

impl View for RoutingTable {
    type V = Map<u32, Route>;

    closed spec fn view(&self) -> Map<u32, Route> {
        self.routes@
    }
}

impl RoutingTable {
    pub fn new() -> (r: RoutingTable)
        ensures
            r@ == Map::<u32, Route>::empty(),
    {
        RoutingTable { routes: HashMap::new() }
    }

    /// The route of board `id`, or `NotFound` where the table holds none.
    pub fn lookup(&self, id: u32) -> (r: Result<Route, RouteError>)
        ensures
            r == lookup_spec(self@, id),
    {
        match self.routes.get(&id) {
            Some(route) => Ok(*route),
            None => Err(RouteError::NotFound),
        }
    }

    /// Sets the route of board `id`, replacing any route it had.
    pub fn insert(&mut self, id: u32, route: Route)
        ensures
            final(self)@ == old(self)@.insert(id, route),
    {
        self.routes.insert(id, route);
    }

    /// Merges `updates` into the table: every board of `updates` takes its
    /// route from there, every other board keeps its own.
    pub fn merge(&mut self, updates: &RoutingTable)
        ensures
            final(self)@ == merged(old(self)@, updates@),
    {
        let ghost start = self@;
        let ghost u = updates@;
        for pair in it: updates.routes.iter()
            invariant
                u == updates.routes@,
                forall|j: int|
                    0 <= j < it.seq().len() ==> u.contains_key(*#[trigger] it.seq()[j].0)
                        && u[*it.seq()[j].0] == *it.seq()[j].1,
                forall|k: u32| #[trigger] u.contains_key(k) ==> it.seq().contains((&k, &u[k])),
                forall|j: int|
                    0 <= j < it.index() ==> self@.contains_key(*#[trigger] it.seq()[j].0)
                        && self@[*it.seq()[j].0] == u[*it.seq()[j].0],
                forall|k: u32|
                    !(exists|j: int| 0 <= j < it.index() && *it.seq()[j].0 == k) ==> (
                    #[trigger] self@.contains_key(k) <==> start.contains_key(k)) && (start.contains_key(k)
                        ==> self@[k] == start[k]),
                it.index() == it.seq().len() ==> forall|k: u32|
                    #[trigger] u.contains_key(k) ==> self@.contains_key(k) && self@[k] == u[k],
        {
            let (id, route) = pair;
            let ghost i = it.index();
            let ghost before = self@;
            self.routes.insert(*id, *route);
            proof {
                assert(*it.seq()[i].0 == *id && *it.seq()[i].1 == *route);
                assert forall|j: int| 0 <= j < i + 1 implies self@.contains_key(
                    *#[trigger] it.seq()[j].0,
                ) && self@[*it.seq()[j].0] == u[*it.seq()[j].0] by {
                    if *it.seq()[j].0 != *id {
                        assert(self@[*it.seq()[j].0] == before[*it.seq()[j].0]);
                    }
                }
                assert forall|k: u32|
                    !(exists|j: int| 0 <= j < i + 1 && *it.seq()[j].0 == k) implies (
                    #[trigger] self@.contains_key(k) <==> start.contains_key(k)) && (start.contains_key(k)
                        ==> self@[k] == start[k]) by {
                    assert(*it.seq()[i].0 != k);
                    if exists|j: int| 0 <= j < i && *it.seq()[j].0 == k {
                        let j = choose|j: int| 0 <= j < i && *it.seq()[j].0 == k;
                        assert(0 <= j < i + 1 && *it.seq()[j].0 == k);
                    }
                }
                assert forall|k: u32| i + 1 == it.seq().len() && #[trigger] u.contains_key(k) implies self@.contains_key(k) && self@[k] == u[k] by {
                    let j = choose|j: int| 0 <= j < it.seq().len() && it.seq()[j] == (&k, &u[k]);
                    assert(*it.seq()[j].0 == k);
                }
            }
        }
        assert forall|k: u32| !#[trigger] u.contains_key(k) implies (self@.contains_key(k) <==> start.contains_key(k)) && (start.contains_key(k) ==> self@[k] == start[k]) by {
        }
        assert(self@ =~= merged(start, u));
    }

    /// A copy of the table.
    pub fn duplicate(&self) -> (r: RoutingTable)
        ensures
            r@ == self@,
    {
        RoutingTable { routes: self.routes.clone() }
    }
}

/// Merging keeps every route of the table that the updates do not name, and
/// gives every board that the updates name the route they give it.
pub proof fn merge_is_additive(t: Map<u32, Route>, u: Map<u32, Route>)
    ensures
        forall|k: u32| t.contains_key(k) && !u.contains_key(k) ==> #[trigger] merged(t, u).contains_key(k)
            && merged(t, u)[k] == t[k],
        forall|k: u32| u.contains_key(k) ==> #[trigger] merged(t, u).contains_key(k) && merged(t, u)[k]
            == u[k],
        forall|k: u32| #[trigger] merged(t, u).contains_key(k) ==> t.contains_key(k) || u.contains_key(k),
{
}

/// After merging the single route `route` of board `id` into an empty table,
/// looking `id` up yields that route, and looking up any other board fails
/// with `NotFound`.
pub proof fn lookup_after_merge(id: u32, route: Route, other: u32)
    requires
        other != id,
    ensures
        lookup_spec(merged(Map::empty(), map![id => route]), id) == Ok::<Route, RouteError>(route),
        lookup_spec(merged(Map::empty(), map![id => route]), other) == Err::<Route, RouteError>(
            RouteError::NotFound,
        ),
{
}

} // verus!
