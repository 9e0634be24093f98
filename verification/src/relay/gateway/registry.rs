//! The in-memory registry of connections, sessions and transfers.
//!
//! Nothing here is persisted: a relay restart drops every connection, and
//! agents reconnect with backoff, so the state rebuilds itself. Each
//! connection is known by its handle, of a type the application chooses,
//! and by a connection number the application gives each socket, which
//! tells a connection from the one that replaced it.

use vstd::prelude::*;
use crate::relay::gateway::table::IdTable;

verus! {

/// One message queued for a socket.
#[derive(Debug, Clone)]
pub enum Outbound {
    Text(String),
    Binary(Vec<u8>),
    Ping,
    Close(u16, String),
}

impl Outbound {
    /// The bytes the message puts on the wire, as the writer counts them
    /// against its drain budget.
    pub open spec fn spec_byte_len(&self) -> nat {
        match self {
            Outbound::Text(s) => vstd::utf8::encode_utf8(s@).len(),
            Outbound::Binary(b) => b@.len(),
            Outbound::Ping => 0,
            Outbound::Close(_, r) => vstd::utf8::encode_utf8(r@).len(),
        }
    }

    pub fn byte_len(&self) -> (r: usize)
        ensures
            r == self.spec_byte_len() as usize,
    {
        match self {
            Outbound::Text(s) => s.as_str().len(),
            Outbound::Binary(b) => b.len(),
            Outbound::Ping => 0,
            Outbound::Close(_, r) => r.as_str().len(),
        }
    }
}

/// Slots of a socket's control lane, which carries JSON and terminal frames.
pub const CONTROL_CAPACITY: usize = 256;
/// Slots of a socket's file lane: 64 chunks of 256 KiB reach the 16 MiB
/// ceiling, so a sender that respects its credit cannot fill it.
pub const FILE_CAPACITY: usize = 64;

/// Why a message could not be queued.
#[derive(Debug, Clone, Copy, PartialEq, Eq, Structural)]
pub enum SendError {
    Full,
    Closed,
}

/// Which account and device a session or transfer joins.
#[derive(Debug, Clone, Copy, PartialEq, Eq, Structural)]
pub struct Route {
    pub user_id: u128,
    pub device_id: u128,
}

/// The routes dropped when one end went away, with their ids, so that the
/// other end can be told.
#[derive(Debug)]
pub struct DroppedRoutes {
    pub sessions: Vec<(u128, Route)>,
    pub transfers: Vec<(u128, Route)>,
}

/// A connected agent.
#[derive(Debug)]
pub struct AgentEntry<H> {
    pub user_id: u128,
    pub handle: H,
    pub conn: u64,
    /// When the agent was last heard from, on the server's clock; what the
    /// agent reports is not trusted.
    pub last_seen: u128,
}

/// A connected control end.
#[derive(Debug)]
pub struct ControlEntry<H> {
    pub handle: H,
    pub conn: u64,
}

/// Which routes to drop: those of a device, or those of an account.
#[derive(Debug, Clone, Copy, PartialEq, Eq, Structural)]
pub enum RouteOwner {
    Device(u128),
    User(u128),
}

pub open spec fn route_matches(r: Route, owner: RouteOwner) -> bool {
    match owner {
        RouteOwner::Device(d) => r.device_id == d,
        RouteOwner::User(u) => r.user_id == u,
    }
}

/// The routes of `m` that `owner` does not own.
pub open spec fn routes_kept(m: Map<u128, Route>, owner: RouteOwner) -> Map<u128, Route> {
    Map::new(|k: u128| m.dom().contains(k) && !route_matches(m[k], owner), |k: u128| m[k])
}

/// `dropped` lists, each once, exactly the routes of `m` that `owner` owns.
pub open spec fn lists_dropped(dropped: Seq<(u128, Route)>, m: Map<u128, Route>, owner: RouteOwner) -> bool {
    &&& forall|j: int| 0 <= j < dropped.len() ==> {
        &&& m.dom().contains(#[trigger] dropped[j].0)
        &&& m[dropped[j].0] == dropped[j].1
        &&& route_matches(dropped[j].1, owner)
    }
    &&& forall|k: u128| m.dom().contains(k) && route_matches(m[k], owner) ==> exists|j: int|
        0 <= j < dropped.len() && #[trigger] dropped[j].0 == k
    &&& forall|a: int, b: int| 0 <= a < b < dropped.len() ==> dropped[a].0 != dropped[b].0
}

/// Removes from `table` the routes `owner` owns and lists them.
fn drain_routes(table: &mut IdTable<Route>, owner: RouteOwner) -> (r: Vec<(u128, Route)>)
    ensures
        final(table)@ == routes_kept(old(table)@, owner),
        lists_dropped(r@, old(table)@, owner),
{
    let ghost m = table@;
    let keys = table.keys();
    let mut out: Vec<(u128, Route)> = Vec::new();
    let mut i: usize = 0;
    while i < keys.len()
        invariant
            i <= keys.len(),
            keys@.no_duplicates(),
            keys@.to_set() == m.dom(),
            forall|k: u128| #[trigger] table@.dom().contains(k) <==> (m.dom().contains(k) && !(
                keys@.subrange(0, i as int).contains(k) && route_matches(m[k], owner))),
            forall|k: u128| table@.dom().contains(k) ==> #[trigger] table@[k] == m[k],
            forall|j: int| 0 <= j < out@.len() ==> {
                &&& m.dom().contains(#[trigger] out@[j].0)
                &&& m[out@[j].0] == out@[j].1
                &&& route_matches(out@[j].1, owner)
                &&& keys@.subrange(0, i as int).contains(out@[j].0)
            },
            forall|k: u128|
                keys@.subrange(0, i as int).contains(k) && m.dom().contains(k) && route_matches(
                    m[k],
                    owner,
                ) ==> exists|j: int| 0 <= j < out@.len() && #[trigger] out@[j].0 == k,
            forall|a: int, b: int| 0 <= a < b < out@.len() ==> out@[a].0 != out@[b].0,
        decreases keys.len() - i,
    {
        let id = keys[i];
        assert(m.dom().contains(id)) by {
            assert(keys@.to_set().contains(id));
        }
        assert(!keys@.subrange(0, i as int).contains(id)) by {
            if keys@.subrange(0, i as int).contains(id) {
                let j = choose|j: int| 0 <= j < i && keys@.subrange(0, i as int)[j] == id;
                assert(keys@[j] == keys@[i as int]);
            }
        }
        let ghost before = out@;
        match table.get(id) {
            Some(route) => {
                let route = *route;
                let hit = match owner {
                    RouteOwner::Device(d) => route.device_id == d,
                    RouteOwner::User(u) => route.user_id == u,
                };
                if hit {
                    table.remove(id);
                    out.push((id, route));
                }
            },
            None => {},
        }
        proof {
            let done = keys@.subrange(0, i + 1);
            assert(done =~= keys@.subrange(0, i as int).push(id));
            assert forall|k: u128| done.contains(k) <==> (keys@.subrange(0, i as int).contains(k)
                || k == id) by {
                if done.contains(k) {
                    let j = choose|j: int| 0 <= j < done.len() && done[j] == k;
                    if j < i {
                        assert(keys@.subrange(0, i as int)[j] == k);
                    }
                }
                if keys@.subrange(0, i as int).contains(k) {
                    let j = choose|j: int| 0 <= j < i && keys@.subrange(0, i as int)[j] == k;
                    assert(done[j] == k);
                }
                if k == id {
                    assert(done[i as int] == k);
                }
            }
            assert forall|j: int| 0 <= j < out@.len() implies {
                &&& m.dom().contains(#[trigger] out@[j].0)
                &&& m[out@[j].0] == out@[j].1
                &&& route_matches(out@[j].1, owner)
                &&& done.contains(out@[j].0)
            } by {
                if j < before.len() {
                    assert(out@[j] == before[j]);
                }
            }
            assert forall|a: int, b: int| 0 <= a < b < out@.len() implies out@[a].0 != out@[b].0 by {
                if b == before.len() {
                    assert(keys@.subrange(0, i as int).contains(out@[a].0));
                }
            }
            assert forall|k: u128|
                done.contains(k) && m.dom().contains(k) && route_matches(m[k], owner) implies exists|j: int|
                0 <= j < out@.len() && #[trigger] out@[j].0 == k by {
                if k == id {
                    assert(out@[before.len() as int].0 == k);
                } else {
                    let j = choose|j: int| 0 <= j < before.len() && #[trigger] before[j].0 == k;
                    assert(out@[j] == before[j]);
                }
            }
        }
        i = i + 1;
    }
    proof {
        assert(keys@.subrange(0, i as int) =~= keys@);
        assert forall|k: u128| keys@.contains(k) <==> m.dom().contains(k) by {
            assert(keys@.to_set().contains(k) == keys@.contains(k));
        }
        assert(table@ =~= routes_kept(m, owner));
    }
    out
}

/// The registry of live connections and of the routes between them.
pub struct Registry<H> {
    agents: IdTable<AgentEntry<H>>,
    controls: IdTable<ControlEntry<H>>,
    sessions: IdTable<Route>,
    transfers: IdTable<Route>,
}

impl<H> Registry<H> {
    /// The agents by device.
    pub closed spec fn agents(&self) -> Map<u128, AgentEntry<H>> {
        self.agents@
    }

    /// The control ends by account.
    pub closed spec fn controls(&self) -> Map<u128, ControlEntry<H>> {
        self.controls@
    }

    /// The terminal sessions by id.
    pub closed spec fn sessions(&self) -> Map<u128, Route> {
        self.sessions@
    }

    /// The transfers by id.
    pub closed spec fn transfers(&self) -> Map<u128, Route> {
        self.transfers@
    }

    pub fn new() -> (r: Self)
        ensures
            r.agents() == Map::<u128, AgentEntry<H>>::empty(),
            r.controls() == Map::<u128, ControlEntry<H>>::empty(),
            r.sessions() == Map::<u128, Route>::empty(),
            r.transfers() == Map::<u128, Route>::empty(),
    {
        Registry {
            agents: IdTable::new(),
            controls: IdTable::new(),
            sessions: IdTable::new(),
            transfers: IdTable::new(),
        }
    }

    /// Registers an agent connection. One connection per device: the new one
    /// wins, and the one it displaces is handed back so that the caller can
    /// close it once the registry is released.
    pub fn register_agent(&mut self, device_id: u128, user_id: u128, handle: H, conn: u64, now: u128) -> (r: Option<H>)
        ensures
            final(self).agents() == old(self).agents().insert(
                device_id,
                AgentEntry { user_id, handle, conn, last_seen: now },
            ),
            match r {
                Some(h) => old(self).agents().dom().contains(device_id) && old(self).agents()[device_id].handle == h,
                None => !old(self).agents().dom().contains(device_id),
            },
            final(self).controls() == old(self).controls(),
            final(self).sessions() == old(self).sessions(),
            final(self).transfers() == old(self).transfers(),
    {
        match self.agents.insert(device_id, AgentEntry { user_id, handle, conn, last_seen: now }) {
            Some(previous) => Some(previous.handle),
            None => None,
        }
    }

    /// Removes the agent of `device_id` only if it is still the connection
    /// `conn`: the cleanup of a displaced connection must not remove the
    /// one that replaced it.
    pub fn unregister_agent_if_current(&mut self, device_id: u128, conn: u64) -> (r: bool)
        ensures
            r == (old(self).agents().dom().contains(device_id) && old(self).agents()[device_id].conn == conn),
            final(self).agents() == if r { old(self).agents().remove(device_id) } else { old(self).agents() },
            final(self).controls() == old(self).controls(),
            final(self).sessions() == old(self).sessions(),
            final(self).transfers() == old(self).transfers(),
    {
        let current = match self.agents.get(device_id) {
            Some(entry) => entry.conn == conn,
            None => false,
        };
        if current {
            self.agents.remove(device_id);
        }
        current
    }

    pub fn agent_handle(&self, device_id: u128) -> (r: Option<&H>)
        ensures
            match r {
                Some(h) => self.agents().dom().contains(device_id) && self.agents()[device_id].handle == *h,
                None => !self.agents().dom().contains(device_id),
            },
    {
        match self.agents.get(device_id) {
            Some(entry) => Some(&entry.handle),
            None => None,
        }
    }

    pub fn is_online(&self, device_id: u128) -> (r: bool)
        ensures
            r == self.agents().dom().contains(device_id),
    {
        self.agents.contains(device_id)
    }

    pub fn online_devices(&self) -> (r: Vec<u128>)
        ensures
            r@.no_duplicates(),
            r@.to_set() == self.agents().dom(),
    {
        self.agents.keys()
    }

    /// Records that the agent of `device_id` was heard from at `now`.
    pub fn touch_agent(&mut self, device_id: u128, now: u128)
        ensures
            final(self).agents() == if old(self).agents().dom().contains(device_id) {
                old(self).agents().insert(
                    device_id,
                    AgentEntry { last_seen: now, ..old(self).agents()[device_id] },
                )
            } else {
                old(self).agents()
            },
            final(self).controls() == old(self).controls(),
            final(self).sessions() == old(self).sessions(),
            final(self).transfers() == old(self).transfers(),
    {
        match self.agents.remove(device_id) {
            Some(entry) => {
                self.agents.insert(device_id, AgentEntry { last_seen: now, ..entry });
                assert(self.agents@ =~= old(self).agents().insert(
                    device_id,
                    AgentEntry { last_seen: now, ..old(self).agents()[device_id] },
                ));
            },
            None => {
                assert(self.agents@ =~= old(self).agents());
            },
        }
    }

    pub fn agent_last_seen(&self, device_id: u128) -> (r: Option<u128>)
        ensures
            match r {
                Some(t) => self.agents().dom().contains(device_id) && self.agents()[device_id].last_seen == t,
                None => !self.agents().dom().contains(device_id),
            },
    {
        match self.agents.get(device_id) {
            Some(entry) => Some(entry.last_seen),
            None => None,
        }
    }

    pub fn agent_owner(&self, device_id: u128) -> (r: Option<u128>)
        ensures
            match r {
                Some(u) => self.agents().dom().contains(device_id) && self.agents()[device_id].user_id == u,
                None => !self.agents().dom().contains(device_id),
            },
    {
        match self.agents.get(device_id) {
            Some(entry) => Some(entry.user_id),
            None => None,
        }
    }

    /// Registers a control connection. One per account, the new one wins,
    /// which lets responses route by account alone.
    pub fn register_control(&mut self, user_id: u128, handle: H, conn: u64) -> (r: Option<H>)
        ensures
            final(self).controls() == old(self).controls().insert(user_id, ControlEntry { handle, conn }),
            match r {
                Some(h) => old(self).controls().dom().contains(user_id) && old(self).controls()[user_id].handle == h,
                None => !old(self).controls().dom().contains(user_id),
            },
            final(self).agents() == old(self).agents(),
            final(self).sessions() == old(self).sessions(),
            final(self).transfers() == old(self).transfers(),
    {
        match self.controls.insert(user_id, ControlEntry { handle, conn }) {
            Some(previous) => Some(previous.handle),
            None => None,
        }
    }

    /// Removes the control end of `user_id` only if it is still the
    /// connection `conn`.
    pub fn unregister_control_if_current(&mut self, user_id: u128, conn: u64) -> (r: bool)
        ensures
            r == (old(self).controls().dom().contains(user_id) && old(self).controls()[user_id].conn == conn),
            final(self).controls() == if r { old(self).controls().remove(user_id) } else { old(self).controls() },
            final(self).agents() == old(self).agents(),
            final(self).sessions() == old(self).sessions(),
            final(self).transfers() == old(self).transfers(),
    {
        let current = match self.controls.get(user_id) {
            Some(entry) => entry.conn == conn,
            None => false,
        };
        if current {
            self.controls.remove(user_id);
        }
        current
    }

    pub fn control_handle(&self, user_id: u128) -> (r: Option<&H>)
        ensures
            match r {
                Some(h) => self.controls().dom().contains(user_id) && self.controls()[user_id].handle == *h,
                None => !self.controls().dom().contains(user_id),
            },
    {
        match self.controls.get(user_id) {
            Some(entry) => Some(&entry.handle),
            None => None,
        }
    }

    pub fn open_session(&mut self, session_id: u128, route: Route)
        ensures
            final(self).sessions() == old(self).sessions().insert(session_id, route),
            final(self).agents() == old(self).agents(),
            final(self).controls() == old(self).controls(),
            final(self).transfers() == old(self).transfers(),
    {
        self.sessions.insert(session_id, route);
    }

    pub fn session_route(&self, session_id: u128) -> (r: Option<Route>)
        ensures
            r == if self.sessions().dom().contains(session_id) { Some(self.sessions()[session_id]) } else { None::<Route> },
    {
        match self.sessions.get(session_id) {
            Some(route) => Some(*route),
            None => None,
        }
    }

    pub fn close_session(&mut self, session_id: u128) -> (r: Option<Route>)
        ensures
            r == if old(self).sessions().dom().contains(session_id) { Some(old(self).sessions()[session_id]) } else { None::<Route> },
            final(self).sessions() == old(self).sessions().remove(session_id),
            final(self).agents() == old(self).agents(),
            final(self).controls() == old(self).controls(),
            final(self).transfers() == old(self).transfers(),
    {
        self.sessions.remove(session_id)
    }

    /// Whether any session runs on `device_id`.
    pub fn device_has_session(&self, device_id: u128) -> (r: bool)
        ensures
            r == exists|id: u128| self.sessions().dom().contains(id) && #[trigger] self.sessions()[id].device_id == device_id,
    {
        let ids = self.sessions.keys();
        let mut i: usize = 0;
        while i < ids.len()
            invariant
                i <= ids.len(),
                ids@.to_set() == self.sessions@.dom(),
                forall|j: int| 0 <= j < i ==> self.sessions@[#[trigger] ids@[j]].device_id != device_id,
            decreases ids.len() - i,
        {
            assert(ids@.to_set().contains(ids@[i as int]));
            match self.sessions.get(ids[i]) {
                Some(route) => {
                    if route.device_id == device_id {
                        assert(self.sessions@.dom().contains(ids@[i as int]));
                        assert(self.sessions()[ids@[i as int]].device_id == device_id);
                        return true;
                    }
                },
                None => {},
            }
            i = i + 1;
        }
        assert forall|id: u128| self.sessions@.dom().contains(id) implies #[trigger] self.sessions@[id].device_id != device_id by {
            assert(ids@.to_set().contains(id));
            let j = choose|j: int| 0 <= j < ids@.len() && ids@[j] == id;
            assert(self.sessions@[ids@[j]].device_id != device_id);
        }
        false
    }

    pub fn open_transfer(&mut self, transfer_id: u128, route: Route)
        ensures
            final(self).transfers() == old(self).transfers().insert(transfer_id, route),
            final(self).agents() == old(self).agents(),
            final(self).controls() == old(self).controls(),
            final(self).sessions() == old(self).sessions(),
    {
        self.transfers.insert(transfer_id, route);
    }

    pub fn transfer_route(&self, transfer_id: u128) -> (r: Option<Route>)
        ensures
            r == if self.transfers().dom().contains(transfer_id) { Some(self.transfers()[transfer_id]) } else { None::<Route> },
    {
        match self.transfers.get(transfer_id) {
            Some(route) => Some(*route),
            None => None,
        }
    }

    pub fn close_transfer(&mut self, transfer_id: u128) -> (r: Option<Route>)
        ensures
            r == if old(self).transfers().dom().contains(transfer_id) { Some(old(self).transfers()[transfer_id]) } else { None::<Route> },
            final(self).transfers() == old(self).transfers().remove(transfer_id),
            final(self).agents() == old(self).agents(),
            final(self).controls() == old(self).controls(),
            final(self).sessions() == old(self).sessions(),
    {
        self.transfers.remove(transfer_id)
    }

    /// When either end of a route goes away, drops the routes and reports
    /// them with their ids: once removed, nothing else says which device or
    /// account a route joined.
    fn drop_routes(&mut self, owner: RouteOwner) -> (r: DroppedRoutes)
        ensures
            final(self).sessions() == routes_kept(old(self).sessions(), owner),
            final(self).transfers() == routes_kept(old(self).transfers(), owner),
            lists_dropped(r.sessions@, old(self).sessions(), owner),
            lists_dropped(r.transfers@, old(self).transfers(), owner),
            final(self).agents() == old(self).agents(),
            final(self).controls() == old(self).controls(),
    {
        let sessions = drain_routes(&mut self.sessions, owner);
        let transfers = drain_routes(&mut self.transfers, owner);
        DroppedRoutes { sessions, transfers }
    }

    /// Drops and reports the routes to `device_id`.
    pub fn drop_routes_for_device(&mut self, device_id: u128) -> (r: DroppedRoutes)
        ensures
            final(self).sessions() == routes_kept(old(self).sessions(), RouteOwner::Device(device_id)),
            final(self).transfers() == routes_kept(old(self).transfers(), RouteOwner::Device(device_id)),
            lists_dropped(r.sessions@, old(self).sessions(), RouteOwner::Device(device_id)),
            lists_dropped(r.transfers@, old(self).transfers(), RouteOwner::Device(device_id)),
            final(self).agents() == old(self).agents(),
            final(self).controls() == old(self).controls(),
    {
        self.drop_routes(RouteOwner::Device(device_id))
    }

    /// Drops and reports the routes of `user_id`.
    pub fn drop_routes_for_user(&mut self, user_id: u128) -> (r: DroppedRoutes)
        ensures
            final(self).sessions() == routes_kept(old(self).sessions(), RouteOwner::User(user_id)),
            final(self).transfers() == routes_kept(old(self).transfers(), RouteOwner::User(user_id)),
            lists_dropped(r.sessions@, old(self).sessions(), RouteOwner::User(user_id)),
            lists_dropped(r.transfers@, old(self).transfers(), RouteOwner::User(user_id)),
            final(self).agents() == old(self).agents(),
            final(self).controls() == old(self).controls(),
    {
        self.drop_routes(RouteOwner::User(user_id))
    }
}

/// One connection per device, newest wins: once connection `c2` has
/// registered for a device over `c1`, the cleanup of `c1` finds it is no
/// longer current and leaves `c2` in place, and `c2`'s own cleanup takes the
/// device offline.
pub proof fn lemma_replacement_survives_old_cleanup<H>(
    agents: Map<u128, AgentEntry<H>>,
    device_id: u128,
    user_id: u128,
    handle: H,
    c1: u64,
    c2: u64,
    now: u128,
)
    requires
        c1 != c2,
    ensures
        ({
            let after = agents.insert(device_id, AgentEntry { user_id, handle, conn: c2, last_seen: now });
            &&& !(after.dom().contains(device_id) && after[device_id].conn == c1)
            &&& after.dom().contains(device_id) && after[device_id].conn == c2
            &&& !after.remove(device_id).dom().contains(device_id)
        }),
{
}

/// The same for control ends: one per account, newest wins, and the old
/// connection's cleanup leaves the new one registered.
pub proof fn lemma_control_replacement_survives_old_cleanup<H>(
    controls: Map<u128, ControlEntry<H>>,
    user_id: u128,
    handle: H,
    c1: u64,
    c2: u64,
)
    requires
        c1 != c2,
    ensures
        ({
            let after = controls.insert(user_id, ControlEntry { handle, conn: c2 });
            &&& !(after.dom().contains(user_id) && after[user_id].conn == c1)
            &&& after.dom().contains(user_id) && after[user_id].conn == c2
            &&& !after.remove(user_id).dom().contains(user_id)
        }),
{
}

/// Dropping the routes of an owner leaves exactly the routes it does not
/// own: none of its own survive, and every other route stays as it was.
pub proof fn lemma_dropped_routes_are_exactly_the_owners(m: Map<u128, Route>, owner: RouteOwner)
    ensures
        forall|k: u128| #[trigger] routes_kept(m, owner).dom().contains(k) <==> (m.dom().contains(k)
            && !route_matches(m[k], owner)),
        forall|k: u128| #[trigger] routes_kept(m, owner).dom().contains(k) ==> routes_kept(m, owner)[k]
            == m[k],
{
}

} // verus!
