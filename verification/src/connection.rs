//! The connection registry: which devices can be reached right now, over
//! which connection.
//!
//! The registry lives in memory only. It starts empty, and a device counts
//! as reachable from the moment its connection is added until it is removed.
//!
//! `ConnectionManager` is the directory itself, for one owner at a time.
//! `SharedConnections` keeps one directory behind a lock for the many
//! handlers of a service: each of its operations is one operation of the
//! directory under the lock, so that the directory stays whole whatever the
//! handlers do at the same time, and the last to add or remove a connection
//! id decides what is found under it.

use vstd::prelude::*;
use vstd::rwlock::RwLock;
use vstd::rwlock::RwLockPredicate;
use crate::clock::unix_now;
use crate::ident::fresh_uuid;
use crate::ident::is_random_uuid;

verus! {

/// One live connection of a device.
#[derive(Debug, Clone, Copy, PartialEq, Eq, Structural)]
pub struct WsConnection {
    pub user_id: u128,
    pub device_id: i64,
    pub conn_id: u128,
    /// The second at which the connection was established.
    pub established_at: i64,
}

/// Whether a connection id occurs among the connections.
spec fn listed(connections: Seq<WsConnection>, conn_id: u128) -> bool {
    exists|i: int| 0 <= i < connections.len() && (#[trigger] connections[i]).conn_id == conn_id
}

/// Where a connection id occurs among the connections.
spec fn position(connections: Seq<WsConnection>, conn_id: u128) -> int {
    choose|i: int| 0 <= i < connections.len() && (#[trigger] connections[i]).conn_id == conn_id
}

/// Whether no connection id occurs twice.
spec fn unique(connections: Seq<WsConnection>) -> bool {
    forall|i: int, j: int|
        0 <= i < j < connections.len() ==> (#[trigger] connections[i]).conn_id != (
        #[trigger] connections[j]).conn_id
}

/// The connections by their ids.
spec fn as_map(connections: Seq<WsConnection>) -> Map<u128, WsConnection> {
    Map::new(
        |k: u128| listed(connections, k),
        |k: u128| connections[position(connections, k)],
    )
}

/// In a list without repetition, a connection stands where its id is found.
proof fn lemma_position(connections: Seq<WsConnection>, i: int)
    requires
        unique(connections),
        0 <= i < connections.len(),
    ensures
        listed(connections, connections[i].conn_id),
        position(connections, connections[i].conn_id) == i,
        as_map(connections).contains_key(connections[i].conn_id),
        as_map(connections)[connections[i].conn_id] == connections[i],
{
    let k = connections[i].conn_id;
    assert(listed(connections, k));
    let p = position(connections, k);
    if p < i {
        assert(connections[p].conn_id != connections[i].conn_id);
    } else if i < p {
        assert(connections[i].conn_id != connections[p].conn_id);
    }
}

/// Taking a connection out takes its id out of the map and leaves the rest
/// as it was.
proof fn lemma_remove(connections: Seq<WsConnection>, at: int)
    requires
        unique(connections),
        0 <= at < connections.len(),
    ensures
        unique(connections.remove(at)),
        as_map(connections.remove(at)) == as_map(connections).remove(connections[at].conn_id),
{
    let rest = connections.remove(at);
    let gone = connections[at].conn_id;
    assert forall|i: int, j: int| 0 <= i < j < rest.len() implies (#[trigger] rest[i]).conn_id != (
    #[trigger] rest[j]).conn_id by {
        let a = if i < at { i } else { i + 1 };
        let b = if j < at { j } else { j + 1 };
        assert(rest[i] == connections[a]);
        assert(rest[j] == connections[b]);
    }
    let left = as_map(rest);
    let right = as_map(connections).remove(gone);
    assert forall|k: u128| left.dom().contains(k) <==> right.dom().contains(k) by {
        if listed(rest, k) {
            let i = position(rest, k);
            let a = if i < at { i } else { i + 1 };
            assert(rest[i] == connections[a]);
            assert(connections[a].conn_id == k);
            lemma_position(connections, a);
            lemma_position(connections, at);
        }
        if listed(connections, k) && k != gone {
            let a = position(connections, k);
            let i = if a < at { a } else { a - 1 };
            assert(rest[i] == connections[a]);
        }
    }
    assert forall|k: u128| #[trigger] left.dom().contains(k) implies left[k] == right[k] by {
        let i = position(rest, k);
        let a = if i < at { i } else { i + 1 };
        assert(rest[i] == connections[a]);
        lemma_position(connections, a);
    }
    assert(left =~= right);
}

/// Adding a connection whose id does not occur puts it into the map and
/// leaves the rest as it was.
proof fn lemma_push(connections: Seq<WsConnection>, conn: WsConnection)
    requires
        unique(connections),
        !listed(connections, conn.conn_id),
    ensures
        unique(connections.push(conn)),
        as_map(connections.push(conn)) == as_map(connections).insert(conn.conn_id, conn),
{
    let more = connections.push(conn);
    assert forall|i: int, j: int| 0 <= i < j < more.len() implies (#[trigger] more[i]).conn_id != (
    #[trigger] more[j]).conn_id by {
        assert(more[i] == connections[i]);
        if j < connections.len() {
            assert(more[j] == connections[j]);
        }
    }
    let left = as_map(more);
    let right = as_map(connections).insert(conn.conn_id, conn);
    assert(more[connections.len() as int] == conn);
    assert forall|k: u128| left.dom().contains(k) <==> right.dom().contains(k) by {
        if listed(more, k) {
            let i = position(more, k);
            if i < connections.len() {
                assert(more[i] == connections[i]);
            }
        }
        if listed(connections, k) {
            let a = position(connections, k);
            assert(more[a] == connections[a]);
        }
    }
    assert forall|k: u128| #[trigger] left.dom().contains(k) implies left[k] == right[k] by {
        let i = position(more, k);
        lemma_position(more, i);
        if i < connections.len() {
            assert(more[i] == connections[i]);
            lemma_position(connections, i);
        }
    }
    assert(left =~= right);
}

/// A list without repetition has as many connections as its map has ids.
proof fn lemma_size(connections: Seq<WsConnection>)
    requires
        unique(connections),
    ensures
        as_map(connections).dom().finite(),
        as_map(connections).dom().len() == connections.len(),
    decreases connections.len(),
{
    if connections.len() == 0 {
        assert(as_map(connections).dom() =~= Set::<u128>::empty());
    } else {
        let last = connections.last();
        let rest = connections.drop_last();
        assert forall|i: int, j: int| 0 <= i < j < rest.len() implies (#[trigger] rest[i]).conn_id
            != (#[trigger] rest[j]).conn_id by {
            assert(rest[i] == connections[i]);
            assert(rest[j] == connections[j]);
        }
        lemma_size(rest);
        if listed(rest, last.conn_id) {
            let i = position(rest, last.conn_id);
            assert(rest[i] == connections[i]);
            assert(connections[connections.len() - 1] == last);
        }
        lemma_push(rest, last);
        assert(rest.push(last) == connections);
        assert(as_map(connections).dom() =~= as_map(rest).dom().insert(last.conn_id));
    }
}

/// The directory of live connections.
pub struct ConnectionManager {
    connections: Vec<WsConnection>,
}

impl View for ConnectionManager {
    type V = Map<u128, WsConnection>;

    closed spec fn view(&self) -> Map<u128, WsConnection> {
        as_map(self.connections@)
    }
}

/// Whether a connection of the directory belongs to a user.
pub open spec fn serves(directory: Map<u128, WsConnection>, user_id: u128, conn: WsConnection) -> bool {
    directory.contains_key(conn.conn_id) && directory[conn.conn_id] == conn && conn.user_id == user_id
}

impl ConnectionManager {
    /// Whether the directory holds at most one connection per id, each under
    /// its own id.
    pub closed spec fn wf(&self) -> bool {
        unique(self.connections@)
    }

    /// The empty directory: every device is offline.
    pub fn new() -> (r: ConnectionManager)
        ensures
            r.wf(),
            r@ == Map::<u128, WsConnection>::empty(),
    {
        let r = ConnectionManager { connections: Vec::new() };
        assert(r@ =~= Map::<u128, WsConnection>::empty());
        r
    }

    /// Every connection is listed under its own id.
    pub proof fn lemma_keys(&self)
        requires
            self.wf(),
        ensures
            forall|k: u128| #[trigger] self@.contains_key(k) ==> self@[k].conn_id == k,
            self@.dom().finite(),
    {
        lemma_size(self.connections@);
    }

    /// Where the connection of an id stands.
    fn find(&self, conn_id: u128) -> (r: Option<usize>)
        requires
            self.wf(),
        ensures
            match r {
                Some(at) => at < self.connections@.len() && self.connections@[at as int].conn_id
                    == conn_id && self@.contains_key(conn_id) && self@[conn_id]
                    == self.connections@[at as int],
                None => !self@.contains_key(conn_id),
            },
    {
        let mut i: usize = 0;
        while i < self.connections.len()
            invariant
                self.wf(),
                i <= self.connections@.len(),
                forall|k: int| 0 <= k < i ==> (#[trigger] self.connections@[k]).conn_id != conn_id,
            decreases self.connections@.len() - i,
        {
            if self.connections[i].conn_id == conn_id {
                proof {
                    lemma_position(self.connections@, i as int);
                }
                return Some(i);
            }
            i = i + 1;
        }
        None
    }

    /// Removes the connection of an id, if there is one, and hands it back.
    /// Afterwards no connection has the id.
    pub fn remove_connection(&mut self, conn_id: &u128) -> (r: Option<WsConnection>)
        requires
            old(self).wf(),
        ensures
            final(self).wf(),
            final(self)@ == old(self)@.remove(*conn_id),
            r == if old(self)@.contains_key(*conn_id) {
                Some(old(self)@[*conn_id])
            } else {
                None
            },
    {
        match self.find(*conn_id) {
            Some(at) => {
                proof {
                    lemma_remove(self.connections@, at as int);
                }
                let conn = self.connections.remove(at);
                Some(conn)
            },
            None => {
                assert(self@ =~= self@.remove(*conn_id));
                None
            },
        }
    }

    /// Adds a connection under its id. A connection that had the id before
    /// is replaced, so that a device that connects again is listed once.
    pub fn add_connection(&mut self, conn: WsConnection)
        requires
            old(self).wf(),
        ensures
            final(self).wf(),
            final(self)@ == old(self)@.insert(conn.conn_id, conn),
    {
        let ghost before = self@;
        let _ = self.remove_connection(&conn.conn_id);
        proof {
            assert(!self@.contains_key(conn.conn_id));
            assert(!as_map(self.connections@).dom().contains(conn.conn_id));
            lemma_push(self.connections@, conn);
            assert(before.remove(conn.conn_id).insert(conn.conn_id, conn) =~= before.insert(
                conn.conn_id,
                conn,
            ));
        }
        self.connections.push(conn);
    }

    /// The connection of an id.
    pub fn get_connection(&self, conn_id: &u128) -> (r: Option<WsConnection>)
        requires
            self.wf(),
        ensures
            r == if self@.contains_key(*conn_id) {
                Some(self@[*conn_id])
            } else {
                None
            },
    {
        match self.find(*conn_id) {
            Some(at) => Some(self.connections[at]),
            None => None,
        }
    }

    /// The connections of a user: each of them once, and no other.
    pub fn get_user_connections(&self, user_id: &u128) -> (r: Vec<WsConnection>)
        requires
            self.wf(),
        ensures
            forall|c: WsConnection| r@.contains(c) <==> serves(self@, *user_id, c),
            forall|i: int, j: int| 0 <= i < j < r@.len() ==> r@[i].conn_id != r@[j].conn_id,
    {
        let mut found: Vec<WsConnection> = Vec::new();
        let ghost mut origin: Seq<int> = Seq::empty();
        let mut i: usize = 0;
        while i < self.connections.len()
            invariant
                self.wf(),
                i <= self.connections@.len(),
                origin.len() == found@.len(),
                forall|k: int|
                    0 <= k < found@.len() ==> 0 <= #[trigger] origin[k] < i && found@[k]
                        == self.connections@[origin[k]] && found@[k].user_id == *user_id,
                forall|a: int, b: int| 0 <= a < b < origin.len() ==> origin[a] < origin[b],
                forall|k: int|
                    0 <= k < i && (#[trigger] self.connections@[k]).user_id == *user_id
                        ==> found@.contains(self.connections@[k]),
            decreases self.connections@.len() - i,
        {
            if self.connections[i].user_id == *user_id {
                let ghost before = found@;
                found.push(self.connections[i]);
                proof {
                    origin = origin.push(i as int);
                    assert(found@[before.len() as int] == self.connections@[i as int]);
                    assert forall|k: int|
                        0 <= k < i + 1 && (#[trigger] self.connections@[k]).user_id
                            == *user_id implies found@.contains(self.connections@[k]) by {
                        if k < i {
                            let w = choose|w: int|
                                0 <= w < before.len() && before[w] == self.connections@[k];
                            assert(found@[w] == self.connections@[k]);
                        }
                    }
                }
            }
            i = i + 1;
        }
        proof {
            assert forall|c: WsConnection| found@.contains(c) <==> serves(self@, *user_id, c) by {
                if found@.contains(c) {
                    let w = choose|w: int| 0 <= w < found@.len() && found@[w] == c;
                    lemma_position(self.connections@, origin[w]);
                }
                if serves(self@, *user_id, c) {
                    let p = position(self.connections@, c.conn_id);
                    assert(self.connections@[p] == c);
                }
            }
            assert forall|a: int, b: int| 0 <= a < b < found@.len() implies found@[a].conn_id
                != found@[b].conn_id by {
                assert(origin[a] < origin[b]);
                assert(self.connections@[origin[a]].conn_id != self.connections@[origin[b]].conn_id);
            }
        }
        found
    }

    /// How many connections are live.
    pub fn connection_count(&self) -> (r: usize)
        requires
            self.wf(),
        ensures
            self@.dom().finite(),
            r == self@.dom().len(),
    {
        proof {
            lemma_size(self.connections@);
        }
        self.connections.len()
    }
}

/// What the lock of a shared directory keeps: that the directory is whole.
pub struct Whole;

impl RwLockPredicate<ConnectionManager> for Whole {
    open spec fn inv(self, v: ConnectionManager) -> bool {
        v.wf()
    }
}

/// One directory of live connections for many handlers at once.
///
/// What is found under an id is what the last handler to add or remove the
/// id left there. Between two operations of one handler the others may have
/// changed the directory, so an operation promises of its result only what
/// holds of the directory at the moment it was read.
pub struct SharedConnections {
    lock: RwLock<ConnectionManager, Whole>,
}

impl SharedConnections {
    /// A shared directory without connections.
    pub fn new() -> (r: SharedConnections) {
        SharedConnections { lock: RwLock::new(ConnectionManager::new(), Ghost(Whole)) }
    }

    /// Adds a connection under its id, in place of one that had the id.
    pub fn add_connection(&self, conn: WsConnection) {
        let (mut directory, handle) = self.lock.acquire_write();
        directory.add_connection(conn);
        handle.release_write(directory);
    }

    /// Removes the connection of an id, if there is one, and hands it back.
    pub fn remove_connection(&self, conn_id: &u128) -> (r: Option<WsConnection>)
        ensures
            r matches Some(conn) ==> conn.conn_id == *conn_id,
    {
        let (mut directory, handle) = self.lock.acquire_write();
        proof {
            directory.lemma_keys();
        }
        let removed = directory.remove_connection(conn_id);
        handle.release_write(directory);
        removed
    }

    /// The connection of an id, if one was listed when the directory was read.
    pub fn get_connection(&self, conn_id: &u128) -> (r: Option<WsConnection>)
        ensures
            r matches Some(conn) ==> conn.conn_id == *conn_id,
    {
        let handle = self.lock.acquire_read();
        let directory = handle.borrow();
        proof {
            directory.lemma_keys();
        }
        let found = directory.get_connection(conn_id);
        handle.release_read();
        found
    }

    /// The connections that a user had when the directory was read: each
    /// under an id of its own.
    pub fn get_user_connections(&self, user_id: &u128) -> (r: Vec<WsConnection>)
        ensures
            forall|i: int| 0 <= i < r@.len() ==> (#[trigger] r@[i]).user_id == *user_id,
            forall|i: int, j: int| 0 <= i < j < r@.len() ==> r@[i].conn_id != r@[j].conn_id,
    {
        let handle = self.lock.acquire_read();
        let directory = handle.borrow();
        let found = directory.get_user_connections(user_id);
        proof {
            assert forall|i: int| 0 <= i < found@.len() implies (#[trigger] found@[i]).user_id
                == *user_id by {
                assert(found@.contains(found@[i]));
            }
        }
        handle.release_read();
        found
    }

    /// Lists a new connection of a user's device under a fresh id,
    /// established at the current second, and hands the id back.
    pub fn register(&self, user_id: u128, device_id: i64) -> (r: u128)
        ensures
            is_random_uuid(r),
    {
        let (mut directory, handle) = self.lock.acquire_write();
        let conn_id = register_connection(&mut directory, user_id, device_id);
        handle.release_write(directory);
        conn_id
    }

    /// How many connections were live when the directory was read.
    pub fn connection_count(&self) -> usize {
        let handle = self.lock.acquire_read();
        let count = handle.borrow().connection_count();
        handle.release_read();
        count
    }
}

/// Lists a new connection of a user's device under the given id,
/// established at `now`, and hands the id back.
pub fn register_connection_with(
    manager: &mut ConnectionManager,
    user_id: u128,
    device_id: i64,
    conn_id: u128,
    now: i64,
) -> (r: u128)
    requires
        old(manager).wf(),
    ensures
        final(manager).wf(),
        r == conn_id,
        final(manager)@ == old(manager)@.insert(
            conn_id,
            WsConnection { user_id, device_id, conn_id, established_at: now },
        ),
{
    manager.add_connection(WsConnection { user_id, device_id, conn_id, established_at: now });
    conn_id
}

/// Lists a new connection of a user's device under a fresh id, and hands
/// the id back. The id is drawn at random and the clock is read: whatever
/// they gave, the connection is now listed under the id handed back.
pub fn register_connection(manager: &mut ConnectionManager, user_id: u128, device_id: i64) -> (r: u128)
    requires
        old(manager).wf(),
    ensures
        final(manager).wf(),
        is_random_uuid(r),
        exists|now: i64|
            now >= 0 && final(manager)@ == old(manager)@.insert(
                r,
                #[trigger] connection_at(user_id, device_id, r, now),
            ),
{
    let conn_id = fresh_uuid();
    let now = unix_now();
    let ghost before = manager@;
    let r = register_connection_with(manager, user_id, device_id, conn_id, now);
    assert(manager@ == before.insert(r, connection_at(user_id, device_id, r, now)));
    r
}

/// The connection of a user's device under an id, established at `now`.
pub open spec fn connection_at(user_id: u128, device_id: i64, conn_id: u128, now: i64) -> WsConnection {
    WsConnection { user_id, device_id, conn_id, established_at: now }
}

/// Takes the connection of an id off the list. Afterwards no connection has
/// the id, whether or not one had it before.
pub fn deregister_connection(manager: &mut ConnectionManager, conn_id: u128)
    requires
        old(manager).wf(),
    ensures
        final(manager).wf(),
        final(manager)@ == old(manager)@.remove(conn_id),
{
    let _ = manager.remove_connection(&conn_id);
}

/// A connection that was listed and then taken off the list is not found.
/// Listing a connection under an id that is already listed replaces the
/// entry: the id is found once, with the later connection, and the number
/// of entries is that after the first listing.
pub proof fn listing_replaces_and_removal_wins(
    directory: Map<u128, WsConnection>,
    first: WsConnection,
    second: WsConnection,
)
    requires
        directory.dom().finite(),
        first.conn_id == second.conn_id,
    ensures
        !directory.insert(first.conn_id, first).remove(first.conn_id).contains_key(first.conn_id),
        directory.insert(first.conn_id, first).insert(second.conn_id, second) == directory.insert(
            second.conn_id,
            second,
        ),
        directory.insert(first.conn_id, first).insert(second.conn_id, second)[first.conn_id]
            == second,
        directory.insert(first.conn_id, first).insert(second.conn_id, second).dom().len()
            == directory.insert(first.conn_id, first).dom().len(),
{
    assert(directory.insert(first.conn_id, first).insert(second.conn_id, second)
        =~= directory.insert(second.conn_id, second));
    assert(directory.insert(first.conn_id, first).dom() =~= directory.insert(
        second.conn_id,
        second,
    ).dom());
}

} // verus!
