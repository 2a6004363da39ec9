//! The connection table owned by the coordinating actor.
//!
//! The actor applies one request at a time; each request is a method here that
//! maps the current table and the request to the next table and a reply. The
//! table holds at most one live connection per node id, and concurrent connect
//! requests for one node id are coalesced into a single pending dial whose one
//! outcome is handed to every waiter.

use vstd::prelude::*;

use crate::error::{ConnectionManagerError, PeerConnectionError};

verus! {

/// Which side opened a connection. Set at creation and never changed.
#[derive(Debug, Clone, Copy, PartialEq, Eq, Structural)]
pub enum ConnectionDirection {
    Inbound,
    Outbound,
}

/// A handle on one live connection, as handed out to callers.
#[derive(Debug, Clone, PartialEq, Eq)]
pub struct PeerConnection {
    pub node_id: String,
    pub id: u64,
    pub direction: ConnectionDirection,
    pub public_key: String,
}

/// What a connection handle denotes.
pub struct ConnectionView {
    pub node_id: Seq<char>,
    pub id: u64,
    pub direction: ConnectionDirection,
    pub public_key: Seq<char>,
}

impl View for PeerConnection {
    type V = ConnectionView;

    open spec fn view(&self) -> ConnectionView {
        ConnectionView {
            node_id: self.node_id@,
            id: self.id,
            direction: self.direction,
            public_key: self.public_key@,
        }
    }
}

impl PeerConnection {
    /// A second handle on the same connection.
    pub fn duplicate(&self) -> (r: PeerConnection)
        ensures
            r@ == self@,
    {
        PeerConnection {
            node_id: self.node_id.clone(),
            id: self.id,
            direction: self.direction,
            public_key: self.public_key.clone(),
        }
    }
}

/// A dial in flight for one node id and the requests waiting on it.
pub struct PendingDial {
    pub node_id: String,
    pub waiters: Vec<u64>,
}

pub struct PendingView {
    pub node_id: Seq<char>,
    pub waiters: Seq<u64>,
}

impl View for PendingDial {
    type V = PendingView;

    open spec fn view(&self) -> PendingView {
        PendingView { node_id: self.node_id@, waiters: self.waiters@ }
    }
}

/// The abstract state of the table.
pub struct TableView {
    pub connections: Seq<ConnectionView>,
    pub pending: Seq<PendingView>,
    pub next_id: u64,
}

/// The reply to a connect request.
#[derive(Debug)]
pub enum ConnectDecision {
    /// The node is connected already: here is its connection, no dial is made.
    Existing(PeerConnection),
    /// No dial was in flight: the caller must start one.
    StartDial,
    /// A dial is in flight: the request waits for its outcome.
    Joined,
}

/// The outcome of a finished dial and the requests that receive it.
#[derive(Debug)]
pub struct DialCompletion {
    pub waiters: Vec<u64>,
    pub result: Result<PeerConnection, ConnectionManagerError>,
}

/// The table of live connections and of dials in flight.
pub struct ConnectionTable {
    connections: Vec<PeerConnection>,
    pending: Vec<PendingDial>,
    next_id: u64,
}

pub open spec fn is_connected(cs: Seq<ConnectionView>, n: Seq<char>) -> bool {
    exists|i: int| 0 <= i < cs.len() && #[trigger] cs[i].node_id == n
}

pub open spec fn connection_index(cs: Seq<ConnectionView>, n: Seq<char>) -> int {
    choose|i: int| 0 <= i < cs.len() && #[trigger] cs[i].node_id == n
}

/// The live connection of node `n`, if any.
pub open spec fn lookup(cs: Seq<ConnectionView>, n: Seq<char>) -> Option<ConnectionView> {
    if is_connected(cs, n) {
        Some(cs[connection_index(cs, n)])
    } else {
        None
    }
}

pub open spec fn is_pending(ps: Seq<PendingView>, n: Seq<char>) -> bool {
    exists|i: int| 0 <= i < ps.len() && #[trigger] ps[i].node_id == n
}

pub open spec fn pending_index(ps: Seq<PendingView>, n: Seq<char>) -> int {
    choose|i: int| 0 <= i < ps.len() && #[trigger] ps[i].node_id == n
}

/// No two live connections share a node id.
pub open spec fn unique_connections(cs: Seq<ConnectionView>) -> bool {
    forall|i: int, j: int|
        0 <= i < cs.len() && 0 <= j < cs.len() && #[trigger] cs[i].node_id == #[trigger] cs[j].node_id
            ==> i == j
}

/// No two dials in flight share a node id.
pub open spec fn unique_pending(ps: Seq<PendingView>) -> bool {
    forall|i: int, j: int|
        0 <= i < ps.len() && 0 <= j < ps.len() && #[trigger] ps[i].node_id == #[trigger] ps[j].node_id
            ==> i == j
}

pub open spec fn table_wf(v: TableView) -> bool {
    unique_connections(v.connections) && unique_pending(v.pending)
}

/// The table after a connect request `req` for node `n`.
pub open spec fn connect_spec(v: TableView, n: Seq<char>, req: u64) -> TableView {
    if is_connected(v.connections, n) {
        v
    } else if is_pending(v.pending, n) {
        let k = pending_index(v.pending, n);
        TableView {
            pending: v.pending.update(
                k,
                PendingView { node_id: n, waiters: v.pending[k].waiters.push(req) },
            ),
            ..v
        }
    } else {
        TableView {
            pending: v.pending.push(PendingView { node_id: n, waiters: seq![req] }),
            ..v
        }
    }
}

/// The requests waiting on the dial of node `n`.
pub open spec fn waiters_of(v: TableView, n: Seq<char>) -> Seq<u64> {
    if is_pending(v.pending, n) {
        v.pending[pending_index(v.pending, n)].waiters
    } else {
        Seq::empty()
    }
}

/// The dials in flight once the dial of node `n` has finished.
pub open spec fn pending_without(ps: Seq<PendingView>, n: Seq<char>) -> Seq<PendingView> {
    if is_pending(ps, n) {
        ps.remove(pending_index(ps, n))
    } else {
        ps
    }
}

/// The connection that registering node `n` creates.
pub open spec fn new_connection(
    v: TableView,
    n: Seq<char>,
    direction: ConnectionDirection,
    public_key: Seq<char>,
) -> ConnectionView {
    ConnectionView { node_id: n, id: v.next_id, direction, public_key }
}

/// The id given to the connection registered after the one with id `id`.
pub open spec fn following_id(id: u64) -> u64 {
    if id == u64::MAX {
        0
    } else {
        (id + 1) as u64
    }
}

/// The table after an established session with node `n` is offered to it: the
/// session is added unless the node is connected already.
pub open spec fn register_spec(
    v: TableView,
    n: Seq<char>,
    direction: ConnectionDirection,
    public_key: Seq<char>,
) -> TableView {
    if is_connected(v.connections, n) {
        v
    } else {
        TableView {
            connections: v.connections.push(new_connection(v, n, direction, public_key)),
            next_id: following_id(v.next_id),
            ..v
        }
    }
}

/// The table after the dial of node `n` finished with `outcome`, the
/// authenticated public key on success.
pub open spec fn complete_spec(
    v: TableView,
    n: Seq<char>,
    outcome: Result<Seq<char>, ConnectionManagerError>,
) -> TableView {
    let cleared = TableView { pending: pending_without(v.pending, n), ..v };
    match outcome {
        Ok(pk) => register_spec(cleared, n, ConnectionDirection::Outbound, pk),
        Err(_) => cleared,
    }
}

/// The table after node `n` is disconnected.
pub open spec fn disconnect_spec(v: TableView, n: Seq<char>) -> TableView {
    if is_connected(v.connections, n) {
        TableView {
            connections: v.connections.remove(connection_index(v.connections, n)),
            ..v
        }
    } else {
        v
    }
}

/// Whether a handle still denotes a live connection of the table.
pub open spec fn handle_is_live(cs: Seq<ConnectionView>, h: ConnectionView) -> bool {
    exists|i: int| 0 <= i < cs.len() && #[trigger] cs[i].node_id == h.node_id && cs[i].id == h.id
}

/// Whether `e` is the error given to a session that would duplicate a live connection.
pub open spec fn is_duplicate_error(e: ConnectionManagerError) -> bool {
    e matches ConnectionManagerError::PeerConnectionError(text) && text@ == duplicate_text()
}

/// The text of the error given to a session that would duplicate a live connection.
pub open spec fn duplicate_text() -> Seq<char> {
    "Duplicate connection: the peer is connected already"@
}

impl View for ConnectionTable {
    type V = TableView;

    closed spec fn view(&self) -> TableView {
        TableView {
            connections: self.connections@.map_values(|c: PeerConnection| c@),
            pending: self.pending@.map_values(|p: PendingDial| p@),
            next_id: self.next_id,
        }
    }
}

impl ConnectionTable {
    /// The table's invariant: one live connection and one dial in flight per node id at most.
    pub open spec fn wf(&self) -> bool {
        table_wf(self@)
    }

    /// An empty table.
    pub fn new() -> (r: ConnectionTable)
        ensures
            r.wf(),
            r@.connections.len() == 0,
            r@.pending.len() == 0,
    {
        let r = ConnectionTable { connections: Vec::new(), pending: Vec::new(), next_id: 0 };
        assert(r@.connections =~= Seq::empty());
        assert(r@.pending =~= Seq::empty());
        r
    }

    fn find_connection(&self, n: &String) -> (r: Option<usize>)
        ensures
            match r {
                Some(i) => i < self@.connections.len() && self@.connections[i as int].node_id == n@,
                None => !is_connected(self@.connections, n@),
            },
    {
        let mut i: usize = 0;
        while i < self.connections.len()
            invariant
                i <= self.connections.len(),
                forall|j: int| 0 <= j < i ==> self@.connections[j].node_id != n@,
            decreases self.connections.len() - i,
        {
            if self.connections[i].node_id == *n {
                return Some(i);
            }
            i += 1;
        }
        None
    }

    fn find_pending(&self, n: &String) -> (r: Option<usize>)
        ensures
            match r {
                Some(i) => i < self@.pending.len() && self@.pending[i as int].node_id == n@,
                None => !is_pending(self@.pending, n@),
            },
    {
        let mut i: usize = 0;
        while i < self.pending.len()
            invariant
                i <= self.pending.len(),
                forall|j: int| 0 <= j < i ==> self@.pending[j].node_id != n@,
            decreases self.pending.len() - i,
        {
            if self.pending[i].node_id == *n {
                return Some(i);
            }
            i += 1;
        }
        None
    }

    /// Handles a connect request `request` for `node_id`: answers with the live
    /// connection if there is one, and otherwise coalesces the request with the
    /// dial in flight for that node or asks the caller to start one.
    pub fn request_connect(&mut self, node_id: String, request: u64) -> (r: ConnectDecision)
        requires
            old(self).wf(),
        ensures
            final(self).wf(),
            final(self)@ == connect_spec(old(self)@, node_id@, request),
            match r {
                ConnectDecision::Existing(h) => lookup(old(self)@.connections, node_id@) == Some(h@),
                ConnectDecision::StartDial => !is_connected(old(self)@.connections, node_id@)
                    && !is_pending(old(self)@.pending, node_id@),
                ConnectDecision::Joined => !is_connected(old(self)@.connections, node_id@)
                    && is_pending(old(self)@.pending, node_id@),
            },
    {
        let ghost v = self@;
        match self.find_connection(&node_id) {
            Some(i) => {
                assert(connection_index(v.connections, node_id@) == i);
                return ConnectDecision::Existing(self.connections[i].duplicate());
            },
            None => {},
        }
        match self.find_pending(&node_id) {
            Some(k) => {
                assert(pending_index(v.pending, node_id@) == k);
                self.pending[k].waiters.push(request);
                assert(self@.pending =~= v.pending.update(
                    k as int,
                    PendingView { node_id: node_id@, waiters: v.pending[k as int].waiters.push(request) },
                ));
                ConnectDecision::Joined
            },
            None => {
                let mut waiters: Vec<u64> = Vec::new();
                waiters.push(request);
                assert(waiters@ =~= seq![request]);
                self.pending.push(PendingDial { node_id, waiters });
                assert(self@.pending =~= v.pending.push(PendingView { node_id: node_id@, waiters: seq![request] }));
                assert(self@.connections =~= v.connections);
                ConnectDecision::StartDial
            },
        }
    }

    /// Offers an established session with `node_id` to the table. It is added
    /// unless the node is connected already, in which case the live connection
    /// is kept and the new session is refused.
    fn register(
        &mut self,
        node_id: String,
        direction: ConnectionDirection,
        public_key: String,
    ) -> (r: Result<PeerConnection, ConnectionManagerError>)
        requires
            old(self).wf(),
        ensures
            final(self).wf(),
            final(self)@ == register_spec(old(self)@, node_id@, direction, public_key@),
            match r {
                Ok(h) => !is_connected(old(self)@.connections, node_id@)
                    && h@ == new_connection(old(self)@, node_id@, direction, public_key@),
                Err(e) => is_connected(old(self)@.connections, node_id@) && is_duplicate_error(e),
            },
    {
        let ghost v = self@;
        match self.find_connection(&node_id) {
            Some(_) => {
                let text = String::from_str("Duplicate connection: the peer is connected already");
                proof {
                    reveal_strlit("Duplicate connection: the peer is connected already");
                }
                return Err(ConnectionManagerError::PeerConnectionError(text));
            },
            None => {},
        }
        let id = self.next_id;
        self.next_id = if id == u64::MAX { 0 } else { id + 1 };
        let conn = PeerConnection { node_id, id, direction, public_key };
        let handle = conn.duplicate();
        self.connections.push(conn);
        assert(self@.connections =~= v.connections.push(new_connection(v, conn@.node_id, direction, conn@.public_key)));
        assert(self@.pending =~= v.pending);
        Ok(handle)
    }

    /// Applies the outcome of the dial of `node_id`: the authenticated public
    /// key on success. The dial leaves the set of dials in flight; on success
    /// its session is registered as an outbound connection. The one result is
    /// returned together with every request that waited on the dial.
    pub fn complete_dial(
        &mut self,
        node_id: String,
        outcome: Result<String, ConnectionManagerError>,
    ) -> (r: DialCompletion)
        requires
            old(self).wf(),
        ensures
            final(self).wf(),
            final(self)@ == complete_spec(
                old(self)@,
                node_id@,
                match outcome {
                    Ok(pk) => Ok(pk@),
                    Err(e) => Err(e),
                },
            ),
            r.waiters@ == waiters_of(old(self)@, node_id@),
            match outcome {
                Ok(pk) => match r.result {
                    Ok(h) => !is_connected(old(self)@.connections, node_id@) && h@
                        == new_connection(old(self)@, node_id@, ConnectionDirection::Outbound, pk@),
                    Err(e) => is_connected(old(self)@.connections, node_id@) && is_duplicate_error(e),
                },
                Err(e) => r.result == Err::<PeerConnection, ConnectionManagerError>(e),
            },
    {
        let ghost v = self@;
        let waiters = match self.find_pending(&node_id) {
            Some(k) => {
                assert(pending_index(v.pending, node_id@) == k);
                let p = self.pending.remove(k);
                assert(self@.pending =~= v.pending.remove(k as int));
                p.waiters
            },
            None => Vec::new(),
        };
        assert(self@.pending =~= pending_without(v.pending, node_id@));
        assert(self@.connections =~= v.connections);
        let result = match outcome {
            Ok(pk) => self.register(node_id, ConnectionDirection::Outbound, pk),
            Err(e) => Err(e),
        };
        DialCompletion { waiters, result }
    }

    /// Registers a session accepted by a listener as an inbound connection,
    /// unless the node is connected already.
    pub fn register_inbound(&mut self, node_id: String, public_key: String) -> (r: Result<
        PeerConnection,
        ConnectionManagerError,
    >)
        requires
            old(self).wf(),
        ensures
            final(self).wf(),
            final(self)@ == register_spec(
                old(self)@,
                node_id@,
                ConnectionDirection::Inbound,
                public_key@,
            ),
            match r {
                Ok(h) => !is_connected(old(self)@.connections, node_id@) && h@ == new_connection(
                    old(self)@,
                    node_id@,
                    ConnectionDirection::Inbound,
                    public_key@,
                ),
                Err(e) => is_connected(old(self)@.connections, node_id@) && is_duplicate_error(e),
            },
    {
        self.register(node_id, ConnectionDirection::Inbound, public_key)
    }

    /// Removes the live connection of `node_id`; returns whether there was one.
    /// Disconnecting a node that is not connected changes nothing.
    pub fn disconnect(&mut self, node_id: &String) -> (r: bool)
        requires
            old(self).wf(),
        ensures
            final(self).wf(),
            final(self)@ == disconnect_spec(old(self)@, node_id@),
            r == is_connected(old(self)@.connections, node_id@),
    {
        let ghost v = self@;
        match self.find_connection(node_id) {
            Some(i) => {
                assert(connection_index(v.connections, node_id@) == i);
                let _removed = self.connections.remove(i);
                assert(self@.connections =~= v.connections.remove(i as int));
                assert(self@.pending =~= v.pending);
                true
            },
            None => false,
        }
    }

    /// The live connection of `node_id`, if any.
    pub fn get_connection(&self, node_id: &String) -> (r: Option<PeerConnection>)
        requires
            self.wf(),
        ensures
            match r {
                Some(h) => lookup(self@.connections, node_id@) == Some(h@),
                None => lookup(self@.connections, node_id@) is None,
            },
    {
        match self.find_connection(node_id) {
            Some(i) => {
                assert(connection_index(self@.connections, node_id@) == i);
                Some(self.connections[i].duplicate())
            },
            None => None,
        }
    }

    /// A snapshot of every live connection.
    pub fn list_connections(&self) -> (r: Vec<PeerConnection>)
        ensures
            r@.map_values(|c: PeerConnection| c@) == self@.connections,
    {
        let mut r: Vec<PeerConnection> = Vec::new();
        let mut i: usize = 0;
        while i < self.connections.len()
            invariant
                i <= self.connections.len(),
                r@.len() == i,
                forall|j: int| 0 <= j < i ==> #[trigger] r@[j]@ == self@.connections[j],
            decreases self.connections.len() - i,
        {
            r.push(self.connections[i].duplicate());
            i += 1;
        }
        assert(r@.map_values(|c: PeerConnection| c@) =~= self@.connections);
        r
    }

    /// Routes a substream request made through `handle`: it reaches the
    /// connection's task while the table still holds that connection, and
    /// fails as a send on a closed channel once the connection is gone.
    pub fn open_substream(&self, handle: &PeerConnection) -> (r: Result<u64, PeerConnectionError>)
        requires
            self.wf(),
        ensures
            match r {
                Ok(id) => handle_is_live(self@.connections, handle@) && id == handle.id,
                Err(e) => !handle_is_live(self@.connections, handle@)
                    && e == PeerConnectionError::InternalRequestSendFailed,
            },
    {
        match self.find_connection(&handle.node_id) {
            Some(i) => {
                if self.connections[i].id == handle.id {
                    assert(self@.connections[i as int].node_id == handle@.node_id);
                    Ok(handle.id)
                } else {
                    Err(PeerConnectionError::InternalRequestSendFailed)
                }
            },
            None => Err(PeerConnectionError::InternalRequestSendFailed),
        }
    }
}

/// The table after connect requests `reqs` for node `n`, applied in order.
pub open spec fn connect_all(v: TableView, n: Seq<char>, reqs: Seq<u64>) -> TableView
    decreases reqs.len(),
{
    if reqs.len() == 0 {
        v
    } else {
        connect_spec(connect_all(v, n, reqs.drop_last()), n, reqs.last())
    }
}

/// Every request the table applies keeps its invariant: at any point at most
/// one live connection exists per node id, whatever the order of connects,
/// completed dials, inbound sessions and disconnects.
pub proof fn lemma_one_connection_per_node(
    v: TableView,
    n: Seq<char>,
    req: u64,
    direction: ConnectionDirection,
    public_key: Seq<char>,
    outcome: Result<Seq<char>, ConnectionManagerError>,
)
    requires
        table_wf(v),
    ensures
        table_wf(connect_spec(v, n, req)),
        table_wf(register_spec(v, n, direction, public_key)),
        table_wf(complete_spec(v, n, outcome)),
        table_wf(disconnect_spec(v, n)),
        forall|i: int, j: int|
            0 <= i < v.connections.len() && 0 <= j < v.connections.len()
                && v.connections[i].node_id == n && v.connections[j].node_id == n ==> i == j,
{
    let cleared = TableView { pending: pending_without(v.pending, n), ..v };
    assert(table_wf(cleared)) by {
        if is_pending(v.pending, n) {
            let k = pending_index(v.pending, n);
            let ps = v.pending.remove(k);
            assert forall|i: int, j: int|
                0 <= i < ps.len() && 0 <= j < ps.len() && #[trigger] ps[i].node_id
                    == #[trigger] ps[j].node_id implies i == j by {
                let i0 = if i < k { i } else { i + 1 };
                let j0 = if j < k { j } else { j + 1 };
                assert(v.pending[i0].node_id == v.pending[j0].node_id);
            }
        }
    }
    lemma_register_keeps_wf(v, n, direction, public_key);
    match outcome {
        Ok(pk) => lemma_register_keeps_wf(cleared, n, ConnectionDirection::Outbound, pk),
        Err(_) => {},
    }
    if is_connected(v.connections, n) {
        let k = connection_index(v.connections, n);
        let cs = v.connections.remove(k);
        assert forall|i: int, j: int|
            0 <= i < cs.len() && 0 <= j < cs.len() && #[trigger] cs[i].node_id
                == #[trigger] cs[j].node_id implies i == j by {
            let i0 = if i < k { i } else { i + 1 };
            let j0 = if j < k { j } else { j + 1 };
            assert(v.connections[i0].node_id == v.connections[j0].node_id);
        }
    }
    lemma_connect_keeps_wf(v, n, req);
}

proof fn lemma_connect_keeps_wf(v: TableView, n: Seq<char>, req: u64)
    requires
        table_wf(v),
    ensures
        table_wf(connect_spec(v, n, req)),
{
    if !is_connected(v.connections, n) && is_pending(v.pending, n) {
        let ps = connect_spec(v, n, req).pending;
        assert forall|i: int, j: int|
            0 <= i < ps.len() && 0 <= j < ps.len() && #[trigger] ps[i].node_id
                == #[trigger] ps[j].node_id implies i == j by {
            assert(v.pending[i].node_id == v.pending[j].node_id);
        }
    }
    if !is_connected(v.connections, n) && !is_pending(v.pending, n) {
        let ps = connect_spec(v, n, req).pending;
        assert forall|i: int, j: int|
            0 <= i < ps.len() && 0 <= j < ps.len() && #[trigger] ps[i].node_id
                == #[trigger] ps[j].node_id implies i == j by {
            if i < v.pending.len() && j < v.pending.len() {
                assert(v.pending[i].node_id == v.pending[j].node_id);
            }
        }
    }
}

proof fn lemma_register_keeps_wf(
    v: TableView,
    n: Seq<char>,
    direction: ConnectionDirection,
    public_key: Seq<char>,
)
    requires
        table_wf(v),
    ensures
        table_wf(register_spec(v, n, direction, public_key)),
{
    if !is_connected(v.connections, n) {
        let cs = register_spec(v, n, direction, public_key).connections;
        assert forall|i: int, j: int|
            0 <= i < cs.len() && 0 <= j < cs.len() && #[trigger] cs[i].node_id
                == #[trigger] cs[j].node_id implies i == j by {
            if i < v.connections.len() && j < v.connections.len() {
                assert(v.connections[i].node_id == v.connections[j].node_id);
            } else if i < v.connections.len() {
                assert(v.connections[i].node_id == n);
            } else if j < v.connections.len() {
                assert(v.connections[j].node_id == n);
            }
        }
    }
}

/// Connect requests for a node that is neither connected nor being dialed
/// are coalesced: the first starts the one dial, every later one finds that
/// dial in flight and joins it, and the dial's single outcome is delivered to
/// exactly the requests made, in their order.
pub proof fn lemma_connects_coalesce(v: TableView, n: Seq<char>, reqs: Seq<u64>)
    requires
        table_wf(v),
        !is_connected(v.connections, n),
        !is_pending(v.pending, n),
    ensures
        forall|i: int|
            0 < i < reqs.len() ==> is_pending(#[trigger] connect_all(v, n, reqs.take(i)).pending, n),
        table_wf(connect_all(v, n, reqs)),
        connect_all(v, n, reqs).connections == v.connections,
        waiters_of(connect_all(v, n, reqs), n) == reqs,
    decreases reqs.len(),
{
    if reqs.len() > 0 {
        let prev = reqs.drop_last();
        lemma_connects_coalesce(v, n, prev);
        let w = connect_all(v, n, prev);
        lemma_connect_keeps_wf(w, n, reqs.last());
        if prev.len() == 0 {
            assert(w == v);
            let ps = connect_all(v, n, reqs).pending;
            assert(ps[ps.len() - 1].node_id == n);
            assert(pending_index(ps, n) == ps.len() - 1);
            assert(reqs =~= seq![reqs.last()]);
        } else {
            assert(prev.take(prev.len() as int) =~= prev);
            let k = pending_index(w.pending, n);
            let ps = connect_all(v, n, reqs).pending;
            assert(ps[k].node_id == n);
            assert(pending_index(ps, n) == k);
            assert(reqs =~= prev.push(reqs.last()));
        }
        assert forall|i: int| 0 < i < reqs.len() implies is_pending(
            #[trigger] connect_all(v, n, reqs.take(i)).pending,
            n,
        ) by {
            assert(reqs.take(i) =~= prev.take(i));
            if i == prev.len() {
                assert(prev.take(i) =~= prev);
            }
        }
    }
}

/// A dial that fails, such as one whose peer authenticated to an unexpected
/// key, never adds a connection: the table's connections are as before.
pub proof fn lemma_failed_dial_not_registered(
    v: TableView,
    n: Seq<char>,
    e: ConnectionManagerError,
)
    ensures
        complete_spec(v, n, Err(e)).connections == v.connections,
        lookup(complete_spec(v, n, Err(e)).connections, n) == lookup(v.connections, n),
{
}

/// Once node `n` is disconnected the table has no connection for it, and any
/// handle on its former connection no longer reaches a live connection.
pub proof fn lemma_disconnect_invalidates_handles(v: TableView, n: Seq<char>, h: ConnectionView)
    requires
        table_wf(v),
        h.node_id == n,
    ensures
        lookup(disconnect_spec(v, n).connections, n) is None,
        !handle_is_live(disconnect_spec(v, n).connections, h),
{
    if is_connected(v.connections, n) {
        let k = connection_index(v.connections, n);
        let cs = disconnect_spec(v, n).connections;
        assert forall|i: int| 0 <= i < cs.len() implies #[trigger] cs[i].node_id != n by {
            let i0 = if i < k { i } else { i + 1 };
            assert(v.connections[i0].node_id != v.connections[k].node_id || i0 == k);
        }
    }
}

} // verus!
