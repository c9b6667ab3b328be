//! Connections and the peer table.
//!
//! A connection records the peer at its far end, both addresses, its
//! direction, whether it runs through a relay, and a handle to its
//! multiplexed stream (assigned by the driver). The peer table maps peer
//! identifiers to connections, keys unique; only the owning event loop
//! mutates it. Inserting for a peer that already has an entry replaces the
//! entry, which is how a direct connection supersedes a relayed one.

use vstd::prelude::*;

use crate::identity::{peer_views, PeerId};
use crate::multiaddr::{Multiaddr, SegmentView};

verus! {

/// Who opened the connection.
#[derive(Clone, Copy, Debug, PartialEq, Eq, Structural)]
pub enum Direction {
    /// The remote dialed us.
    Inbound,
    /// We dialed the remote.
    Outbound,
}

/// One live connection to a peer.
pub struct Connection {
    /// The authenticated peer at the far end.
    pub peer: PeerId,
    /// Our address on this connection.
    pub local_addr: Multiaddr,
    /// The remote's address.
    pub remote_addr: Multiaddr,
    /// Who opened it.
    pub direction: Direction,
    /// Whether traffic runs through a relay.
    pub relayed: bool,
    /// Driver-assigned handle to the multiplexed stream.
    pub stream: u64,
}

/// The mathematical shape of a [`Connection`].
pub struct ConnectionView {
    pub peer: Seq<u8>,
    pub local_addr: Seq<SegmentView>,
    pub remote_addr: Seq<SegmentView>,
    pub direction: Direction,
    pub relayed: bool,
    pub stream: u64,
}

impl View for Connection {
    type V = ConnectionView;

    open spec fn view(&self) -> ConnectionView {
        ConnectionView {
            peer: self.peer@,
            local_addr: self.local_addr@,
            remote_addr: self.remote_addr@,
            direction: self.direction,
            relayed: self.relayed,
            stream: self.stream,
        }
    }
}

impl Connection {
    /// An independent copy of the connection record.
    pub fn duplicate(&self) -> (r: Connection)
        ensures
            r@ == self@,
    {
        Connection {
            peer: self.peer.duplicate(),
            local_addr: self.local_addr.duplicate(),
            remote_addr: self.remote_addr.duplicate(),
            direction: self.direction,
            relayed: self.relayed,
            stream: self.stream,
        }
    }
}

/// Keys are unique: at most one entry per peer.
pub open spec fn table_wf(t: Seq<ConnectionView>) -> bool {
    forall|i: int, j: int| 0 <= i < j < t.len() ==> t[i].peer != t[j].peer
}

/// Whether some entry concerns `peer`.
pub open spec fn table_has(t: Seq<ConnectionView>, peer: Seq<u8>) -> bool {
    exists|i: int| 0 <= i < t.len() && t[i].peer == peer
}

/// The index of the entry for `peer`; meaningful under uniqueness.
pub open spec fn table_index(t: Seq<ConnectionView>, peer: Seq<u8>) -> int {
    choose|i: int| 0 <= i < t.len() && t[i].peer == peer
}

/// Under uniqueness, the table index is the only index naming the peer.
pub proof fn lemma_table_index_is(t: Seq<ConnectionView>, peer: Seq<u8>, i: int)
    requires
        table_wf(t),
        0 <= i < t.len(),
        t[i].peer == peer,
    ensures
        table_has(t, peer),
        table_index(t, peer) == i,
{
    assert(table_has(t, peer));
    let j = table_index(t, peer);
    if i < j {
        assert(t[i].peer != t[j].peer);
    } else if j < i {
        assert(t[j].peer != t[i].peer);
    }
}

/// The table after inserting `c`: replace the peer's entry if it has one,
/// append otherwise.
pub open spec fn table_insert(t: Seq<ConnectionView>, c: ConnectionView) -> Seq<ConnectionView> {
    if table_has(t, c.peer) {
        t.update(table_index(t, c.peer), c)
    } else {
        t.push(c)
    }
}

/// The table after removing the entry for `peer`, if any.
pub open spec fn table_remove(t: Seq<ConnectionView>, peer: Seq<u8>) -> Seq<ConnectionView> {
    if table_has(t, peer) {
        t.remove(table_index(t, peer))
    } else {
        t
    }
}

/// The peer identifiers of all entries, in table order.
pub open spec fn table_peers(t: Seq<ConnectionView>) -> Seq<Seq<u8>> {
    t.map_values(|c: ConnectionView| c.peer)
}

/// The peer table: peer identifier to connection, keys unique. Created on
/// successful dial or accept; entries leave on close, timeout, or protocol
/// error. Mutated only by the owning event loop.
pub struct PeerTable {
    entries: Vec<Connection>,
}

impl View for PeerTable {
    type V = Seq<ConnectionView>;

    closed spec fn view(&self) -> Seq<ConnectionView> {
        self.entries@.map_values(|c: Connection| c@)
    }
}

impl PeerTable {
    /// An empty table.
    pub fn new() -> (r: PeerTable)
        ensures
            r@ =~= Seq::<ConnectionView>::empty(),
            table_wf(r@),
    {
        PeerTable { entries: Vec::new() }
    }

    /// How many connections are live.
    pub fn len(&self) -> (r: usize)
        ensures
            r == self@.len(),
    {
        self.entries.len()
    }

    /// Finds the index of the entry for `peer`, if any.
    fn find(&self, peer: &PeerId) -> (r: Option<usize>)
        requires
            table_wf(self@),
        ensures
            match r {
                Some(i) => i < self@.len() && self@[i as int].peer == peer@ && table_has(
                    self@,
                    peer@,
                ) && table_index(self@, peer@) == i,
                None => !table_has(self@, peer@),
            },
    {
        let n = self.entries.len();
        let mut i: usize = 0;
        while i < n
            invariant
                n == self.entries.len(),
                n == self@.len(),
                i <= n,
                table_wf(self@),
                forall|j: int| 0 <= j < i ==> self@[j].peer != peer@,
            decreases n - i,
        {
            if self.entries[i].peer.equals(peer) {
                proof {
                    lemma_table_index_is(self@, peer@, i as int);
                }
                return Some(i);
            }
            i = i + 1;
        }
        proof {
            assert(forall|j: int| 0 <= j < self@.len() ==> self@[j].peer != peer@);
        }
        None
    }

    /// Whether `peer` has a live connection.
    pub fn contains(&self, peer: &PeerId) -> (r: bool)
        requires
            table_wf(self@),
        ensures
            r == table_has(self@, peer@),
    {
        self.find(peer).is_some()
    }

    /// Inserts a connection, replacing the peer's previous entry if one
    /// exists. Returns whether the peer is newly connected.
    pub fn insert(&mut self, c: Connection) -> (fresh: bool)
        requires
            table_wf(old(self)@),
        ensures
            table_wf(final(self)@),
            final(self)@ == table_insert(old(self)@, c@),
            fresh == !table_has(old(self)@, c@.peer),
    {
        let found = self.find(&c.peer);
        match found {
            Some(i) => {
                let ghost pre = self@;
                self.entries.set(i, c);
                proof {
                    assert(self@ =~= pre.update(i as int, c@));
                }
                false
            },
            None => {
                let ghost pre = self@;
                self.entries.push(c);
                proof {
                    assert(self@ =~= pre.push(c@));
                }
                true
            },
        }
    }

    /// Removes the entry for `peer`. Returns whether one existed.
    pub fn remove(&mut self, peer: &PeerId) -> (removed: bool)
        requires
            table_wf(old(self)@),
        ensures
            table_wf(final(self)@),
            final(self)@ == table_remove(old(self)@, peer@),
            removed == table_has(old(self)@, peer@),
    {
        let found = self.find(peer);
        match found {
            Some(i) => {
                let ghost pre = self@;
                let ghost at = i as int;
                self.entries.remove(i);
                proof {
                    assert(self@ =~= pre.remove(at));
                    assert forall|p: int, q: int|
                        0 <= p < q < self@.len() implies self@[p].peer != self@[q].peer by {
                        if q < at {
                        } else if p < at {
                            assert(self@[q] == pre[q + 1]);
                        } else {
                            assert(self@[p] == pre[p + 1]);
                            assert(self@[q] == pre[q + 1]);
                        }
                    }
                }
                true
            },
            None => false,
        }
    }

    /// Drops every entry (shutdown).
    pub fn clear(&mut self)
        ensures
            final(self)@ =~= Seq::<ConnectionView>::empty(),
            table_wf(final(self)@),
    {
        self.entries = Vec::new();
    }

    /// The identifiers of all connected peers, in table order.
    pub fn peer_ids(&self) -> (r: Vec<PeerId>)
        ensures
            peer_views(r@) == table_peers(self@),
    {
        let mut out: Vec<PeerId> = Vec::new();
        let n = self.entries.len();
        let mut i: usize = 0;
        proof {
            assert(peer_views(out@) =~= table_peers(self@.subrange(0, 0)));
        }
        while i < n
            invariant
                n == self.entries.len(),
                n == self@.len(),
                i <= n,
                peer_views(out@) =~= table_peers(self@.subrange(0, i as int)),
            decreases n - i,
        {
            let ghost before = out@;
            out.push(self.entries[i].peer.duplicate());
            proof {
                assert(peer_views(out@) =~= peer_views(before).push(self@[i as int].peer));
                assert(peer_views(out@) =~= table_peers(self@.subrange(0, i + 1)));
            }
            i = i + 1;
        }
        proof {
            assert(self@.subrange(0, n as int) =~= self@);
            assert(peer_views(out@) =~= table_peers(self@));
        }
        out
    }
}

} // verus!
