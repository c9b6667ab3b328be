//! Structured network addresses: an ordered sequence of typed segments.
//!
//! An address is composed segment by segment and compared structurally, by
//! equality of its segment sequence, never by string form. The circuit
//! segment marks the part of an address that runs through a relay.

use vstd::prelude::*;

use crate::identity::PeerId;

verus! {

/// One typed segment of a multiaddress.
pub enum Segment {
    /// An IPv4 network address.
    Ip4(u8, u8, u8, u8),
    /// A TCP port.
    Tcp(u16),
    /// A UDP port.
    Udp(u16),
    /// The QUIC transport marker (UDP-based, encrypted and multiplexed).
    QuicV1,
    /// The peer expected at this address.
    P2p(PeerId),
    /// Traffic from here on is forwarded through the preceding relay.
    P2pCircuit,
}

/// The mathematical shape of a [`Segment`]: the same variants over plain
/// values.
pub enum SegmentView {
    Ip4(u8, u8, u8, u8),
    Tcp(u16),
    Udp(u16),
    QuicV1,
    P2p(Seq<u8>),
    P2pCircuit,
}

impl View for Segment {
    type V = SegmentView;

    open spec fn view(&self) -> SegmentView {
        match self {
            Segment::Ip4(a, b, c, d) => SegmentView::Ip4(*a, *b, *c, *d),
            Segment::Tcp(p) => SegmentView::Tcp(*p),
            Segment::Udp(p) => SegmentView::Udp(*p),
            Segment::QuicV1 => SegmentView::QuicV1,
            Segment::P2p(peer) => SegmentView::P2p(peer@),
            Segment::P2pCircuit => SegmentView::P2pCircuit,
        }
    }
}

impl Segment {
    /// Structural equality of two segments.
    pub fn equals(&self, other: &Segment) -> (r: bool)
        ensures
            r == (self@ == other@),
    {
        match (self, other) {
            (Segment::Ip4(a1, b1, c1, d1), Segment::Ip4(a2, b2, c2, d2)) => {
                *a1 == *a2 && *b1 == *b2 && *c1 == *c2 && *d1 == *d2
            },
            (Segment::Tcp(p1), Segment::Tcp(p2)) => *p1 == *p2,
            (Segment::Udp(p1), Segment::Udp(p2)) => *p1 == *p2,
            (Segment::QuicV1, Segment::QuicV1) => true,
            (Segment::P2p(peer1), Segment::P2p(peer2)) => peer1.equals(peer2),
            (Segment::P2pCircuit, Segment::P2pCircuit) => true,
            _ => false,
        }
    }

    /// An independent copy of this segment.
    pub fn duplicate(&self) -> (r: Segment)
        ensures
            r@ == self@,
    {
        match self {
            Segment::Ip4(a, b, c, d) => Segment::Ip4(*a, *b, *c, *d),
            Segment::Tcp(p) => Segment::Tcp(*p),
            Segment::Udp(p) => Segment::Udp(*p),
            Segment::QuicV1 => Segment::QuicV1,
            Segment::P2p(peer) => Segment::P2p(peer.duplicate()),
            Segment::P2pCircuit => Segment::P2pCircuit,
        }
    }
}

/// An ordered sequence of segments naming one way to reach a peer.
/// Immutable value type: composition yields a new address.
pub struct Multiaddr {
    segments: Vec<Segment>,
}

impl View for Multiaddr {
    type V = Seq<SegmentView>;

    closed spec fn view(&self) -> Seq<SegmentView> {
        self.segments@.map_values(|s: Segment| s@)
    }
}

impl Multiaddr {
    /// The empty address, the start of any composition.
    pub fn empty() -> (r: Multiaddr)
        ensures
            r@ =~= Seq::<SegmentView>::empty(),
    {
        Multiaddr { segments: Vec::new() }
    }

    /// How many segments the address holds.
    pub fn len(&self) -> (r: usize)
        ensures
            r == self@.len(),
    {
        self.segments.len()
    }

    /// The segments, for a driver that renders the address.
    pub fn segments(&self) -> (r: &Vec<Segment>)
        ensures
            r@.map_values(|s: Segment| s@) == self@,
    {
        &self.segments
    }

    /// The address extended by one segment at its end.
    pub fn with(self, seg: Segment) -> (r: Multiaddr)
        ensures
            r@ =~= self@.push(seg@),
    {
        let ghost pre = self@;
        let mut segments = self.segments;
        segments.push(seg);
        proof {
            assert(segments@.map_values(|s: Segment| s@) =~= pre.push(seg@));
        }
        Multiaddr { segments }
    }

    /// Structural equality: the segment sequences are equal.
    pub fn equals(&self, other: &Multiaddr) -> (r: bool)
        ensures
            r == (self@ == other@),
    {
        if self.segments.len() != other.segments.len() {
            proof {
                assert(self@.len() != other@.len());
            }
            return false;
        }
        let n = self.segments.len();
        let mut i: usize = 0;
        while i < n
            invariant
                n == self.segments.len() == other.segments.len(),
                i <= n,
                forall|j: int| 0 <= j < i ==> self@[j] == other@[j],
            decreases n - i,
        {
            if !self.segments[i].equals(&other.segments[i]) {
                proof {
                    assert(self@[i as int] != other@[i as int]);
                }
                return false;
            }
            i = i + 1;
        }
        proof {
            assert(self@ =~= other@);
        }
        true
    }

    /// An independent copy of the address.
    pub fn duplicate(&self) -> (r: Multiaddr)
        ensures
            r@ == self@,
    {
        let mut segments: Vec<Segment> = Vec::new();
        let n = self.segments.len();
        let mut i: usize = 0;
        while i < n
            invariant
                n == self.segments.len(),
                i <= n,
                segments@.map_values(|s: Segment| s@) =~= self@.subrange(0, i as int),
            decreases n - i,
        {
            let ghost prev = segments@.map_values(|s: Segment| s@);
            let copy = self.segments[i].duplicate();
            segments.push(copy);
            proof {
                assert(segments@.map_values(|s: Segment| s@) =~= prev.push(copy@));
                assert(segments@.map_values(|s: Segment| s@) =~= self@.subrange(0, i + 1));
            }
            i = i + 1;
        }
        proof {
            assert(segments@.map_values(|s: Segment| s@) =~= self@);
        }
        Multiaddr { segments }
    }

    /// The wildcard TCP listen address: any interface, ephemeral port.
    pub fn listen_tcp_any() -> (r: Multiaddr)
        ensures
            r@ =~= seq![SegmentView::Ip4(0, 0, 0, 0), SegmentView::Tcp(0)],
    {
        Multiaddr::empty().with(Segment::Ip4(0, 0, 0, 0)).with(Segment::Tcp(0))
    }

    /// The wildcard QUIC listen address: any interface, ephemeral port.
    pub fn listen_quic_any() -> (r: Multiaddr)
        ensures
            r@ =~= seq![
                SegmentView::Ip4(0, 0, 0, 0),
                SegmentView::Udp(0),
                SegmentView::QuicV1,
            ],
    {
        Multiaddr::empty().with(Segment::Ip4(0, 0, 0, 0)).with(Segment::Udp(0)).with(
            Segment::QuicV1,
        )
    }

    /// The relay's address with the circuit marker appended: where a
    /// listener asks the relay to accept traffic on its behalf.
    pub fn circuit_listen(&self) -> (r: Multiaddr)
        ensures
            r@ =~= self@.push(SegmentView::P2pCircuit),
    {
        self.duplicate().with(Segment::P2pCircuit)
    }

    /// The relay's address with the circuit marker and the target peer
    /// appended: how a dialer names a peer reached through the relay.
    pub fn circuit_dial(&self, target: &PeerId) -> (r: Multiaddr)
        ensures
            r@ =~= self@.push(SegmentView::P2pCircuit).push(SegmentView::P2p(target@)),
    {
        self.duplicate().with(Segment::P2pCircuit).with(Segment::P2p(target.duplicate()))
    }
}

} // verus!
