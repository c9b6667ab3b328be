//! The single cooperative event loop that drives the whole core.
//!
//! Each call to [`SwarmEventLoop::step`] takes exactly one event — a network
//! event from the driver, a command from the owner, or a timer — routes it
//! to the relay, hole-punch and gossip components, mutates the shared state
//! (peer table, reservation, dedup cache) as the single writer, and returns
//! the outbound events for the owner together with the actions the driver
//! must perform. [`step_post`] states the whole contract: what every event
//! does to the state and exactly which outputs and actions come back.
//!
//! Events from one source are handed in, and handled, in the order they
//! were produced; ordering across sources is whatever readiness dictated in
//! the driver. A shutdown command closes every connection and notifies the
//! owner; after it, the loop is inert.

use vstd::prelude::*;

use crate::bytes::copy_bytes;
use crate::config::Config;
use crate::errors::{BootstrapError, GossipError, RelayError, TransportError};
use crate::gossip::{
    cache_insert, forward_targets, message_id, message_valid, GossipMessage, GossipMessageView,
    GossipRouter, InboundOutcome,
};
use crate::holepunch::{punch_transition, punch_wf, HolePunchCoordinator, PunchDirective, PunchEvent};
use crate::identity::{peer_views, signature_of_seed, PeerId, PeerIdentity};
use crate::multiaddr::{Multiaddr, SegmentView};
use crate::relay::{
    lemma_transition_keeps_role, relay_transition, relay_wf, RelayAction, RelayCoordinator,
    RelayEvent, RelayPhase,
};
use crate::transport::{
    table_has, table_insert, table_peers, table_remove, table_wf, Connection, ConnectionView,
    PeerTable,
};

verus! {

/// Fixed capacity of the duplicate-suppression cache.
pub const DEDUP_CAPACITY: usize = 1024;

/// A command from the owner of the core (the UI collaborator).
pub enum Command {
    /// Sign, record and flood a message on a topic.
    Publish { topic: Vec<u8>, payload: Vec<u8> },
    /// Record local interest in a topic.
    Subscribe { topic: Vec<u8> },
    /// Withdraw local interest in a topic.
    Unsubscribe { topic: Vec<u8> },
    /// Close all connections, notify, and go inert.
    Shutdown,
}

/// One event for the loop: whatever source became ready first.
pub enum InputEvent {
    /// The driver began listening on an address.
    ListeningStarted { addr: Multiaddr },
    /// The connection to the relay is established.
    RelayConnected,
    /// The relay's address-exchange told us our observed address.
    ObservedAddressLearned { addr: Multiaddr },
    /// The relay acknowledged receiving our address.
    AddressToldToRelay,
    /// The relay accepted our reservation request.
    ReservationAccepted,
    /// The relay rejected our reservation request.
    ReservationRejected,
    /// The reservation ran out.
    ReservationExpired,
    /// The renewal timer says the reservation should be refreshed.
    RenewalDue,
    /// A relayed inbound connection arrived (listener side).
    InboundCircuitOpened { peer: PeerId },
    /// The relayed circuit to the target peer is up (dialer side).
    CircuitEstablished { peer: PeerId },
    /// The relay refused to open the circuit (dialer side).
    CircuitRefused,
    /// A connection to a peer completed its two-stage upgrade.
    ConnectionEstablished { conn: Connection },
    /// A peer connection closed, timed out, or failed a protocol check.
    ConnectionClosed { peer: PeerId },
    /// An outgoing dial failed before any connection existed.
    OutgoingConnectionFailed { error: TransportError },
    /// The peer's hole-punch candidates arrived over the relayed channel.
    CandidatesReceived { peer: PeerId, candidate_count: usize, rtt_ms: u64 },
    /// The synchronized hole-punch dial timer fired.
    SyncTimerFired { peer: PeerId },
    /// The simultaneous open produced a direct connection.
    DirectConnectionEstablished { peer: PeerId },
    /// The simultaneous open failed.
    DirectDialFailed { peer: PeerId },
    /// A gossip frame arrived from a connected peer.
    MessageArrived { from: PeerId, msg: GossipMessage },
    /// A command from the owner.
    Command { cmd: Command },
}

/// An outbound event for the owner, delivered in production order.
pub enum OutputEvent {
    /// A message on a subscribed topic reached the local subscriber.
    MessageReceived { topic: Vec<u8>, origin: PeerId, payload: Vec<u8>, timestamp_ms: u64 },
    /// The driver listens on this address.
    ListeningOnAddress { addr: Multiaddr },
    /// The relay accepted our reservation.
    RelayReservationAccepted,
    /// A peer connection is up.
    PeerConnected { peer: PeerId },
    /// A peer connection is gone.
    PeerDisconnected { peer: PeerId },
    /// The relayed link to the peer was upgraded to a direct connection.
    HolePunchSucceeded { peer: PeerId },
    /// Hole punching gave up; the link stays relayed for the session.
    HolePunchFailed { peer: PeerId },
}

/// The mathematical shape of an [`OutputEvent`].
pub enum OutputEventView {
    MessageReceived { topic: Seq<u8>, origin: Seq<u8>, payload: Seq<u8>, timestamp_ms: u64 },
    ListeningOnAddress { addr: Seq<SegmentView> },
    RelayReservationAccepted,
    PeerConnected { peer: Seq<u8> },
    PeerDisconnected { peer: Seq<u8> },
    HolePunchSucceeded { peer: Seq<u8> },
    HolePunchFailed { peer: Seq<u8> },
}

impl View for OutputEvent {
    type V = OutputEventView;

    open spec fn view(&self) -> OutputEventView {
        match self {
            OutputEvent::MessageReceived { topic, origin, payload, timestamp_ms } => {
                OutputEventView::MessageReceived {
                    topic: topic@,
                    origin: origin@,
                    payload: payload@,
                    timestamp_ms: *timestamp_ms,
                }
            },
            OutputEvent::ListeningOnAddress { addr } => {
                OutputEventView::ListeningOnAddress { addr: addr@ }
            },
            OutputEvent::RelayReservationAccepted => OutputEventView::RelayReservationAccepted,
            OutputEvent::PeerConnected { peer } => {
                OutputEventView::PeerConnected { peer: peer@ }
            },
            OutputEvent::PeerDisconnected { peer } => {
                OutputEventView::PeerDisconnected { peer: peer@ }
            },
            OutputEvent::HolePunchSucceeded { peer } => {
                OutputEventView::HolePunchSucceeded { peer: peer@ }
            },
            OutputEvent::HolePunchFailed { peer } => {
                OutputEventView::HolePunchFailed { peer: peer@ }
            },
        }
    }
}

/// An instruction for the driver, performed outside the loop.
pub enum Action {
    /// Start listening on this address.
    ListenOn { addr: Multiaddr },
    /// Dial this address.
    Dial { addr: Multiaddr },
    /// Send our hole-punch candidates and round-trip estimate to the peer
    /// over the relayed channel.
    SendCandidates { peer: PeerId },
    /// Arm the synchronized hole-punch dial timer.
    ArmSyncTimer { peer: PeerId, delay_ms: u64 },
    /// Perform the simultaneous direct dial to the peer's candidates.
    DialCandidates { peer: PeerId },
    /// Move traffic off the relayed connection to the peer and close it.
    CloseRelayedConnection { peer: PeerId },
    /// Send an encoded gossip message to the peer.
    SendMessage { to: PeerId, msg: GossipMessage },
    /// Close every connection (shutdown).
    CloseAllConnections,
}

/// The mathematical shape of an [`Action`].
pub enum ActionView {
    ListenOn { addr: Seq<SegmentView> },
    Dial { addr: Seq<SegmentView> },
    SendCandidates { peer: Seq<u8> },
    ArmSyncTimer { peer: Seq<u8>, delay_ms: u64 },
    DialCandidates { peer: Seq<u8> },
    CloseRelayedConnection { peer: Seq<u8> },
    SendMessage { to: Seq<u8>, msg: GossipMessageView },
    CloseAllConnections,
}

impl View for Action {
    type V = ActionView;

    open spec fn view(&self) -> ActionView {
        match self {
            Action::ListenOn { addr } => ActionView::ListenOn { addr: addr@ },
            Action::Dial { addr } => ActionView::Dial { addr: addr@ },
            Action::SendCandidates { peer } => ActionView::SendCandidates { peer: peer@ },
            Action::ArmSyncTimer { peer, delay_ms } => {
                ActionView::ArmSyncTimer { peer: peer@, delay_ms: *delay_ms }
            },
            Action::DialCandidates { peer } => ActionView::DialCandidates { peer: peer@ },
            Action::CloseRelayedConnection { peer } => {
                ActionView::CloseRelayedConnection { peer: peer@ }
            },
            Action::SendMessage { to, msg } => ActionView::SendMessage { to: to@, msg: msg@ },
            Action::CloseAllConnections => ActionView::CloseAllConnections,
        }
    }
}

/// What one step produced: events for the owner, actions for the driver,
/// the error a publish command returned, and the terminal bootstrap error
/// if the core cannot run.
pub struct StepResult {
    /// Outbound events, in production order.
    pub outputs: Vec<OutputEvent>,
    /// Driver instructions, in production order.
    pub actions: Vec<Action>,
    /// What a publish command returned, if this step carried one that failed.
    pub publish_error: Option<GossipError>,
    /// The single terminal bootstrap error, if bootstrap just failed.
    pub fatal: Option<BootstrapError>,
}

impl StepResult {
    /// The outbound events as mathematical values.
    pub open spec fn outs(&self) -> Seq<OutputEventView> {
        self.outputs@.map_values(|o: OutputEvent| o@)
    }

    /// The actions as mathematical values.
    pub open spec fn acts(&self) -> Seq<ActionView> {
        self.actions@.map_values(|a: Action| a@)
    }
}

/// The whole core: identity and configuration, the three protocol
/// components, and the shared state only this loop writes.
pub struct SwarmEventLoop {
    /// The local peer's identity; one per process lifetime.
    pub identity: PeerIdentity,
    /// The well-known relay to bootstrap through.
    pub relay_address: Multiaddr,
    /// The target peer, for the dialer role.
    pub remote_peer: Option<PeerId>,
    /// The relay bootstrap state machine.
    pub relay: RelayCoordinator,
    /// The hole-punch coordinator.
    pub punch: HolePunchCoordinator,
    /// The gossip router.
    pub gossip: GossipRouter,
    /// The peer table; mutated only here.
    pub peers: PeerTable,
    /// Set once a shutdown command was processed; the loop is then inert.
    pub shutdown: bool,
}

/// The loop's invariant: every component is well formed, and a dialer knows
/// its target.
pub open spec fn swarm_wf(s: SwarmEventLoop) -> bool {
    &&& s.identity.wf()
    &&& relay_wf(s.relay)
    &&& punch_wf(s.punch@)
    &&& s.gossip.wf()
    &&& table_wf(s.peers@)
    &&& s.relay.role is Dialer ==> s.remote_peer is Some
}

/// Nothing observable changed.
pub open spec fn state_eq(pre: SwarmEventLoop, post: SwarmEventLoop) -> bool {
    &&& post.identity == pre.identity
    &&& post.relay_address == pre.relay_address
    &&& post.remote_peer == pre.remote_peer
    &&& post.relay == pre.relay
    &&& post.punch@ == pre.punch@
    &&& post.gossip.topics() == pre.gossip.topics()
    &&& post.gossip.seen_ids() == pre.gossip.seen_ids()
    &&& post.gossip.cap() == pre.gossip.cap()
    &&& post.peers@ == pre.peers@
    &&& post.shutdown == pre.shutdown
}

/// The driver actions a relay instruction translates to: the addresses are
/// composed from the configured relay address, with the circuit marker and
/// — for the dialer — the target peer appended.
pub open spec fn relay_actions(pre: SwarmEventLoop, act: RelayAction) -> Seq<ActionView> {
    match act {
        RelayAction::Ignore => Seq::empty(),
        RelayAction::DialRelay => seq![ActionView::Dial { addr: pre.relay_address@ }],
        RelayAction::RequestReservation => {
            seq![
                ActionView::ListenOn { addr: pre.relay_address@.push(SegmentView::P2pCircuit) },
            ]
        },
        RelayAction::DialPeerViaRelay => {
            match pre.remote_peer {
                Some(p) => {
                    seq![
                        ActionView::Dial {
                            addr: pre.relay_address@.push(SegmentView::P2pCircuit).push(
                                SegmentView::P2p(p@),
                            ),
                        },
                    ]
                },
                None => Seq::empty(),
            }
        },
        RelayAction::AcceptInbound => Seq::empty(),
        RelayAction::Fatal(_) => Seq::empty(),
        RelayAction::FatalDial => Seq::empty(),
    }
}

/// The terminal error a relay instruction surfaces, if any.
pub open spec fn relay_fatal(act: RelayAction) -> Option<BootstrapError> {
    match act {
        RelayAction::Fatal(e) => Some(BootstrapError::Relay(e)),
        _ => None,
    }
}

/// The relay coordinator will record this acceptance (rather than ignore
/// it), so the owner is told.
pub open spec fn acceptance_counts(s: RelayCoordinator) -> bool {
    &&& !(s.phase is Failed)
    &&& s.reservation is Some
    &&& s.phase is Bootstrapped || s.phase is Listening || s.phase is Established
}

/// One relay protocol event: the machine transitions, its instruction is
/// translated into driver actions, and a recorded acceptance is announced.
pub open spec fn relay_arm(
    pre: SwarmEventLoop,
    post: SwarmEventLoop,
    rev: RelayEvent,
    outs: Seq<OutputEventView>,
    acts: Seq<ActionView>,
    publish_error: Option<GossipError>,
    fatal: Option<BootstrapError>,
) -> bool {
    let (r2, act) = relay_transition(pre.relay, rev);
    &&& post == SwarmEventLoop { relay: r2, ..pre }
    &&& acts == relay_actions(pre, act)
    &&& outs == if rev is ReservationAccepted && acceptance_counts(pre.relay) {
        seq![OutputEventView::RelayReservationAccepted]
    } else {
        Seq::<OutputEventView>::empty()
    }
    &&& publish_error is None
    &&& fatal == relay_fatal(act)
}

/// The actions and events a hole-punch directive translates to.
pub open spec fn punch_effects(peer: Seq<u8>, d: PunchDirective) -> (
    Seq<ActionView>,
    Seq<OutputEventView>,
) {
    match d {
        PunchDirective::Ignore => (Seq::empty(), Seq::empty()),
        PunchDirective::SendCandidates => {
            (seq![ActionView::SendCandidates { peer }], Seq::empty())
        },
        PunchDirective::ScheduleDial { delay_ms } => {
            (seq![ActionView::ArmSyncTimer { peer, delay_ms }], Seq::empty())
        },
        PunchDirective::DialNow => (seq![ActionView::DialCandidates { peer }], Seq::empty()),
        PunchDirective::MigrateAndCloseRelay => {
            (
                seq![ActionView::CloseRelayedConnection { peer }],
                seq![OutputEventView::HolePunchSucceeded { peer }],
            )
        },
        PunchDirective::GiveUp { reason: _ } => {
            (Seq::empty(), seq![OutputEventView::HolePunchFailed { peer }])
        },
    }
}

/// One hole-punch event about one peer: the coordinator transitions and its
/// directive is translated.
pub open spec fn punch_arm(
    pre: SwarmEventLoop,
    post: SwarmEventLoop,
    peer: Seq<u8>,
    pev: PunchEvent,
    outs: Seq<OutputEventView>,
    acts: Seq<ActionView>,
    publish_error: Option<GossipError>,
    fatal: Option<BootstrapError>,
) -> bool {
    let (p2, d) = punch_transition(pre.punch@, peer, pev);
    &&& post.punch@ == p2
    &&& post == SwarmEventLoop { punch: post.punch, ..pre }
    &&& acts == punch_effects(peer, d).0
    &&& outs == punch_effects(peer, d).1
    &&& publish_error is None
    &&& fatal is None
}

/// The message a publish command creates: signed by the local identity,
/// identified by the content hash of payload and origin.
pub open spec fn published_message(
    pre: SwarmEventLoop,
    topic: Seq<u8>,
    payload: Seq<u8>,
) -> GossipMessageView {
    GossipMessageView {
        id: message_id(payload, pre.identity.id()),
        topic,
        payload,
        origin: pre.identity.id(),
        signature: signature_of_seed(pre.identity.seed_val(), payload),
    }
}

/// One send instruction per target, in target order.
pub open spec fn send_all(targets: Seq<Seq<u8>>, m: GossipMessageView) -> Seq<ActionView> {
    targets.map_values(|t: Seq<u8>| ActionView::SendMessage { to: t, msg: m })
}

/// One disconnect notice per table entry, in table order.
pub open spec fn disconnect_all(t: Seq<ConnectionView>) -> Seq<OutputEventView> {
    t.map_values(|c: ConnectionView| OutputEventView::PeerDisconnected { peer: c.peer })
}

/// The gossip router changed only in its dedup cache, as given.
pub open spec fn gossip_cache_step(
    pre: SwarmEventLoop,
    post: SwarmEventLoop,
    seen: Seq<u64>,
) -> bool {
    &&& post.gossip.topics() == pre.gossip.topics()
    &&& post.gossip.seen_ids() == seen
    &&& post.gossip.cap() == pre.gossip.cap()
    &&& post == SwarmEventLoop { gossip: post.gossip, ..pre }
}

/// The full contract of one step: for every event, what the new state is
/// and exactly which outputs, actions and errors come back.
pub open spec fn step_post(
    pre: SwarmEventLoop,
    post: SwarmEventLoop,
    ev: InputEvent,
    now_ms: u64,
    outs: Seq<OutputEventView>,
    acts: Seq<ActionView>,
    publish_error: Option<GossipError>,
    fatal: Option<BootstrapError>,
) -> bool {
    if pre.shutdown {
        &&& state_eq(pre, post)
        &&& outs == Seq::<OutputEventView>::empty()
        &&& acts == Seq::<ActionView>::empty()
        &&& publish_error is None
        &&& fatal is None
    } else {
        match ev {
            InputEvent::ListeningStarted { addr } => {
                &&& state_eq(pre, post)
                &&& outs == seq![OutputEventView::ListeningOnAddress { addr: addr@ }]
                &&& acts == Seq::<ActionView>::empty()
                &&& publish_error is None
                &&& fatal is None
            },
            InputEvent::RelayConnected => {
                relay_arm(pre, post, RelayEvent::RelayConnected, outs, acts, publish_error, fatal)
            },
            InputEvent::ObservedAddressLearned { addr: _ } => {
                relay_arm(
                    pre,
                    post,
                    RelayEvent::ObservedAddressLearned,
                    outs,
                    acts,
                    publish_error,
                    fatal,
                )
            },
            InputEvent::AddressToldToRelay => {
                relay_arm(
                    pre,
                    post,
                    RelayEvent::AddressToldToRelay,
                    outs,
                    acts,
                    publish_error,
                    fatal,
                )
            },
            InputEvent::ReservationAccepted => {
                relay_arm(
                    pre,
                    post,
                    RelayEvent::ReservationAccepted,
                    outs,
                    acts,
                    publish_error,
                    fatal,
                )
            },
            InputEvent::ReservationRejected => {
                relay_arm(
                    pre,
                    post,
                    RelayEvent::ReservationRejected,
                    outs,
                    acts,
                    publish_error,
                    fatal,
                )
            },
            InputEvent::ReservationExpired => {
                relay_arm(
                    pre,
                    post,
                    RelayEvent::ReservationExpired,
                    outs,
                    acts,
                    publish_error,
                    fatal,
                )
            },
            InputEvent::RenewalDue => {
                relay_arm(pre, post, RelayEvent::RenewalDue, outs, acts, publish_error, fatal)
            },
            InputEvent::InboundCircuitOpened { peer: _ } => {
                relay_arm(
                    pre,
                    post,
                    RelayEvent::InboundCircuitOpened,
                    outs,
                    acts,
                    publish_error,
                    fatal,
                )
            },
            InputEvent::CircuitEstablished { peer: _ } => {
                relay_arm(
                    pre,
                    post,
                    RelayEvent::CircuitEstablished,
                    outs,
                    acts,
                    publish_error,
                    fatal,
                )
            },
            InputEvent::CircuitRefused => {
                relay_arm(pre, post, RelayEvent::CircuitRefused, outs, acts, publish_error, fatal)
            },
            InputEvent::ConnectionEstablished { conn } => {
                let fresh = !table_has(pre.peers@, conn@.peer);
                let (p2, d) = if conn@.relayed {
                    punch_transition(pre.punch@, conn@.peer, PunchEvent::RelayedOpened)
                } else {
                    (pre.punch@, PunchDirective::Ignore)
                };
                &&& post.peers@ == table_insert(pre.peers@, conn@)
                &&& post.punch@ == p2
                &&& post == SwarmEventLoop { peers: post.peers, punch: post.punch, ..pre }
                &&& outs == seq![OutputEventView::PeerConnected { peer: conn@.peer }]
                &&& acts == punch_effects(conn@.peer, d).0
                &&& publish_error is None
                &&& fatal is None
            },
            InputEvent::ConnectionClosed { peer } => {
                &&& post.peers@ == table_remove(pre.peers@, peer@)
                &&& post == SwarmEventLoop { peers: post.peers, ..pre }
                &&& outs == if table_has(pre.peers@, peer@) {
                    seq![OutputEventView::PeerDisconnected { peer: peer@ }]
                } else {
                    Seq::<OutputEventView>::empty()
                }
                &&& acts == Seq::<ActionView>::empty()
                &&& publish_error is None
                &&& fatal is None
            },
            InputEvent::OutgoingConnectionFailed { error } => {
                if pre.relay.phase is DialingRelay {
                    let (r2, _) = relay_transition(pre.relay, RelayEvent::RelayDialFailed);
                    &&& post == SwarmEventLoop { relay: r2, ..pre }
                    &&& outs == Seq::<OutputEventView>::empty()
                    &&& acts == Seq::<ActionView>::empty()
                    &&& publish_error is None
                    &&& fatal == Some(BootstrapError::Transport(error))
                } else if pre.relay.phase is DialingPeer {
                    let (r2, _) = relay_transition(pre.relay, RelayEvent::CircuitRefused);
                    &&& post == SwarmEventLoop { relay: r2, ..pre }
                    &&& outs == Seq::<OutputEventView>::empty()
                    &&& acts == Seq::<ActionView>::empty()
                    &&& publish_error is None
                    &&& fatal == Some(BootstrapError::Relay(RelayError::CircuitRefused))
                } else {
                    &&& state_eq(pre, post)
                    &&& outs == Seq::<OutputEventView>::empty()
                    &&& acts == Seq::<ActionView>::empty()
                    &&& publish_error is None
                    &&& fatal is None
                }
            },
            InputEvent::CandidatesReceived { peer, candidate_count, rtt_ms } => {
                punch_arm(
                    pre,
                    post,
                    peer@,
                    PunchEvent::CandidatesReceived { candidate_count, rtt_ms },
                    outs,
                    acts,
                    publish_error,
                    fatal,
                )
            },
            InputEvent::SyncTimerFired { peer } => {
                punch_arm(
                    pre,
                    post,
                    peer@,
                    PunchEvent::SyncTimerFired,
                    outs,
                    acts,
                    publish_error,
                    fatal,
                )
            },
            InputEvent::DirectConnectionEstablished { peer } => {
                punch_arm(
                    pre,
                    post,
                    peer@,
                    PunchEvent::DirectConnected,
                    outs,
                    acts,
                    publish_error,
                    fatal,
                )
            },
            InputEvent::DirectDialFailed { peer } => {
                punch_arm(
                    pre,
                    post,
                    peer@,
                    PunchEvent::DirectDialFailed,
                    outs,
                    acts,
                    publish_error,
                    fatal,
                )
            },
            InputEvent::MessageArrived { from, msg } => {
                let valid = message_valid(msg@);
                let dup = pre.gossip.seen_ids().contains(msg@.id);
                if !valid || dup {
                    &&& state_eq(pre, post)
                    &&& outs == Seq::<OutputEventView>::empty()
                    &&& acts == Seq::<ActionView>::empty()
                    &&& publish_error is None
                    &&& fatal is None
                } else {
                    let delivered = pre.gossip.topics().contains(msg@.topic);
                    &&& gossip_cache_step(
                        pre,
                        post,
                        cache_insert(pre.gossip.seen_ids(), pre.gossip.cap(), msg@.id),
                    )
                    &&& outs == if delivered {
                        seq![
                            OutputEventView::MessageReceived {
                                topic: msg@.topic,
                                origin: msg@.origin,
                                payload: msg@.payload,
                                timestamp_ms: now_ms,
                            },
                        ]
                    } else {
                        Seq::<OutputEventView>::empty()
                    }
                    &&& acts == send_all(
                        forward_targets(table_peers(pre.peers@), from@),
                        msg@,
                    )
                    &&& publish_error is None
                    &&& fatal is None
                }
            },
            InputEvent::Command { cmd } => {
                match cmd {
                    Command::Publish { topic, payload } => {
                        if pre.peers@.len() == 0 {
                            &&& state_eq(pre, post)
                            &&& outs == Seq::<OutputEventView>::empty()
                            &&& acts == Seq::<ActionView>::empty()
                            &&& publish_error == Some(GossipError::NoPeers)
                            &&& fatal is None
                        } else {
                            let m = published_message(pre, topic@, payload@);
                            &&& gossip_cache_step(
                                pre,
                                post,
                                cache_insert(pre.gossip.seen_ids(), pre.gossip.cap(), m.id),
                            )
                            &&& outs == Seq::<OutputEventView>::empty()
                            &&& acts == send_all(table_peers(pre.peers@), m)
                            &&& publish_error is None
                            &&& fatal is None
                        }
                    },
                    Command::Subscribe { topic } => {
                        &&& post.gossip.topics() == if pre.gossip.topics().contains(topic@) {
                            pre.gossip.topics()
                        } else {
                            pre.gossip.topics().push(topic@)
                        }
                        &&& post.gossip.seen_ids() == pre.gossip.seen_ids()
                        &&& post.gossip.cap() == pre.gossip.cap()
                        &&& post == SwarmEventLoop { gossip: post.gossip, ..pre }
                        &&& outs == Seq::<OutputEventView>::empty()
                        &&& acts == Seq::<ActionView>::empty()
                        &&& publish_error is None
                        &&& fatal is None
                    },
                    Command::Unsubscribe { topic } => {
                        &&& !post.gossip.topics().contains(topic@)
                        &&& forall|t: Seq<u8>|
                            t != topic@ ==> (post.gossip.topics().contains(t)
                                == pre.gossip.topics().contains(t))
                        &&& post.gossip.seen_ids() == pre.gossip.seen_ids()
                        &&& post.gossip.cap() == pre.gossip.cap()
                        &&& post == SwarmEventLoop { gossip: post.gossip, ..pre }
                        &&& outs == Seq::<OutputEventView>::empty()
                        &&& acts == Seq::<ActionView>::empty()
                        &&& publish_error is None
                        &&& fatal is None
                    },
                    Command::Shutdown => {
                        &&& post.peers@ == Seq::<ConnectionView>::empty()
                        &&& post.shutdown
                        &&& post == SwarmEventLoop {
                            peers: post.peers,
                            shutdown: true,
                            ..pre
                        }
                        &&& outs == disconnect_all(pre.peers@)
                        &&& acts == seq![ActionView::CloseAllConnections]
                        &&& publish_error is None
                        &&& fatal is None
                    },
                }
            },
        }
    }
}

impl SwarmEventLoop {
    /// The bootstrap entry point: consumes the already-validated
    /// configuration and derives the identity. Nothing is dialed yet; see
    /// [`Self::start`].
    pub fn new(config: Config) -> (r: SwarmEventLoop)
        requires
            config.role is Dialer ==> config.remote_peer is Some,
        ensures
            swarm_wf(r),
            !r.shutdown,
            r.identity.seed_val() == config.seed,
            r.relay == RelayCoordinator::spec_initial(config.role),
            r.relay_address == config.relay_address,
            r.remote_peer == config.remote_peer,
            r.punch@ == Seq::<crate::holepunch::AttemptView>::empty(),
            r.gossip.topics() == Seq::<Seq<u8>>::empty(),
            r.gossip.seen_ids() == Seq::<u64>::empty(),
            r.gossip.cap() == DEDUP_CAPACITY,
            r.peers@ == Seq::<ConnectionView>::empty(),
    {
        let identity = PeerIdentity::derive(config.seed);
        let relay = RelayCoordinator::new(config.role);
        proof {
            assert(relay == RelayCoordinator::spec_initial(config.role));
        }
        SwarmEventLoop {
            identity,
            relay_address: config.relay_address,
            remote_peer: config.remote_peer,
            relay,
            punch: HolePunchCoordinator::new(),
            gossip: GossipRouter::new(DEDUP_CAPACITY),
            peers: PeerTable::new(),
            shutdown: false,
        }
    }

    /// Begins the bootstrap: listen on the default wildcard addresses, then
    /// dial the relay.
    pub fn start(&mut self) -> (r: StepResult)
        requires
            swarm_wf(*old(self)),
            !old(self).shutdown,
        ensures
            swarm_wf(*final(self)),
            *final(self) == (SwarmEventLoop {
                relay: relay_transition(old(self).relay, RelayEvent::Start).0,
                ..*old(self)
            }),
            r.acts() == (seq![
                ActionView::ListenOn {
                    addr: seq![
                        SegmentView::Ip4(0, 0, 0, 0),
                        SegmentView::Udp(0),
                        SegmentView::QuicV1,
                    ],
                },
                ActionView::ListenOn {
                    addr: seq![SegmentView::Ip4(0, 0, 0, 0), SegmentView::Tcp(0)],
                },
            ] + relay_actions(
                *old(self),
                relay_transition(old(self).relay, RelayEvent::Start).1,
            )),
            r.outs() == Seq::<OutputEventView>::empty(),
            r.publish_error is None,
            r.fatal is None,
    {
        let mut actions: Vec<Action> = Vec::new();
        actions.push(Action::ListenOn { addr: Multiaddr::listen_quic_any() });
        actions.push(Action::ListenOn { addr: Multiaddr::listen_tcp_any() });
        let ghost pre = *self;
        let act = self.relay.step(RelayEvent::Start);
        let ghost base = actions@.map_values(|a: Action| a@);
        match act {
            RelayAction::DialRelay => {
                actions.push(Action::Dial { addr: self.relay_address.duplicate() });
                proof {
                    assert(actions@.map_values(|a: Action| a@) =~= base + relay_actions(
                        pre,
                        act,
                    ));
                }
            },
            _ => {
                proof {
                    assert(relay_actions(pre, act) =~= Seq::<ActionView>::empty());
                    assert(actions@.map_values(|a: Action| a@) =~= base + relay_actions(
                        pre,
                        act,
                    ));
                }
            },
        }
        let r = StepResult { outputs: Vec::new(), actions, publish_error: None, fatal: None };
        proof {
            assert(r.outs() =~= Seq::<OutputEventView>::empty());
            assert(base =~= seq![
                ActionView::ListenOn {
                    addr: seq![
                        SegmentView::Ip4(0, 0, 0, 0),
                        SegmentView::Udp(0),
                        SegmentView::QuicV1,
                    ],
                },
                ActionView::ListenOn {
                    addr: seq![SegmentView::Ip4(0, 0, 0, 0), SegmentView::Tcp(0)],
                },
            ]);
        }
        r
    }

    /// An empty result: nothing for the owner, nothing for the driver.
    fn empty_result() -> (r: StepResult)
        ensures
            r.outs() == Seq::<OutputEventView>::empty(),
            r.acts() == Seq::<ActionView>::empty(),
            r.publish_error is None,
            r.fatal is None,
    {
        let r = StepResult {
            outputs: Vec::new(),
            actions: Vec::new(),
            publish_error: None,
            fatal: None,
        };
        proof {
            assert(r.outs() =~= Seq::<OutputEventView>::empty());
            assert(r.acts() =~= Seq::<ActionView>::empty());
        }
        r
    }

    /// Routes one relay protocol event through the relay machine and
    /// translates its instruction.
    fn handle_relay_event(&mut self, rev: RelayEvent) -> (r: StepResult)
        requires
            swarm_wf(*old(self)),
        ensures
            swarm_wf(*final(self)),
            relay_arm(
                *old(self),
                *final(self),
                rev,
                r.outs(),
                r.acts(),
                r.publish_error,
                r.fatal,
            ),
    {
        let ghost pre = *self;
        let pre_relay = self.relay;
        let announce = matches!(rev, RelayEvent::ReservationAccepted) && !matches!(
            pre_relay.phase,
            RelayPhase::Failed,
        ) && pre_relay.reservation.is_some() && (matches!(pre_relay.phase, RelayPhase::Bootstrapped)
            || matches!(pre_relay.phase, RelayPhase::Listening) || matches!(
            pre_relay.phase,
            RelayPhase::Established,
        ));
        let act = self.relay.step(rev);
        let mut outputs: Vec<OutputEvent> = Vec::new();
        if announce {
            outputs.push(OutputEvent::RelayReservationAccepted);
        }
        let mut actions: Vec<Action> = Vec::new();
        let mut fatal: Option<BootstrapError> = None;
        match act {
            RelayAction::Ignore => {
                proof {
                    assert(actions@.map_values(|a: Action| a@) =~= relay_actions(pre, act));
                }
            },
            RelayAction::DialRelay => {
                actions.push(Action::Dial { addr: self.relay_address.duplicate() });
                proof {
                    assert(actions@.map_values(|a: Action| a@) =~= relay_actions(pre, act));
                }
            },
            RelayAction::RequestReservation => {
                actions.push(Action::ListenOn { addr: self.relay_address.circuit_listen() });
                proof {
                    assert(actions@.map_values(|a: Action| a@) =~= relay_actions(pre, act));
                }
            },
            RelayAction::DialPeerViaRelay => {
                match &self.remote_peer {
                    Some(p) => {
                        actions.push(Action::Dial { addr: self.relay_address.circuit_dial(p) });
                        proof {
                            assert(actions@.map_values(|a: Action| a@) =~= relay_actions(
                                pre,
                                act,
                            ));
                        }
                    },
                    None => {
                        proof {
                            assert(actions@.map_values(|a: Action| a@) =~= relay_actions(
                                pre,
                                act,
                            ));
                        }
                    },
                }
            },
            RelayAction::AcceptInbound => {
                proof {
                    assert(actions@.map_values(|a: Action| a@) =~= relay_actions(pre, act));
                }
            },
            RelayAction::Fatal(e) => {
                fatal = Some(BootstrapError::Relay(e));
                proof {
                    assert(actions@.map_values(|a: Action| a@) =~= relay_actions(pre, act));
                }
            },
            RelayAction::FatalDial => {
                proof {
                    assert(actions@.map_values(|a: Action| a@) =~= relay_actions(pre, act));
                }
            },
        }
        let r = StepResult { outputs, actions, publish_error: None, fatal };
        proof {
            lemma_transition_keeps_role(pre.relay, rev);
            if announce {
                assert(r.outs() =~= seq![OutputEventView::RelayReservationAccepted]);
            } else {
                assert(r.outs() =~= Seq::<OutputEventView>::empty());
            }
            assert(*self == (SwarmEventLoop { relay: relay_transition(pre.relay, rev).0, ..pre }));
        }
        r
    }

    /// Appends the actions and events a hole-punch directive asks for.
    fn apply_directive(
        outputs: &mut Vec<OutputEvent>,
        actions: &mut Vec<Action>,
        peer: &PeerId,
        d: PunchDirective,
    )
        ensures
            final(outputs)@.map_values(|o: OutputEvent| o@) == old(outputs)@.map_values(
                |o: OutputEvent| o@,
            ) + punch_effects(peer@, d).1,
            final(actions)@.map_values(|a: Action| a@) == old(actions)@.map_values(
                |a: Action| a@,
            ) + punch_effects(peer@, d).0,
    {
        let ghost outs0 = outputs@.map_values(|o: OutputEvent| o@);
        let ghost acts0 = actions@.map_values(|a: Action| a@);
        match d {
            PunchDirective::Ignore => {},
            PunchDirective::SendCandidates => {
                actions.push(Action::SendCandidates { peer: peer.duplicate() });
            },
            PunchDirective::ScheduleDial { delay_ms } => {
                actions.push(Action::ArmSyncTimer { peer: peer.duplicate(), delay_ms });
            },
            PunchDirective::DialNow => {
                actions.push(Action::DialCandidates { peer: peer.duplicate() });
            },
            PunchDirective::MigrateAndCloseRelay => {
                actions.push(Action::CloseRelayedConnection { peer: peer.duplicate() });
                outputs.push(OutputEvent::HolePunchSucceeded { peer: peer.duplicate() });
            },
            PunchDirective::GiveUp { reason: _ } => {
                outputs.push(OutputEvent::HolePunchFailed { peer: peer.duplicate() });
            },
        }
        proof {
            assert(outputs@.map_values(|o: OutputEvent| o@) =~= outs0 + punch_effects(
                peer@,
                d,
            ).1);
            assert(actions@.map_values(|a: Action| a@) =~= acts0 + punch_effects(peer@, d).0);
        }
    }

    /// Routes one hole-punch event about one peer.
    fn handle_punch_event(&mut self, peer: &PeerId, pev: PunchEvent) -> (r: StepResult)
        requires
            swarm_wf(*old(self)),
        ensures
            swarm_wf(*final(self)),
            punch_arm(
                *old(self),
                *final(self),
                peer@,
                pev,
                r.outs(),
                r.acts(),
                r.publish_error,
                r.fatal,
            ),
    {
        let ghost pre = *self;
        let d = self.punch.step(peer, pev);
        let mut outputs: Vec<OutputEvent> = Vec::new();
        let mut actions: Vec<Action> = Vec::new();
        SwarmEventLoop::apply_directive(&mut outputs, &mut actions, peer, d);
        let r = StepResult { outputs, actions, publish_error: None, fatal: None };
        proof {
            assert(r.outs() =~= punch_effects(peer@, d).1);
            assert(r.acts() =~= punch_effects(peer@, d).0);
            assert(*self == (SwarmEventLoop { punch: self.punch, ..pre }));
        }
        r
    }

    /// A connection finished its upgrade: record it, announce it, and — if
    /// it is relayed — begin the hole-punch exchange.
    fn handle_connection_established(&mut self, conn: Connection) -> (r: StepResult)
        requires
            swarm_wf(*old(self)),
        ensures
            swarm_wf(*final(self)),
            final(self).peers@ == table_insert(old(self).peers@, conn@),
            final(self).punch@ == (if conn@.relayed {
                punch_transition(old(self).punch@, conn@.peer, PunchEvent::RelayedOpened).0
            } else {
                old(self).punch@
            }),
            *final(self) == (SwarmEventLoop {
                peers: final(self).peers,
                punch: final(self).punch,
                ..*old(self)
            }),
            r.outs() == seq![OutputEventView::PeerConnected { peer: conn@.peer }],
            r.acts() == punch_effects(
                conn@.peer,
                if conn@.relayed {
                    punch_transition(old(self).punch@, conn@.peer, PunchEvent::RelayedOpened).1
                } else {
                    PunchDirective::Ignore
                },
            ).0,
            r.publish_error is None,
            r.fatal is None,
    {
        let ghost pre = *self;
        let peer_copy = conn.peer.duplicate();
        let relayed = conn.relayed;
        let mut outputs: Vec<OutputEvent> = Vec::new();
        outputs.push(OutputEvent::PeerConnected { peer: conn.peer.duplicate() });
        self.peers.insert(conn);
        let mut actions: Vec<Action> = Vec::new();
        if relayed {
            let d = self.punch.step(&peer_copy, PunchEvent::RelayedOpened);
            SwarmEventLoop::apply_directive(&mut outputs, &mut actions, &peer_copy, d);
            proof {
                assert(punch_effects(peer_copy@, d).1 =~= Seq::<OutputEventView>::empty());
            }
        }
        let r = StepResult { outputs, actions, publish_error: None, fatal: None };
        proof {
            assert(r.outs() =~= seq![OutputEventView::PeerConnected { peer: peer_copy@ }]);
            if !relayed {
                assert(r.acts() =~= Seq::<ActionView>::empty());
            }
            assert(*self == (SwarmEventLoop { peers: self.peers, punch: self.punch, ..pre }));
        }
        r
    }

    /// A received gossip frame: verify, deduplicate, deliver locally when
    /// subscribed, and forward to everyone but the sender.
    fn handle_message(&mut self, from: PeerId, msg: GossipMessage, now_ms: u64) -> (r: StepResult)
        requires
            swarm_wf(*old(self)),
        ensures
            swarm_wf(*final(self)),
            ({
                let pre = *old(self);
                let post = *final(self);
                let valid = message_valid(msg@);
                let dup = pre.gossip.seen_ids().contains(msg@.id);
                if !valid || dup {
                    &&& state_eq(pre, post)
                    &&& r.outs() == Seq::<OutputEventView>::empty()
                    &&& r.acts() == Seq::<ActionView>::empty()
                } else {
                    let delivered = pre.gossip.topics().contains(msg@.topic);
                    &&& gossip_cache_step(
                        pre,
                        post,
                        cache_insert(pre.gossip.seen_ids(), pre.gossip.cap(), msg@.id),
                    )
                    &&& r.outs() == if delivered {
                        seq![
                            OutputEventView::MessageReceived {
                                topic: msg@.topic,
                                origin: msg@.origin,
                                payload: msg@.payload,
                                timestamp_ms: now_ms,
                            },
                        ]
                    } else {
                        Seq::<OutputEventView>::empty()
                    }
                    &&& r.acts() == send_all(
                        forward_targets(table_peers(pre.peers@), from@),
                        msg@,
                    )
                }
            }),
            r.publish_error is None,
            r.fatal is None,
    {
        let ghost pre = *self;
        let peer_list = self.peers.peer_ids();
        let (outcome, fwd) = self.gossip.handle_inbound(&msg, &from, &peer_list);
        match outcome {
            InboundOutcome::Invalid { error: _ } | InboundOutcome::Duplicate => {
                let r = SwarmEventLoop::empty_result();
                proof {
                    assert(state_eq(pre, *self));
                }
                r
            },
            InboundOutcome::Fresh { delivered } => {
                let mut outputs: Vec<OutputEvent> = Vec::new();
                if delivered {
                    outputs.push(
                        OutputEvent::MessageReceived {
                            topic: copy_bytes(&msg.topic),
                            origin: msg.origin.duplicate(),
                            payload: copy_bytes(&msg.payload),
                            timestamp_ms: now_ms,
                        },
                    );
                }
                let mut actions: Vec<Action> = Vec::new();
                let n = fwd.len();
                let mut i: usize = 0;
                proof {
                    assert(actions@.map_values(|a: Action| a@) =~= send_all(
                        peer_views(fwd@).subrange(0, 0),
                        msg@,
                    ));
                }
                while i < n
                    invariant
                        n == fwd.len(),
                        i <= n,
                        actions@.map_values(|a: Action| a@) =~= send_all(
                            peer_views(fwd@).subrange(0, i as int),
                            msg@,
                        ),
                    decreases n - i,
                {
                    let ghost before = actions@.map_values(|a: Action| a@);
                    actions.push(
                        Action::SendMessage { to: fwd[i].duplicate(), msg: msg.duplicate() },
                    );
                    proof {
                        assert(actions@.map_values(|a: Action| a@) =~= before.push(
                            ActionView::SendMessage { to: fwd@[i as int]@, msg: msg@ },
                        ));
                        assert(actions@.map_values(|a: Action| a@) =~= send_all(
                            peer_views(fwd@).subrange(0, i + 1),
                            msg@,
                        ));
                    }
                    i = i + 1;
                }
                let r = StepResult { outputs, actions, publish_error: None, fatal: None };
                proof {
                    assert(peer_views(fwd@).subrange(0, n as int) =~= peer_views(fwd@));
                    assert(peer_views(peer_list@) == table_peers(pre.peers@));
                    if delivered {
                        assert(r.outs() =~= seq![
                            OutputEventView::MessageReceived {
                                topic: msg@.topic,
                                origin: msg@.origin,
                                payload: msg@.payload,
                                timestamp_ms: now_ms,
                            },
                        ]);
                    } else {
                        assert(r.outs() =~= Seq::<OutputEventView>::empty());
                    }
                    assert(*self == (SwarmEventLoop { gossip: self.gossip, ..pre }));
                }
                r
            },
        }
    }

    /// One command from the owner.
    fn handle_command(&mut self, cmd: Command) -> (r: StepResult)
        requires
            swarm_wf(*old(self)),
            !old(self).shutdown,
        ensures
            swarm_wf(*final(self)),
            step_post(
                *old(self),
                *final(self),
                InputEvent::Command { cmd },
                0,
                r.outs(),
                r.acts(),
                r.publish_error,
                r.fatal,
            ),
    {
        let ghost pre = *self;
        match cmd {
            Command::Publish { topic, payload } => {
                let peer_list = self.peers.peer_ids();
                let result = self.gossip.publish(&self.identity, &topic, &payload, &peer_list);
                match result {
                    Err(e) => {
                        let mut r = SwarmEventLoop::empty_result();
                        r.publish_error = Some(e);
                        proof {
                            assert(peer_views(peer_list@) == table_peers(pre.peers@));
                            assert(table_peers(pre.peers@).len() == pre.peers@.len());
                            assert(state_eq(pre, *self));
                        }
                        r
                    },
                    Ok(m) => {
                        let mut actions: Vec<Action> = Vec::new();
                        let n = peer_list.len();
                        let mut i: usize = 0;
                        proof {
                            assert(actions@.map_values(|a: Action| a@) =~= send_all(
                                peer_views(peer_list@).subrange(0, 0),
                                m@,
                            ));
                        }
                        while i < n
                            invariant
                                n == peer_list.len(),
                                i <= n,
                                actions@.map_values(|a: Action| a@) =~= send_all(
                                    peer_views(peer_list@).subrange(0, i as int),
                                    m@,
                                ),
                            decreases n - i,
                        {
                            let ghost before = actions@.map_values(|a: Action| a@);
                            actions.push(
                                Action::SendMessage {
                                    to: peer_list[i].duplicate(),
                                    msg: m.duplicate(),
                                },
                            );
                            proof {
                                assert(actions@.map_values(|a: Action| a@) =~= before.push(
                                    ActionView::SendMessage {
                                        to: peer_list@[i as int]@,
                                        msg: m@,
                                    },
                                ));
                                assert(actions@.map_values(|a: Action| a@) =~= send_all(
                                    peer_views(peer_list@).subrange(0, i + 1),
                                    m@,
                                ));
                            }
                            i = i + 1;
                        }
                        let r = StepResult {
                            outputs: Vec::new(),
                            actions,
                            publish_error: None,
                            fatal: None,
                        };
                        proof {
                            assert(peer_views(peer_list@).subrange(0, n as int) =~= peer_views(
                                peer_list@,
                            ));
                            assert(peer_views(peer_list@) == table_peers(pre.peers@));
                            assert(table_peers(pre.peers@).len() == pre.peers@.len());
                            assert(m@ == published_message(pre, topic@, payload@));
                            assert(r.outs() =~= Seq::<OutputEventView>::empty());
                            assert(*self == (SwarmEventLoop { gossip: self.gossip, ..pre }));
                        }
                        r
                    },
                }
            },
            Command::Subscribe { topic } => {
                let _ = self.gossip.subscribe(topic);
                let r = SwarmEventLoop::empty_result();
                proof {
                    assert(*self == (SwarmEventLoop { gossip: self.gossip, ..pre }));
                }
                r
            },
            Command::Unsubscribe { topic } => {
                let _ = self.gossip.unsubscribe(&topic);
                let r = SwarmEventLoop::empty_result();
                proof {
                    assert(*self == (SwarmEventLoop { gossip: self.gossip, ..pre }));
                }
                r
            },
            Command::Shutdown => {
                let ids = self.peers.peer_ids();
                let mut outputs: Vec<OutputEvent> = Vec::new();
                let n = ids.len();
                let mut i: usize = 0;
                proof {
                    assert(peer_views(ids@).len() == ids@.len());
                    assert(table_peers(pre.peers@).len() == pre.peers@.len());
                    assert(outputs@.map_values(|o: OutputEvent| o@) =~= disconnect_all(
                        pre.peers@.subrange(0, 0),
                    ));
                }
                while i < n
                    invariant
                        n == ids.len(),
                        n == pre.peers@.len(),
                        i <= n,
                        peer_views(ids@) == table_peers(pre.peers@),
                        outputs@.map_values(|o: OutputEvent| o@) =~= disconnect_all(
                            pre.peers@.subrange(0, i as int),
                        ),
                    decreases n - i,
                {
                    let ghost before = outputs@.map_values(|o: OutputEvent| o@);
                    outputs.push(OutputEvent::PeerDisconnected { peer: ids[i].duplicate() });
                    proof {
                        assert(ids@[i as int]@ == peer_views(ids@)[i as int]);
                        assert(outputs@.map_values(|o: OutputEvent| o@) =~= before.push(
                            OutputEventView::PeerDisconnected { peer: pre.peers@[i as int].peer },
                        ));
                        assert(outputs@.map_values(|o: OutputEvent| o@) =~= disconnect_all(
                            pre.peers@.subrange(0, i + 1),
                        ));
                    }
                    i = i + 1;
                }
                self.peers.clear();
                self.shutdown = true;
                let mut actions: Vec<Action> = Vec::new();
                actions.push(Action::CloseAllConnections);
                let r = StepResult { outputs, actions, publish_error: None, fatal: None };
                proof {
                    assert(pre.peers@.subrange(0, n as int) =~= pre.peers@);
                    assert(r.acts() =~= seq![ActionView::CloseAllConnections]);
                    assert(*self == (SwarmEventLoop {
                        peers: self.peers,
                        shutdown: true,
                        ..pre
                    }));
                }
                r
            },
        }
    }

    /// Processes exactly one event: routes it to the component it concerns,
    /// mutates the shared state as the single writer, and returns the
    /// outbound events and driver actions it produced. Once a shutdown
    /// command has been processed, every further step does nothing.
    pub fn step(&mut self, ev: InputEvent, now_ms: u64) -> (r: StepResult)
        requires
            swarm_wf(*old(self)),
        ensures
            swarm_wf(*final(self)),
            step_post(
                *old(self),
                *final(self),
                ev,
                now_ms,
                r.outs(),
                r.acts(),
                r.publish_error,
                r.fatal,
            ),
    {
        if self.shutdown {
            return SwarmEventLoop::empty_result();
        }
        let ghost pre = *self;
        match ev {
            InputEvent::ListeningStarted { addr } => {
                let mut outputs: Vec<OutputEvent> = Vec::new();
                let ghost addr_view = addr@;
                outputs.push(OutputEvent::ListeningOnAddress { addr });
                let mut r = SwarmEventLoop::empty_result();
                r.outputs = outputs;
                proof {
                    assert(r.outs() =~= seq![
                        OutputEventView::ListeningOnAddress { addr: addr_view },
                    ]);
                }
                r
            },
            InputEvent::RelayConnected => self.handle_relay_event(RelayEvent::RelayConnected),
            InputEvent::ObservedAddressLearned { addr: _ } => {
                self.handle_relay_event(RelayEvent::ObservedAddressLearned)
            },
            InputEvent::AddressToldToRelay => {
                self.handle_relay_event(RelayEvent::AddressToldToRelay)
            },
            InputEvent::ReservationAccepted => {
                self.handle_relay_event(RelayEvent::ReservationAccepted)
            },
            InputEvent::ReservationRejected => {
                self.handle_relay_event(RelayEvent::ReservationRejected)
            },
            InputEvent::ReservationExpired => {
                self.handle_relay_event(RelayEvent::ReservationExpired)
            },
            InputEvent::RenewalDue => self.handle_relay_event(RelayEvent::RenewalDue),
            InputEvent::InboundCircuitOpened { peer: _ } => {
                self.handle_relay_event(RelayEvent::InboundCircuitOpened)
            },
            InputEvent::CircuitEstablished { peer: _ } => {
                self.handle_relay_event(RelayEvent::CircuitEstablished)
            },
            InputEvent::CircuitRefused => self.handle_relay_event(RelayEvent::CircuitRefused),
            InputEvent::ConnectionEstablished { conn } => {
                self.handle_connection_established(conn)
            },
            InputEvent::ConnectionClosed { peer } => {
                let removed = self.peers.remove(&peer);
                let mut r = SwarmEventLoop::empty_result();
                if removed {
                    let mut outputs: Vec<OutputEvent> = Vec::new();
                    let ghost peer_view = peer@;
                    outputs.push(OutputEvent::PeerDisconnected { peer });
                    r.outputs = outputs;
                    proof {
                        assert(r.outs() =~= seq![
                            OutputEventView::PeerDisconnected { peer: peer_view },
                        ]);
                    }
                }
                proof {
                    assert(*self == (SwarmEventLoop { peers: self.peers, ..pre }));
                }
                r
            },
            InputEvent::OutgoingConnectionFailed { error } => {
                if matches!(self.relay.phase, RelayPhase::DialingRelay) {
                    let _ = self.relay.step(RelayEvent::RelayDialFailed);
                    let mut r = SwarmEventLoop::empty_result();
                    r.fatal = Some(BootstrapError::Transport(error));
                    proof {
                        lemma_transition_keeps_role(pre.relay, RelayEvent::RelayDialFailed);
                        assert(*self == (SwarmEventLoop {
                            relay: relay_transition(pre.relay, RelayEvent::RelayDialFailed).0,
                            ..pre
                        }));
                    }
                    r
                } else if matches!(self.relay.phase, RelayPhase::DialingPeer) {
                    let _ = self.relay.step(RelayEvent::CircuitRefused);
                    let mut r = SwarmEventLoop::empty_result();
                    r.fatal = Some(BootstrapError::Relay(RelayError::CircuitRefused));
                    proof {
                        lemma_transition_keeps_role(pre.relay, RelayEvent::CircuitRefused);
                        assert(*self == (SwarmEventLoop {
                            relay: relay_transition(pre.relay, RelayEvent::CircuitRefused).0,
                            ..pre
                        }));
                    }
                    r
                } else {
                    SwarmEventLoop::empty_result()
                }
            },
            InputEvent::CandidatesReceived { peer, candidate_count, rtt_ms } => {
                self.handle_punch_event(
                    &peer,
                    PunchEvent::CandidatesReceived { candidate_count, rtt_ms },
                )
            },
            InputEvent::SyncTimerFired { peer } => {
                self.handle_punch_event(&peer, PunchEvent::SyncTimerFired)
            },
            InputEvent::DirectConnectionEstablished { peer } => {
                self.handle_punch_event(&peer, PunchEvent::DirectConnected)
            },
            InputEvent::DirectDialFailed { peer } => {
                self.handle_punch_event(&peer, PunchEvent::DirectDialFailed)
            },
            InputEvent::MessageArrived { from, msg } => {
                self.handle_message(from, msg, now_ms)
            },
            InputEvent::Command { cmd } => self.handle_command(cmd),
        }
    }
}

} // verus!
