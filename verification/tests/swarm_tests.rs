use limiinal_core::config::Config;
use limiinal_core::errors::{BootstrapError, GossipError, RelayError, TransportError};
use limiinal_core::gossip::GossipMessage;
use limiinal_core::identity::{PeerId, PeerIdentity};
use limiinal_core::multiaddr::{Multiaddr, Segment};
use limiinal_core::relay::{RelayPhase, Role};
use limiinal_core::swarm::{Action, Command, InputEvent, OutputEvent, SwarmEventLoop};
use limiinal_core::transport::{Connection, Direction};

fn relay_addr() -> Multiaddr {
    Multiaddr::empty().with(Segment::Ip4(127, 0, 0, 1)).with(Segment::Tcp(4001))
}

fn listener_core() -> SwarmEventLoop {
    SwarmEventLoop::new(Config {
        role: Role::Listener,
        seed: 1,
        relay_address: relay_addr(),
        remote_peer: None,
    })
}

fn dialer_core(target: PeerId) -> SwarmEventLoop {
    SwarmEventLoop::new(Config {
        role: Role::Dialer,
        seed: 2,
        relay_address: relay_addr(),
        remote_peer: Some(target),
    })
}

fn conn_to(peer: &PeerId, relayed: bool) -> Connection {
    Connection {
        peer: peer.duplicate(),
        local_addr: Multiaddr::listen_tcp_any(),
        remote_addr: relay_addr(),
        direction: Direction::Outbound,
        relayed,
        stream: 7,
    }
}

/// Runs both sides of the bootstrap far enough that the two cores are
/// connected to each other (over the relay), and returns them.
fn connected_pair() -> (SwarmEventLoop, SwarmEventLoop, PeerId, PeerId) {
    let mut listener = listener_core();
    let listener_id = listener.identity.peer_id().duplicate();
    let mut dialer = dialer_core(listener_id.duplicate());
    let dialer_id = dialer.identity.peer_id().duplicate();

    // listener bootstrap
    let r = listener.start();
    assert_eq!(r.actions.len(), 3, "listen twice, then dial the relay");
    listener.step(InputEvent::RelayConnected, 0);
    listener.step(InputEvent::ObservedAddressLearned { addr: relay_addr() }, 0);
    let r = listener.step(InputEvent::AddressToldToRelay, 0);
    assert!(
        matches!(&r.actions[..], [Action::ListenOn { .. }]),
        "address learning complete: request the reservation"
    );
    let r = listener.step(InputEvent::ReservationAccepted, 0);
    assert!(matches!(&r.outputs[..], [OutputEvent::RelayReservationAccepted]));
    assert_eq!(listener.relay.phase, RelayPhase::Listening);

    // dialer bootstrap
    dialer.start();
    dialer.step(InputEvent::RelayConnected, 0);
    dialer.step(InputEvent::ObservedAddressLearned { addr: relay_addr() }, 0);
    let r = dialer.step(InputEvent::AddressToldToRelay, 0);
    assert!(
        matches!(&r.actions[..], [Action::Dial { .. }]),
        "address learning complete: dial the peer through the relay"
    );
    dialer.step(InputEvent::CircuitEstablished { peer: listener_id.duplicate() }, 0);
    assert_eq!(dialer.relay.phase, RelayPhase::Established);

    // the relayed connection between the two cores
    let r = listener.step(
        InputEvent::ConnectionEstablished { conn: conn_to(&dialer_id, true) },
        0,
    );
    assert!(matches!(&r.outputs[..], [OutputEvent::PeerConnected { .. }]));
    let r = dialer.step(
        InputEvent::ConnectionEstablished { conn: conn_to(&listener_id, true) },
        0,
    );
    assert!(matches!(&r.outputs[..], [OutputEvent::PeerConnected { .. }]));

    (listener, dialer, listener_id, dialer_id)
}

#[test]
fn bootstrap_start_listens_then_dials_relay() {
    let mut core = listener_core();
    let r = core.start();
    assert!(r.outputs.is_empty());
    match &r.actions[..] {
        [Action::ListenOn { addr: quic }, Action::ListenOn { addr: tcp }, Action::Dial { addr }] => {
            assert!(quic.equals(&Multiaddr::listen_quic_any()));
            assert!(tcp.equals(&Multiaddr::listen_tcp_any()));
            assert!(addr.equals(&relay_addr()));
        },
        _ => panic!("expected two listens and the relay dial"),
    }
    assert_eq!(core.relay.phase, RelayPhase::DialingRelay);
}

#[test]
fn listening_started_is_reported() {
    let mut core = listener_core();
    core.start();
    let r = core.step(InputEvent::ListeningStarted { addr: relay_addr() }, 0);
    match &r.outputs[..] {
        [OutputEvent::ListeningOnAddress { addr }] => assert!(addr.equals(&relay_addr())),
        _ => panic!("expected the listening address to be reported"),
    }
}

#[test]
fn reservation_rejection_is_a_single_terminal_error() {
    let mut core = listener_core();
    core.start();
    core.step(InputEvent::RelayConnected, 0);
    core.step(InputEvent::ObservedAddressLearned { addr: relay_addr() }, 0);
    core.step(InputEvent::AddressToldToRelay, 0);
    let r = core.step(InputEvent::ReservationRejected, 0);
    assert_eq!(
        r.fatal,
        Some(BootstrapError::Relay(RelayError::ReservationRejected))
    );
    assert!(r.outputs.is_empty());
    assert_eq!(core.relay.phase, RelayPhase::Failed);
    assert_ne!(core.relay.phase, RelayPhase::Listening);
    // and it never recovers into listening
    let r = core.step(InputEvent::ReservationAccepted, 0);
    assert!(r.outputs.is_empty());
    assert_eq!(core.relay.phase, RelayPhase::Failed);
}

#[test]
fn relay_dial_timeout_is_a_single_terminal_error() {
    let mut core = listener_core();
    core.start();
    let r = core.step(
        InputEvent::OutgoingConnectionFailed { error: TransportError::Timeout },
        0,
    );
    assert_eq!(r.fatal, Some(BootstrapError::Transport(TransportError::Timeout)));
    assert_eq!(core.relay.phase, RelayPhase::Failed);
}

#[test]
fn relay_dial_failure_is_a_single_terminal_error() {
    let mut core = listener_core();
    core.start();
    let r = core.step(
        InputEvent::OutgoingConnectionFailed { error: TransportError::Unreachable },
        0,
    );
    assert_eq!(
        r.fatal,
        Some(BootstrapError::Transport(TransportError::Unreachable))
    );
    assert_eq!(core.relay.phase, RelayPhase::Failed);
}

#[test]
fn publish_with_zero_peers_returns_no_peers_and_emits_nothing() {
    let mut core = listener_core();
    core.start();
    let r = core.step(
        InputEvent::Command {
            cmd: Command::Publish { topic: b"room".to_vec(), payload: b"hello".to_vec() },
        },
        0,
    );
    assert_eq!(r.publish_error, Some(GossipError::NoPeers));
    assert!(r.outputs.is_empty(), "no outbound event on a failed publish");
    assert!(r.actions.is_empty());
}

#[test]
fn published_message_reaches_the_other_core_exactly_once() {
    let (mut listener, mut dialer, listener_id, _dialer_id) = connected_pair();

    // both ends subscribe to the same topic
    listener.step(
        InputEvent::Command { cmd: Command::Subscribe { topic: b"room".to_vec() } },
        0,
    );
    dialer.step(
        InputEvent::Command { cmd: Command::Subscribe { topic: b"room".to_vec() } },
        0,
    );

    // the listener publishes
    let r = listener.step(
        InputEvent::Command {
            cmd: Command::Publish { topic: b"room".to_vec(), payload: b"hello".to_vec() },
        },
        0,
    );
    assert!(r.publish_error.is_none());
    let msg: GossipMessage = match &r.actions[..] {
        [Action::SendMessage { to: _, msg }] => msg.duplicate(),
        _ => panic!("expected exactly one flood target"),
    };

    // the dialer receives it: exactly one delivery, with the right fields
    let r = dialer.step(
        InputEvent::MessageArrived { from: listener_id.duplicate(), msg: msg.duplicate() },
        1234,
    );
    match &r.outputs[..] {
        [OutputEvent::MessageReceived { topic, origin, payload, timestamp_ms }] => {
            assert_eq!(topic, &b"room".to_vec());
            assert!(origin.equals(&listener_id));
            assert_eq!(payload, &b"hello".to_vec());
            assert_eq!(*timestamp_ms, 1234);
        },
        _ => panic!("expected exactly one delivery"),
    }
    // the sender is the only connected peer, so nothing is forwarded back
    assert!(r.actions.is_empty());

    // the same message again is suppressed: no duplicate delivery
    let r = dialer.step(
        InputEvent::MessageArrived { from: listener_id.duplicate(), msg: msg.duplicate() },
        1235,
    );
    assert!(r.outputs.is_empty());
    assert!(r.actions.is_empty());

    // publishing the same payload from the same origin again yields the
    // same identifier, so the fresh copy is suppressed too
    let r = listener.step(
        InputEvent::Command {
            cmd: Command::Publish { topic: b"room".to_vec(), payload: b"hello".to_vec() },
        },
        0,
    );
    let republished = match &r.actions[..] {
        [Action::SendMessage { msg: m, .. }] => m.duplicate(),
        _ => panic!("expected exactly one flood target"),
    };
    assert_eq!(republished.id, msg.id, "the identifier is a stable content hash");
    let r = dialer.step(
        InputEvent::MessageArrived { from: listener_id.duplicate(), msg: republished },
        1236,
    );
    assert!(r.outputs.is_empty(), "delivered exactly once within the dedup window");
}

#[test]
fn invalid_signature_is_neither_delivered_nor_forwarded() {
    let (mut listener, mut dialer, listener_id, _dialer_id) = connected_pair();
    dialer.step(
        InputEvent::Command { cmd: Command::Subscribe { topic: b"room".to_vec() } },
        0,
    );
    let r = listener.step(
        InputEvent::Command {
            cmd: Command::Publish { topic: b"room".to_vec(), payload: b"hello".to_vec() },
        },
        0,
    );
    let mut msg = match &r.actions[..] {
        [Action::SendMessage { msg, .. }] => msg.duplicate(),
        _ => panic!("expected exactly one flood target"),
    };
    msg.signature[0] ^= 0xff;

    // connect a third peer so a forward would be visible
    let third = PeerIdentity::derive(3).peer_id().duplicate();
    dialer.step(InputEvent::ConnectionEstablished { conn: conn_to(&third, false) }, 0);

    let r = dialer.step(
        InputEvent::MessageArrived { from: listener_id.duplicate(), msg },
        0,
    );
    assert!(r.outputs.is_empty(), "no delivery of a wrongly signed message");
    assert!(r.actions.is_empty(), "no forwarding of a wrongly signed message");
}

#[test]
fn fresh_message_is_forwarded_to_everyone_but_the_sender() {
    let (_listener, mut dialer, listener_id, _dialer_id) = connected_pair();
    // a third connected peer
    let third = PeerIdentity::derive(3).peer_id().duplicate();
    dialer.step(InputEvent::ConnectionEstablished { conn: conn_to(&third, false) }, 0);

    // a genuine message from a fourth peer, relayed to us by the listener
    let origin = PeerIdentity::derive(4);
    let mut origin_core = SwarmEventLoop::new(Config {
        role: Role::Listener,
        seed: 4,
        relay_address: relay_addr(),
        remote_peer: None,
    });
    origin_core.step(
        InputEvent::ConnectionEstablished { conn: conn_to(&listener_id, false) },
        0,
    );
    let r = origin_core.step(
        InputEvent::Command {
            cmd: Command::Publish { topic: b"room".to_vec(), payload: b"via".to_vec() },
        },
        0,
    );
    let msg = match &r.actions[..] {
        [Action::SendMessage { msg, .. }] => msg.duplicate(),
        _ => panic!("expected one flood target"),
    };
    assert!(msg.origin.equals(origin.peer_id()));

    // the dialer hears it from the listener and forwards it only to the third peer
    let r = dialer.step(
        InputEvent::MessageArrived { from: listener_id.duplicate(), msg },
        0,
    );
    match &r.actions[..] {
        [Action::SendMessage { to, .. }] => assert!(to.equals(&third)),
        _ => panic!("expected exactly one forward"),
    }
}

#[test]
fn hole_punch_succeeds_on_both_sides() {
    let (mut listener, mut dialer, listener_id, dialer_id) = connected_pair();

    // both sides begin the exchange when the relayed connection appears;
    // candidates then arrive on each side with a round-trip estimate
    let r = listener.step(
        InputEvent::CandidatesReceived {
            peer: dialer_id.duplicate(),
            candidate_count: 2,
            rtt_ms: 80,
        },
        0,
    );
    assert!(matches!(
        &r.actions[..],
        [Action::ArmSyncTimer { delay_ms: 40, .. }]
    ));
    let r = dialer.step(
        InputEvent::CandidatesReceived {
            peer: listener_id.duplicate(),
            candidate_count: 2,
            rtt_ms: 80,
        },
        0,
    );
    assert!(matches!(
        &r.actions[..],
        [Action::ArmSyncTimer { delay_ms: 40, .. }]
    ));

    // the synchronized instant arrives on both sides
    let r = listener.step(InputEvent::SyncTimerFired { peer: dialer_id.duplicate() }, 0);
    assert!(matches!(&r.actions[..], [Action::DialCandidates { .. }]));
    let r = dialer.step(InputEvent::SyncTimerFired { peer: listener_id.duplicate() }, 0);
    assert!(matches!(&r.actions[..], [Action::DialCandidates { .. }]));

    // the simultaneous open lands: success is emitted on both sides
    let r = listener.step(
        InputEvent::DirectConnectionEstablished { peer: dialer_id.duplicate() },
        0,
    );
    match (&r.outputs[..], &r.actions[..]) {
        (
            [OutputEvent::HolePunchSucceeded { peer }],
            [Action::CloseRelayedConnection { .. }],
        ) => assert!(peer.equals(&dialer_id)),
        _ => panic!("expected hole-punch success on the listener side"),
    }
    let r = dialer.step(
        InputEvent::DirectConnectionEstablished { peer: listener_id.duplicate() },
        0,
    );
    match (&r.outputs[..], &r.actions[..]) {
        (
            [OutputEvent::HolePunchSucceeded { peer }],
            [Action::CloseRelayedConnection { .. }],
        ) => assert!(peer.equals(&listener_id)),
        _ => panic!("expected hole-punch success on the dialer side"),
    }
}

#[test]
fn hole_punch_failure_falls_back_to_relay_only() {
    let (mut listener, _dialer, _listener_id, dialer_id) = connected_pair();
    for _ in 0..limiinal_core::holepunch::MAX_PUNCH_ATTEMPTS {
        listener.step(
            InputEvent::CandidatesReceived {
                peer: dialer_id.duplicate(),
                candidate_count: 1,
                rtt_ms: 10,
            },
            0,
        );
        listener.step(InputEvent::SyncTimerFired { peer: dialer_id.duplicate() }, 0);
        let r = listener.step(InputEvent::DirectDialFailed { peer: dialer_id.duplicate() }, 0);
        assert!(r.fatal.is_none(), "hole-punch failure is never fatal");
    }
    listener.step(
        InputEvent::CandidatesReceived {
            peer: dialer_id.duplicate(),
            candidate_count: 1,
            rtt_ms: 10,
        },
        0,
    );
    listener.step(InputEvent::SyncTimerFired { peer: dialer_id.duplicate() }, 0);
    let r = listener.step(InputEvent::DirectDialFailed { peer: dialer_id.duplicate() }, 0);
    match &r.outputs[..] {
        [OutputEvent::HolePunchFailed { peer }] => assert!(peer.equals(&dialer_id)),
        _ => panic!("expected the bounded retries to end in a non-fatal failure"),
    }
    assert!(r.fatal.is_none());
}

#[test]
fn connection_close_is_reported_once() {
    let (mut listener, _dialer, _listener_id, dialer_id) = connected_pair();
    let r = listener.step(InputEvent::ConnectionClosed { peer: dialer_id.duplicate() }, 0);
    match &r.outputs[..] {
        [OutputEvent::PeerDisconnected { peer }] => assert!(peer.equals(&dialer_id)),
        _ => panic!("expected one disconnect notice"),
    }
    // closing an unknown connection says nothing
    let r = listener.step(InputEvent::ConnectionClosed { peer: dialer_id }, 0);
    assert!(r.outputs.is_empty());
}

#[test]
fn shutdown_closes_everything_and_goes_inert() {
    let (mut listener, _dialer, _listener_id, dialer_id) = connected_pair();
    let r = listener.step(InputEvent::Command { cmd: Command::Shutdown }, 0);
    match &r.outputs[..] {
        [OutputEvent::PeerDisconnected { peer }] => assert!(peer.equals(&dialer_id)),
        _ => panic!("every connection is closed and reported"),
    }
    assert!(matches!(&r.actions[..], [Action::CloseAllConnections]));
    assert!(listener.shutdown);

    // after shutdown, the loop is inert
    let r = listener.step(
        InputEvent::Command {
            cmd: Command::Publish { topic: b"room".to_vec(), payload: b"x".to_vec() },
        },
        0,
    );
    assert!(r.outputs.is_empty());
    assert!(r.actions.is_empty());
    assert!(r.publish_error.is_none());
}
