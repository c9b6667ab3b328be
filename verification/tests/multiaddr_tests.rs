use limiinal_core::config::parse_role;
use limiinal_core::identity::PeerIdentity;
use limiinal_core::multiaddr::{Multiaddr, Segment};
use limiinal_core::relay::Role;

fn relay_addr() -> Multiaddr {
    Multiaddr::empty().with(Segment::Ip4(127, 0, 0, 1)).with(Segment::Tcp(4001))
}

#[test]
fn equality_is_structural() {
    let a = relay_addr();
    let b = relay_addr();
    assert!(a.equals(&b));
    let c = Multiaddr::empty().with(Segment::Ip4(127, 0, 0, 1)).with(Segment::Tcp(4002));
    assert!(!a.equals(&c));
    let d = Multiaddr::empty().with(Segment::Tcp(4001)).with(Segment::Ip4(127, 0, 0, 1));
    assert!(!a.equals(&d), "segment order matters");
}

#[test]
fn circuit_listen_appends_marker() {
    let a = relay_addr();
    let listen = a.circuit_listen();
    assert_eq!(listen.len(), 3);
    assert!(matches!(&listen.segments()[2], Segment::P2pCircuit));
    // the relay prefix is untouched
    assert!(listen.segments()[0].equals(&Segment::Ip4(127, 0, 0, 1)));
    assert!(listen.segments()[1].equals(&Segment::Tcp(4001)));
}

#[test]
fn circuit_dial_appends_marker_and_peer() {
    let target = PeerIdentity::derive(9);
    let dial = relay_addr().circuit_dial(target.peer_id());
    assert_eq!(dial.len(), 4);
    assert!(matches!(&dial.segments()[2], Segment::P2pCircuit));
    match &dial.segments()[3] {
        Segment::P2p(p) => assert!(p.equals(target.peer_id())),
        _ => panic!("expected a peer segment"),
    }
}

#[test]
fn wildcard_listen_addresses() {
    let tcp = Multiaddr::listen_tcp_any();
    assert_eq!(tcp.len(), 2);
    assert!(tcp.segments()[0].equals(&Segment::Ip4(0, 0, 0, 0)));
    assert!(tcp.segments()[1].equals(&Segment::Tcp(0)));
    let quic = Multiaddr::listen_quic_any();
    assert_eq!(quic.len(), 3);
    assert!(quic.segments()[1].equals(&Segment::Udp(0)));
    assert!(quic.segments()[2].equals(&Segment::QuicV1));
}

#[test]
fn parse_role_accepts_exactly_two_names() {
    assert_eq!(parse_role("dial"), Ok(Role::Dialer));
    assert_eq!(parse_role("listen"), Ok(Role::Listener));
    assert!(parse_role("Dial").is_err());
    assert!(parse_role("").is_err());
    assert!(parse_role("listener").is_err());
    assert!(parse_role("dia").is_err());
}
