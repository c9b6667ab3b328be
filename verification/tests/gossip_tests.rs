use limiinal_core::errors::GossipError;
use limiinal_core::gossip::{compute_message_id, GossipRouter, InboundOutcome};
use limiinal_core::identity::{PeerId, PeerIdentity};

fn topic() -> Vec<u8> {
    b"room".to_vec()
}

#[test]
fn message_id_is_stable() {
    let origin = PeerIdentity::derive(1);
    let payload = b"hello".to_vec();
    let a = compute_message_id(&payload, origin.peer_id());
    let b = compute_message_id(&payload, origin.peer_id());
    assert_eq!(a, b);
}

#[test]
fn message_id_depends_on_payload_and_origin() {
    let one = PeerIdentity::derive(1);
    let two = PeerIdentity::derive(2);
    let payload = b"hello".to_vec();
    let other = b"hellp".to_vec();
    assert_ne!(
        compute_message_id(&payload, one.peer_id()),
        compute_message_id(&other, one.peer_id())
    );
    assert_ne!(
        compute_message_id(&payload, one.peer_id()),
        compute_message_id(&payload, two.peer_id())
    );
}

#[test]
fn publish_with_no_peers_fails() {
    let identity = PeerIdentity::derive(1);
    let mut router = GossipRouter::new(16);
    let peers: Vec<PeerId> = Vec::new();
    let r = router.publish(&identity, &topic(), &b"hello".to_vec(), &peers);
    assert!(matches!(r, Err(GossipError::NoPeers)));
}

#[test]
fn published_message_is_delivered_once() {
    let sender = PeerIdentity::derive(1);
    let receiver_peer = PeerIdentity::derive(2);
    let mut sender_router = GossipRouter::new(16);
    let mut receiver_router = GossipRouter::new(16);
    assert!(receiver_router.subscribe(topic()));

    let peers = vec![receiver_peer.peer_id().duplicate()];
    let msg = sender_router
        .publish(&sender, &topic(), &b"hello".to_vec(), &peers)
        .expect("one peer is connected");
    assert_eq!(msg.topic, topic());
    assert_eq!(msg.payload, b"hello".to_vec());
    assert!(msg.origin.equals(sender.peer_id()));

    let none: Vec<PeerId> = Vec::new();
    let (outcome, forwards) =
        receiver_router.handle_inbound(&msg, sender.peer_id(), &none);
    assert_eq!(outcome, InboundOutcome::Fresh { delivered: true });
    assert!(forwards.is_empty());

    // the same message again is a silent duplicate
    let (again, forwards2) = receiver_router.handle_inbound(&msg, sender.peer_id(), &none);
    assert_eq!(again, InboundOutcome::Duplicate);
    assert!(forwards2.is_empty());
}

#[test]
fn unsubscribed_topic_is_not_delivered_but_forwarded() {
    let sender = PeerIdentity::derive(1);
    let mut sender_router = GossipRouter::new(16);
    let mut receiver_router = GossipRouter::new(16);

    let third = PeerIdentity::derive(3);
    let peers = vec![third.peer_id().duplicate()];
    let msg = sender_router
        .publish(&sender, &topic(), &b"hello".to_vec(), &peers)
        .expect("one peer is connected");

    let connected = vec![sender.peer_id().duplicate(), third.peer_id().duplicate()];
    let (outcome, forwards) =
        receiver_router.handle_inbound(&msg, sender.peer_id(), &connected);
    assert_eq!(outcome, InboundOutcome::Fresh { delivered: false });
    // forwarded once to everyone but the sender it came from
    assert_eq!(forwards.len(), 1);
    assert!(forwards[0].equals(third.peer_id()));
}

#[test]
fn invalid_signature_is_dropped() {
    let sender = PeerIdentity::derive(1);
    let mut sender_router = GossipRouter::new(16);
    let mut receiver_router = GossipRouter::new(16);
    receiver_router.subscribe(topic());

    let receiver_peer = PeerIdentity::derive(2);
    let peers = vec![receiver_peer.peer_id().duplicate()];
    let mut msg = sender_router
        .publish(&sender, &topic(), &b"hello".to_vec(), &peers)
        .expect("one peer is connected");

    // tamper with the signature
    msg.signature[0] ^= 0xff;
    // the identifier still matches the content, only the signature is bad
    let (outcome, forwards) = receiver_router.handle_inbound(&msg, sender.peer_id(), &peers);
    assert_eq!(outcome, InboundOutcome::Invalid { error: GossipError::InvalidSignature });
    assert!(forwards.is_empty());
}

#[test]
fn tampered_payload_is_dropped() {
    let sender = PeerIdentity::derive(1);
    let mut sender_router = GossipRouter::new(16);
    let mut receiver_router = GossipRouter::new(16);
    receiver_router.subscribe(topic());

    let receiver_peer = PeerIdentity::derive(2);
    let peers = vec![receiver_peer.peer_id().duplicate()];
    let mut msg = sender_router
        .publish(&sender, &topic(), &b"hello".to_vec(), &peers)
        .expect("one peer is connected");

    // tamper with the payload: the identifier no longer matches
    msg.payload[0] ^= 0xff;
    let (outcome, forwards) = receiver_router.handle_inbound(&msg, sender.peer_id(), &peers);
    assert_eq!(outcome, InboundOutcome::Invalid { error: GossipError::MalformedMessage });
    assert!(forwards.is_empty());
}

#[test]
fn dedup_cache_evicts_oldest_first() {
    let sender = PeerIdentity::derive(1);
    let mut sender_router = GossipRouter::new(16);
    // a receiver whose cache holds only two identifiers
    let mut receiver_router = GossipRouter::new(2);
    receiver_router.subscribe(topic());

    let receiver_peer = PeerIdentity::derive(2);
    let peers = vec![receiver_peer.peer_id().duplicate()];
    let none: Vec<PeerId> = Vec::new();

    let m1 = sender_router.publish(&sender, &topic(), &b"one".to_vec(), &peers).unwrap();
    let m2 = sender_router.publish(&sender, &topic(), &b"two".to_vec(), &peers).unwrap();
    let m3 = sender_router.publish(&sender, &topic(), &b"three".to_vec(), &peers).unwrap();

    let (o1, _) = receiver_router.handle_inbound(&m1, sender.peer_id(), &none);
    let (o2, _) = receiver_router.handle_inbound(&m2, sender.peer_id(), &none);
    let (o3, _) = receiver_router.handle_inbound(&m3, sender.peer_id(), &none);
    assert_eq!(o1, InboundOutcome::Fresh { delivered: true });
    assert_eq!(o2, InboundOutcome::Fresh { delivered: true });
    assert_eq!(o3, InboundOutcome::Fresh { delivered: true });

    // the first identifier was evicted (oldest first), so the message is
    // fresh again; the second newest is still remembered
    let (again1, _) = receiver_router.handle_inbound(&m1, sender.peer_id(), &none);
    assert_eq!(again1, InboundOutcome::Fresh { delivered: true });
    let (again3, _) = receiver_router.handle_inbound(&m3, sender.peer_id(), &none);
    assert_eq!(again3, InboundOutcome::Duplicate);
}

#[test]
fn subscribe_and_unsubscribe() {
    let mut router = GossipRouter::new(4);
    assert!(!router.is_subscribed(&topic()));
    assert!(router.subscribe(topic()));
    assert!(router.is_subscribed(&topic()));
    // subscribing twice changes nothing
    assert!(!router.subscribe(topic()));
    assert!(router.unsubscribe(&topic()));
    assert!(!router.is_subscribed(&topic()));
    assert!(!router.unsubscribe(&topic()));
}
