use limiinal_core::codec::{decode, encode};
use limiinal_core::gossip::GossipRouter;
use limiinal_core::identity::{PeerId, PeerIdentity};

fn signed_message() -> limiinal_core::gossip::GossipMessage {
    let sender = PeerIdentity::derive(1);
    let mut router = GossipRouter::new(16);
    let peers = vec![PeerIdentity::derive(2).peer_id().duplicate()];
    router
        .publish(&sender, &b"room".to_vec(), &b"hello".to_vec(), &peers)
        .expect("one peer is connected")
}

#[test]
fn encode_decode_round_trip() {
    let msg = signed_message();
    let frame = encode(&msg);
    let back = decode(&frame).expect("a produced frame always decodes");
    assert_eq!(back.topic, msg.topic);
    assert_eq!(back.payload, msg.payload);
    assert!(back.origin.equals(&msg.origin));
    assert_eq!(back.signature, msg.signature);
    // the identifier is recomputed from the content and matches
    assert_eq!(back.id, msg.id);
}

#[test]
fn empty_sections_round_trip() {
    let msg = limiinal_core::gossip::GossipMessage {
        id: 0,
        topic: Vec::new(),
        payload: Vec::new(),
        origin: PeerId::from_bytes(Vec::new()),
        signature: Vec::new(),
    };
    let frame = encode(&msg);
    assert_eq!(frame.len(), 16, "four empty sections leave only the four lengths");
    let back = decode(&frame).expect("decodes");
    assert!(back.topic.is_empty());
    assert!(back.payload.is_empty());
    assert!(back.signature.is_empty());
}

#[test]
fn truncated_frames_are_rejected() {
    let msg = signed_message();
    let frame = encode(&msg);
    for cut in [0, 1, 3, 4, frame.len() / 2, frame.len() - 1] {
        let truncated: Vec<u8> = frame[..cut].to_vec();
        assert!(decode(&truncated).is_none(), "cut at {cut}");
    }
}

#[test]
fn trailing_bytes_are_rejected() {
    let msg = signed_message();
    let mut frame = encode(&msg);
    frame.push(0);
    assert!(decode(&frame).is_none());
}

#[test]
fn oversized_length_prefix_is_rejected() {
    // a frame that claims a topic longer than the buffer
    let bytes = vec![0xff, 0xff, 0xff, 0xff, b'x', b'y'];
    assert!(decode(&bytes).is_none());
}
