use limiinal_core::identity::PeerIdentity;

#[test]
fn derive_is_deterministic_seed_one() {
    let a = PeerIdentity::derive(1);
    let b = PeerIdentity::derive(1);
    assert!(a.peer_id().equals(b.peer_id()));
    assert_eq!(a.peer_id().as_bytes(), b.peer_id().as_bytes());
}

#[test]
fn derive_is_deterministic_across_seeds() {
    for seed in [0u8, 1, 2, 7, 42, 255] {
        let a = PeerIdentity::derive(seed);
        let b = PeerIdentity::derive(seed);
        assert!(a.peer_id().equals(b.peer_id()));
    }
}

#[test]
fn peer_id_is_nonempty_multihash() {
    let id = PeerIdentity::derive(1);
    let bytes = id.peer_id().as_bytes();
    // An ed25519 peer identifier is an identity multihash: code 0, then a
    // one-byte length that covers the rest.
    assert!(bytes.len() > 2);
    assert_eq!(bytes[0], 0);
    assert_eq!(bytes.len(), bytes[1] as usize + 2);
}

#[test]
fn distinct_seeds_give_distinct_ids() {
    let a = PeerIdentity::derive(1);
    let b = PeerIdentity::derive(2);
    assert!(!a.peer_id().equals(b.peer_id()));
}
