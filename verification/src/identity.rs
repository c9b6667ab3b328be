//! Peer identity: a deterministic ed25519 keypair and the peer identifier
//! derived from it.
//!
//! The cryptographic primitives come from libp2p's identity crate and are
//! reached through a small set of trusted wrappers; everything the rest of
//! the library states about them goes through the named results
//! [`peer_id_of_seed`], [`signature_of_seed`] and [`signature_valid`].

use vstd::prelude::*;

verus! {

/// The libp2p keypair type, held opaquely inside [`PeerIdentity`].
#[verifier::external_type_specification]
#[verifier::external_body]
pub struct ExKeypair(libp2p::identity::Keypair);

/// The multihash encoding of the peer identifier that libp2p derives from
/// the ed25519 keypair whose 32-byte secret is `seed` followed by zeros.
/// A function of the seed alone.
pub uninterp spec fn peer_id_of_seed(seed: u8) -> Seq<u8>;

/// The ed25519 signature that the keypair of `seed` produces over `msg`.
/// Ed25519 signing is deterministic, so this is a function of its arguments.
pub uninterp spec fn signature_of_seed(seed: u8, msg: Seq<u8>) -> Seq<u8>;

/// Whether `sig` is a valid signature over `msg` by the key embedded in the
/// peer identifier `origin`. A function of its arguments alone.
pub uninterp spec fn signature_valid(origin: Seq<u8>, msg: Seq<u8>, sig: Seq<u8>) -> bool;

/// A peer identifier: the multihash bytes that name a participant, derived
/// from its public key. Compared structurally, byte for byte.
pub struct PeerId {
    bytes: Vec<u8>,
}

impl View for PeerId {
    type V = Seq<u8>;

    closed spec fn view(&self) -> Seq<u8> {
        self.bytes@
    }
}

impl PeerId {
    /// Wraps raw multihash bytes, as received from the wire or a driver.
    pub fn from_bytes(bytes: Vec<u8>) -> (r: PeerId)
        ensures
            r@ == bytes@,
    {
        PeerId { bytes }
    }

    /// The raw multihash bytes of this identifier.
    pub fn as_bytes(&self) -> (r: &Vec<u8>)
        ensures
            r@ == self@,
    {
        &self.bytes
    }

    /// Structural equality of two peer identifiers.
    pub fn equals(&self, other: &PeerId) -> (r: bool)
        ensures
            r == (self@ == other@),
    {
        if self.bytes.len() != other.bytes.len() {
            return false;
        }
        let n = self.bytes.len();
        let mut i: usize = 0;
        while i < n
            invariant
                n == self.bytes.len() == other.bytes.len(),
                i <= n,
                forall|j: int| 0 <= j < i ==> self.bytes@[j] == other.bytes@[j],
            decreases n - i,
        {
            if self.bytes[i] != other.bytes[i] {
                return false;
            }
            i = i + 1;
        }
        proof {
            assert(self@ =~= other@);
        }
        true
    }

    /// An independent copy of this identifier.
    pub fn duplicate(&self) -> (r: PeerId)
        ensures
            r@ == self@,
    {
        let mut bytes: Vec<u8> = Vec::new();
        let n = self.bytes.len();
        let mut i: usize = 0;
        while i < n
            invariant
                n == self.bytes.len(),
                i <= n,
                bytes@ =~= self.bytes@.subrange(0, i as int),
            decreases n - i,
        {
            bytes.push(self.bytes[i]);
            i = i + 1;
        }
        proof {
            assert(bytes@ =~= self@);
        }
        PeerId { bytes }
    }
}

/// The views of a list of peer identifiers.
pub open spec fn peer_views(peers: Seq<PeerId>) -> Seq<Seq<u8>> {
    peers.map_values(|p: PeerId| p@)
}

/// Relies on `libp2p::identity::Keypair::ed25519_from_bytes` and
/// `PublicKey::to_peer_id`: the keypair built from the 32-byte secret whose
/// first byte is `seed` (the rest zero) is a function of `seed` alone, and so
/// is the multihash encoding of its peer identifier. `ed25519_from_bytes`
/// fails only when the slice length is not 32, so the call cannot fail here.
#[verifier::external_body]
fn derive_keypair(seed: u8) -> (r: (libp2p::identity::Keypair, Vec<u8>))
    ensures
        r.1@ == peer_id_of_seed(seed),
{
    let mut bytes = [0u8; 32];
    bytes[0] = seed;
    let keypair = libp2p::identity::Keypair::ed25519_from_bytes(bytes)
        .expect("a 32-byte ed25519 secret always decodes");
    let peer_id = keypair.public().to_peer_id().to_bytes();
    (keypair, peer_id)
}

/// A keypair and the peer identifier derived from it. Immutable after
/// creation; [`PeerIdentity::derive`] is the only constructor, so the held
/// keypair is always the one that belongs to the stored seed.
pub struct PeerIdentity {
    keypair: libp2p::identity::Keypair,
    seed: u8,
    peer_id: PeerId,
}

impl PeerIdentity {
    /// The seed this identity was derived from.
    pub closed spec fn seed_val(&self) -> u8 {
        self.seed
    }

    /// The peer identifier as a byte sequence.
    pub closed spec fn id(&self) -> Seq<u8> {
        self.peer_id@
    }

    /// The identifier matches the seed: what `derive` establishes and every
    /// method preserves.
    pub closed spec fn wf(&self) -> bool {
        self.peer_id@ == peer_id_of_seed(self.seed)
    }

    /// Derives the identity of `seed`: a pure, deterministic derivation, so
    /// equal seeds always yield equal peer identifiers.
    pub fn derive(seed: u8) -> (r: PeerIdentity)
        ensures
            r.wf(),
            r.seed_val() == seed,
            r.id() == peer_id_of_seed(seed),
    {
        let (keypair, id_bytes) = derive_keypair(seed);
        PeerIdentity { keypair, seed, peer_id: PeerId::from_bytes(id_bytes) }
    }

    /// The derived peer identifier.
    pub fn peer_id(&self) -> (r: &PeerId)
        ensures
            r@ == self.id(),
    {
        &self.peer_id
    }

    /// Relies on `libp2p::identity::Keypair::sign`: ed25519 signing is
    /// deterministic and infallible (the `SigningError` arm is unreachable
    /// for ed25519 keys), and the signature it produces verifies under the
    /// signer's public key, which an ed25519 peer identifier embeds. The
    /// keypair field is the one derived from `seed` (see the type's doc).
    #[verifier::external_body]
    pub(crate) fn sign(&self, msg: &Vec<u8>) -> (r: Vec<u8>)
        requires
            self.wf(),
        ensures
            r@ == signature_of_seed(self.seed_val(), msg@),
            signature_valid(self.id(), msg@, r@),
    {
        self.keypair.sign(msg).expect("ed25519 signing never fails")
    }
}

/// Relies on `libp2p::identity::PublicKey::try_decode_protobuf` and
/// `PublicKey::verify`: an ed25519 peer identifier is the identity multihash
/// (code 0, one-byte length) of the protobuf-encoded public key, so the key
/// can be read back out of it; verification is then a function of the
/// identifier, message and signature bytes alone. Identifiers that embed no
/// readable key never validate anything.
#[verifier::external_body]
pub(crate) fn verify_signature(origin: &PeerId, msg: &Vec<u8>, sig: &Vec<u8>) -> (r: bool)
    ensures
        r == signature_valid(origin@, msg@, sig@),
{
    let bytes = origin.as_bytes();
    if bytes.len() < 2 || bytes[0] != 0 || bytes.len() != bytes[1] as usize + 2 {
        return false;
    }
    match libp2p::identity::PublicKey::try_decode_protobuf(&bytes[2..]) {
        Ok(key) => key.verify(msg, sig),
        Err(_) => false,
    }
}

/// Identity derivation is deterministic: identities that are well formed and
/// share a seed name the same peer.
pub proof fn lemma_derive_deterministic(a: PeerIdentity, b: PeerIdentity)
    requires
        a.wf(),
        b.wf(),
        a.seed_val() == b.seed_val(),
    ensures
        a.id() == b.id(),
{
}

} // verus!
