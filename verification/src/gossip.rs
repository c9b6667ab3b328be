//! Flood/gossip publish-subscribe router.
//!
//! The router keeps the local topic subscriptions, signs and verifies
//! messages, suppresses duplicates through a bounded recent-message cache
//! (oldest entry evicted first), and floods fresh messages to every
//! connected peer except the one a message arrived from. Validation is
//! strict: a message whose signature does not verify, or whose identifier
//! does not match its content, is dropped without delivery and without
//! forwarding.

use vstd::prelude::*;

use crate::bytes::{bytes_eq, copy_bytes};
use crate::errors::GossipError;
use crate::identity::{
    peer_views, signature_of_seed, signature_valid, verify_signature, PeerId, PeerIdentity,
};

verus! {

/// Offset basis of the 64-bit FNV-1a hash.
pub const FNV_OFFSET: u64 = 0xcbf2_9ce4_8422_2325;

/// Prime multiplier of the 64-bit FNV-1a hash.
pub const FNV_PRIME: u64 = 0x100_0000_01b3;

/// One FNV-1a round: fold a byte in, multiply modulo two to the sixty-fourth.
pub open spec fn fnv1a_step(h: u64, b: u8) -> u64 {
    (((h ^ (b as u64)) as nat * FNV_PRIME as nat) % 0x1_0000_0000_0000_0000nat) as u64
}

/// The 64-bit FNV-1a hash of a byte sequence.
pub open spec fn fnv1a(bytes: Seq<u8>) -> u64
    decreases bytes.len(),
{
    if bytes.len() == 0 {
        FNV_OFFSET
    } else {
        fnv1a_step(fnv1a(bytes.drop_last()), bytes.last())
    }
}

/// The message identifier: a content hash of the payload together with the
/// origin peer identifier, and a function of nothing else.
pub open spec fn message_id(payload: Seq<u8>, origin: Seq<u8>) -> u64 {
    fnv1a(payload + origin)
}

/// Computes [`message_id`] for concrete bytes.
pub fn compute_message_id(payload: &Vec<u8>, origin: &PeerId) -> (r: u64)
    ensures
        r == message_id(payload@, origin@),
{
    let ghost whole = payload@ + origin@;
    let mut h: u64 = FNV_OFFSET;
    proof {
        assert(whole.subrange(0, 0) =~= Seq::<u8>::empty());
    }
    let n = payload.len();
    let mut i: usize = 0;
    while i < n
        invariant
            n == payload.len(),
            i <= n,
            whole == payload@ + origin@,
            h == fnv1a(whole.subrange(0, i as int)),
        decreases n - i,
    {
        proof {
            assert(whole.subrange(0, i + 1).drop_last() =~= whole.subrange(0, i as int));
            assert(whole.subrange(0, i + 1).last() == payload@[i as int]);
        }
        h = (h ^ (payload[i] as u64)).wrapping_mul(FNV_PRIME);
        i = i + 1;
    }
    let origin_bytes = origin.as_bytes();
    let m = origin_bytes.len();
    let mut k: usize = 0;
    while k < m
        invariant
            m == origin_bytes.len(),
            origin_bytes@ == origin@,
            k <= m,
            n == payload.len(),
            whole == payload@ + origin@,
            h == fnv1a(whole.subrange(0, n + k)),
        decreases m - k,
    {
        proof {
            assert(whole.subrange(0, n + k + 1).drop_last() =~= whole.subrange(0, n + k));
            assert(whole.subrange(0, n + k + 1).last() == origin@[k as int]);
        }
        h = (h ^ (origin_bytes[k] as u64)).wrapping_mul(FNV_PRIME);
        k = k + 1;
    }
    proof {
        assert(whole.subrange(0, n + m) =~= whole);
    }
    h
}

/// A signed gossip message. Ephemeral: after handling, only its identifier
/// is retained, in the dedup cache.
pub struct GossipMessage {
    /// Content hash of payload and origin; see [`message_id`].
    pub id: u64,
    /// The topic this message belongs to.
    pub topic: Vec<u8>,
    /// The user payload.
    pub payload: Vec<u8>,
    /// The peer that created (not merely forwarded) the message.
    pub origin: PeerId,
    /// Signature over the payload by the origin's identity key.
    pub signature: Vec<u8>,
}

/// The mathematical shape of a [`GossipMessage`].
pub struct GossipMessageView {
    pub id: u64,
    pub topic: Seq<u8>,
    pub payload: Seq<u8>,
    pub origin: Seq<u8>,
    pub signature: Seq<u8>,
}

impl View for GossipMessage {
    type V = GossipMessageView;

    open spec fn view(&self) -> GossipMessageView {
        GossipMessageView {
            id: self.id,
            topic: self.topic@,
            payload: self.payload@,
            origin: self.origin@,
            signature: self.signature@,
        }
    }
}

impl GossipMessage {
    /// An independent copy of the message.
    pub fn duplicate(&self) -> (r: GossipMessage)
        ensures
            r@ == self@,
    {
        GossipMessage {
            id: self.id,
            topic: copy_bytes(&self.topic),
            payload: copy_bytes(&self.payload),
            origin: self.origin.duplicate(),
            signature: copy_bytes(&self.signature),
        }
    }
}

/// A message passes strict validation: its identifier is the content hash
/// of its payload and origin, and its signature verifies under the origin's
/// key.
pub open spec fn message_valid(m: GossipMessageView) -> bool {
    &&& m.id == message_id(m.payload, m.origin)
    &&& signature_valid(m.origin, m.payload, m.signature)
}

/// The dedup cache after recording `id`: append, then evict the oldest
/// entry if the bound `cap` would be exceeded.
pub open spec fn cache_insert(seen: Seq<u64>, cap: nat, id: u64) -> Seq<u64> {
    let pushed = seen.push(id);
    if pushed.len() > cap {
        pushed.subrange(1, pushed.len() as int)
    } else {
        pushed
    }
}

/// The peers a fresh message is forwarded to: everyone connected except the
/// peer it arrived from.
pub open spec fn forward_targets(peers: Seq<Seq<u8>>, from: Seq<u8>) -> Seq<Seq<u8>> {
    peers.filter(|q: Seq<u8>| q != from)
}

/// Why a message failed strict validation: a malformed message is one
/// whose identifier does not match its content; otherwise the signature
/// itself did not verify.
pub open spec fn invalid_reason(m: GossipMessageView) -> GossipError {
    if m.id != message_id(m.payload, m.origin) {
        GossipError::MalformedMessage
    } else {
        GossipError::InvalidSignature
    }
}

/// What inbound handling decided about one received message.
#[derive(Clone, Copy, Debug, PartialEq, Eq, Structural)]
pub enum InboundOutcome {
    /// Malformed or wrongly signed: dropped, not delivered, not forwarded.
    Invalid { error: GossipError },
    /// Already in the dedup cache: dropped silently.
    Duplicate,
    /// First sighting: recorded, forwarded, and delivered locally exactly
    /// when the topic is subscribed.
    Fresh { delivered: bool },
}

/// Topic subscriptions, the dedup cache and its fixed bound.
pub struct GossipRouter {
    subscriptions: Vec<Vec<u8>>,
    seen: Vec<u64>,
    capacity: usize,
}

impl GossipRouter {
    /// The set of subscribed topics, as a sequence without repetition.
    pub closed spec fn topics(&self) -> Seq<Seq<u8>> {
        self.subscriptions@.map_values(|t: Vec<u8>| t@)
    }

    /// The identifiers in the dedup cache, oldest first.
    pub closed spec fn seen_ids(&self) -> Seq<u64> {
        self.seen@
    }

    /// The fixed capacity of the dedup cache.
    pub closed spec fn cap(&self) -> nat {
        self.capacity as nat
    }

    /// Internal invariant: the cache respects its bound and no topic is
    /// recorded twice.
    pub open spec fn wf(&self) -> bool {
        &&& self.cap() >= 1
        &&& self.seen_ids().len() <= self.cap()
        &&& forall|i: int, j: int|
            0 <= i < j < self.topics().len() ==> self.topics()[i] != self.topics()[j]
    }

    /// A fresh router with no subscriptions and an empty cache.
    pub fn new(capacity: usize) -> (r: GossipRouter)
        requires
            capacity >= 1,
        ensures
            r.wf(),
            r.topics() =~= Seq::<Seq<u8>>::empty(),
            r.seen_ids() =~= Seq::<u64>::empty(),
            r.cap() == capacity,
    {
        GossipRouter { subscriptions: Vec::new(), seen: Vec::new(), capacity }
    }

    /// Whether `topic` is currently subscribed.
    pub fn is_subscribed(&self, topic: &Vec<u8>) -> (r: bool)
        ensures
            r == self.topics().contains(topic@),
    {
        let n = self.subscriptions.len();
        let mut i: usize = 0;
        while i < n
            invariant
                n == self.subscriptions.len(),
                i <= n,
                forall|j: int| 0 <= j < i ==> self.topics()[j] != topic@,
            decreases n - i,
        {
            if bytes_eq(&self.subscriptions[i], topic) {
                proof {
                    assert(self.topics()[i as int] == topic@);
                }
                return true;
            }
            i = i + 1;
        }
        proof {
            assert(forall|j: int| 0 <= j < self.topics().len() ==> self.topics()[j] != topic@);
        }
        false
    }

    /// Records local interest in `topic`. Returns whether the topic was
    /// newly added; subscribing twice changes nothing.
    pub fn subscribe(&mut self, topic: Vec<u8>) -> (added: bool)
        requires
            old(self).wf(),
        ensures
            final(self).wf(),
            final(self).seen_ids() == old(self).seen_ids(),
            final(self).cap() == old(self).cap(),
            added == !old(self).topics().contains(topic@),
            added ==> final(self).topics() =~= old(self).topics().push(topic@),
            !added ==> final(self).topics() == old(self).topics(),
    {
        if self.is_subscribed(&topic) {
            return false;
        }
        let ghost pre = self.topics();
        self.subscriptions.push(topic);
        proof {
            assert(self.topics() =~= pre.push(topic@));
        }
        true
    }

    /// Withdraws local interest in `topic`. Returns whether it was present;
    /// every other topic's membership is untouched.
    pub fn unsubscribe(&mut self, topic: &Vec<u8>) -> (removed: bool)
        requires
            old(self).wf(),
        ensures
            final(self).wf(),
            final(self).seen_ids() == old(self).seen_ids(),
            final(self).cap() == old(self).cap(),
            removed == old(self).topics().contains(topic@),
            !final(self).topics().contains(topic@),
            forall|t: Seq<u8>|
                t != topic@ ==> (final(self).topics().contains(t) == old(
                    self,
                ).topics().contains(t)),
            !removed ==> final(self).topics() == old(self).topics(),
    {
        let n = self.subscriptions.len();
        let mut i: usize = 0;
        while i < n
            invariant
                *self == *old(self),
                old(self).wf(),
                n == self.subscriptions.len(),
                i <= n,
                forall|j: int| 0 <= j < i ==> self.topics()[j] != topic@,
            decreases n - i,
        {
            if bytes_eq(&self.subscriptions[i], topic) {
                let ghost pre = self.topics();
                let ghost at = i as int;
                self.subscriptions.remove(i);
                proof {
                    assert(pre[at] == topic@);
                    assert(pre.contains(topic@));
                    assert(self.topics() =~= pre.remove(at));
                    let post = self.topics();
                    assert(forall|j: int| 0 <= j < at ==> post[j] == pre[j]);
                    assert(forall|j: int| at <= j < post.len() ==> post[j] == pre[j + 1]);
                    assert forall|j: int|
                        0 <= j < post.len() implies post[j] != topic@ by {
                        if j < at {
                        } else {
                            assert(post[j] == pre[j + 1]);
                            assert(pre[j + 1] != pre[at]);
                        }
                    }
                    assert(!post.contains(topic@));
                    assert forall|t: Seq<u8>|
                        t != topic@ implies (post.contains(t) == pre.contains(t)) by {
                        if post.contains(t) {
                            let w = choose|w: int| 0 <= w < post.len() && post[w] == t;
                            if w < at {
                                assert(pre[w] == t);
                            } else {
                                assert(pre[w + 1] == t);
                            }
                        }
                        if pre.contains(t) {
                            let w = choose|w: int| 0 <= w < pre.len() && pre[w] == t;
                            if w < at {
                                assert(post[w] == t);
                            } else if w > at {
                                assert(post[w - 1] == t);
                            }
                        }
                    }
                    assert forall|p: int, q: int|
                        0 <= p < q < post.len() implies post[p] != post[q] by {
                        if q < at {
                        } else if p < at {
                            assert(post[q] == pre[q + 1]);
                        } else {
                            assert(post[p] == pre[p + 1]);
                            assert(post[q] == pre[q + 1]);
                        }
                    }
                }
                return true;
            }
            i = i + 1;
        }
        proof {
            assert(forall|j: int| 0 <= j < self.topics().len() ==> self.topics()[j] != topic@);
        }
        false
    }

    /// Appends `id` to the dedup cache, evicting the oldest entry when the
    /// bound is reached.
    fn record_seen(&mut self, id: u64)
        requires
            old(self).wf(),
        ensures
            final(self).wf(),
            final(self).topics() == old(self).topics(),
            final(self).cap() == old(self).cap(),
            final(self).seen_ids() == cache_insert(
                old(self).seen_ids(),
                old(self).cap(),
                id,
            ),
    {
        let ghost pre = self.seen@;
        self.seen.push(id);
        if self.seen.len() > self.capacity {
            self.seen.remove(0);
            proof {
                assert(self.seen@ =~= pre.push(id).subrange(1, pre.push(id).len() as int));
            }
        }
        proof {
            assert(self.topics() == old(self).topics());
            assert forall|i: int, j: int|
                0 <= i < j < self.topics().len() implies self.topics()[i] != self.topics()[j] by {
                assert(old(self).topics()[i] != old(self).topics()[j]);
            }
        }
    }

    /// Whether `id` is in the dedup cache.
    fn has_seen(&self, id: u64) -> (r: bool)
        ensures
            r == self.seen_ids().contains(id),
    {
        let n = self.seen.len();
        let mut i: usize = 0;
        while i < n
            invariant
                n == self.seen.len(),
                i <= n,
                forall|j: int| 0 <= j < i ==> self.seen@[j] != id,
            decreases n - i,
        {
            if self.seen[i] == id {
                return true;
            }
            i = i + 1;
        }
        false
    }

    /// Signs `payload`, stamps the message with its content-hash identifier,
    /// records the identifier in the dedup cache, and returns the message to
    /// be flooded to every connected peer. Fails, changing nothing, exactly
    /// when no peer is connected.
    pub fn publish(
        &mut self,
        identity: &PeerIdentity,
        topic: &Vec<u8>,
        payload: &Vec<u8>,
        peers: &Vec<PeerId>,
    ) -> (r: Result<GossipMessage, GossipError>)
        requires
            old(self).wf(),
            identity.wf(),
        ensures
            final(self).wf(),
            final(self).topics() == old(self).topics(),
            final(self).cap() == old(self).cap(),
            r is Err <==> peers@.len() == 0,
            r matches Err(e) ==> e == GossipError::NoPeers && final(self).seen_ids() == old(
                self,
            ).seen_ids(),
            r matches Ok(m) ==> {
                &&& m@.topic == topic@
                &&& m@.payload == payload@
                &&& m@.origin == identity.id()
                &&& m@.signature == signature_of_seed(identity.seed_val(), payload@)
                &&& m@.id == message_id(payload@, identity.id())
                &&& message_valid(m@)
                &&& final(self).seen_ids() == cache_insert(
                    old(self).seen_ids(),
                    old(self).cap(),
                    m@.id,
                )
            },
    {
        if peers.len() == 0 {
            return Err(GossipError::NoPeers);
        }
        let origin = identity.peer_id().duplicate();
        let signature = identity.sign(payload);
        let id = compute_message_id(payload, &origin);
        let msg = GossipMessage {
            id,
            topic: copy_bytes(topic),
            payload: copy_bytes(payload),
            origin,
            signature,
        };
        self.record_seen(id);
        Ok(msg)
    }

    /// Handles one received message, strictly: verify, deduplicate, deliver
    /// to the local subscriber when the topic is of interest, and forward
    /// once to every connected peer except the sender. Returns the outcome
    /// and the forward list (empty unless the message was fresh and valid).
    pub fn handle_inbound(
        &mut self,
        msg: &GossipMessage,
        from: &PeerId,
        peers: &Vec<PeerId>,
    ) -> (r: (InboundOutcome, Vec<PeerId>))
        requires
            old(self).wf(),
        ensures
            final(self).wf(),
            final(self).topics() == old(self).topics(),
            final(self).cap() == old(self).cap(),
            r.0 is Invalid <==> !message_valid(msg@),
            r.0 matches InboundOutcome::Invalid { error } ==> error == invalid_reason(msg@),
            message_valid(msg@) ==> (r.0 is Duplicate <==> old(self).seen_ids().contains(
                msg@.id,
            )),
            r.0 is Invalid || r.0 is Duplicate ==> final(self).seen_ids() == old(
                self,
            ).seen_ids() && r.1@.len() == 0,
            r.0 matches InboundOutcome::Fresh { delivered } ==> {
                &&& message_valid(msg@)
                &&& !old(self).seen_ids().contains(msg@.id)
                &&& delivered == old(self).topics().contains(msg@.topic)
                &&& final(self).seen_ids() == cache_insert(
                    old(self).seen_ids(),
                    old(self).cap(),
                    msg@.id,
                )
                &&& peer_views(r.1@) == forward_targets(peer_views(peers@), from@)
            },
    {
        let expected_id = compute_message_id(&msg.payload, &msg.origin);
        if msg.id != expected_id {
            return (InboundOutcome::Invalid { error: GossipError::MalformedMessage }, Vec::new());
        }
        if !verify_signature(&msg.origin, &msg.payload, &msg.signature) {
            return (InboundOutcome::Invalid { error: GossipError::InvalidSignature }, Vec::new());
        }
        if self.has_seen(msg.id) {
            return (InboundOutcome::Duplicate, Vec::new());
        }
        self.record_seen(msg.id);
        let delivered = self.is_subscribed(&msg.topic);
        let mut targets: Vec<PeerId> = Vec::new();
        let n = peers.len();
        let mut i: usize = 0;
        proof {
            reveal(Seq::filter);
            assert(peer_views(peers@.subrange(0, 0)) =~= Seq::<Seq<u8>>::empty());
            assert(peer_views(targets@) =~= Seq::<Seq<u8>>::empty());
        }
        while i < n
            invariant
                n == peers.len(),
                i <= n,
                peer_views(targets@) == forward_targets(
                    peer_views(peers@.subrange(0, i as int)),
                    from@,
                ),
            decreases n - i,
        {
            broadcast use vstd::prelude::Seq::lemma_filter_push;

            let ghost prefix = peer_views(peers@.subrange(0, i as int));
            let ghost x = peers@[i as int]@;
            let keep = !peers[i].equals(from);
            proof {
                assert(peer_views(peers@.subrange(0, i + 1)) =~= prefix.push(x));
                assert(forward_targets(prefix.push(x), from@) == prefix.push(x).filter(
                    |q: Seq<u8>| q != from@,
                ));
            }
            if keep {
                let ghost before = targets@;
                targets.push(peers[i].duplicate());
                proof {
                    assert(peer_views(targets@) =~= peer_views(before).push(x));
                }
            }
            i = i + 1;
        }
        proof {
            assert(peers@.subrange(0, n as int) =~= peers@);
        }
        (InboundOutcome::Fresh { delivered }, targets)
    }
}

/// Stability of the message identifier: any two messages that carry the
/// content hash of their payload and origin, and agree on payload and
/// origin, agree on their identifier.
pub proof fn lemma_message_id_stable(m1: GossipMessageView, m2: GossipMessageView)
    requires
        m1.id == message_id(m1.payload, m1.origin),
        m2.id == message_id(m2.payload, m2.origin),
        m1.payload == m2.payload,
        m1.origin == m2.origin,
    ensures
        m1.id == m2.id,
{
}

/// Idempotent delivery: recording an identifier always leaves it in the
/// cache, so handling the same message again within the dedup window is a
/// duplicate, neither delivered nor forwarded again.
pub proof fn lemma_recorded_id_stays(seen: Seq<u64>, cap: nat, id: u64)
    requires
        cap >= 1,
    ensures
        cache_insert(seen, cap, id).contains(id),
{
    let out = cache_insert(seen, cap, id);
    assert(out[out.len() - 1] == id);
}

} // verus!
