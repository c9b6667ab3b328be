//! Wire framing of gossip messages.
//!
//! A frame is four length-prefixed sections — topic, payload, origin peer
//! identifier, signature — each preceded by its length as four big-endian
//! bytes, with nothing after the last section. The message identifier is
//! not carried: the receiver recomputes the content hash, so a frame can
//! never claim a wrong one. Decoding is strict and total: every byte
//! sequence either parses to exactly one message or is rejected.

use vstd::prelude::*;
use vstd::arithmetic::div_mod::{lemma_div_denominator, lemma_fundamental_div_mod};

use crate::gossip::{message_id, GossipMessage};
use crate::identity::PeerId;

verus! {

/// A 32-bit length as four big-endian bytes.
pub open spec fn be32(n: u32) -> Seq<u8> {
    seq![
        (n / 0x100_0000) as u8,
        ((n / 0x1_0000) % 0x100) as u8,
        ((n / 0x100) % 0x100) as u8,
        (n % 0x100) as u8,
    ]
}

/// The value of four big-endian bytes at `off`.
pub open spec fn be32_val(b: Seq<u8>, off: int) -> int {
    b[off] * 0x100_0000 + b[off + 1] * 0x1_0000 + b[off + 2] * 0x100 + b[off + 3]
}

/// Reading back the four bytes of a length gives the length.
pub proof fn lemma_be32_round_trip(n: u32)
    ensures
        be32(n).len() == 4,
        be32_val(be32(n), 0) == n,
{
    lemma_fundamental_div_mod(n as int, 0x100);
    lemma_fundamental_div_mod(n as int / 0x100, 0x100);
    lemma_fundamental_div_mod(n as int / 0x1_0000, 0x100);
    lemma_div_denominator(n as int, 0x100, 0x100);
    lemma_div_denominator(n as int, 0x1_0000, 0x100);
    assert(n as int / 0x100 / 0x100 == n as int / 0x1_0000);
    assert(n as int / 0x1_0000 / 0x100 == n as int / 0x100_0000);
    assert(n as int / 0x100_0000 < 0x100) by {
        assert(n as int / 0x100_0000 <= 0xffff_ffffint / 0x100_0000) by {
            vstd::arithmetic::div_mod::lemma_div_is_ordered(n as int, 0xffff_ffffint, 0x100_0000);
        }
    }
}

/// The frame of one message: the four sections, each behind its length.
pub open spec fn encode_spec(
    topic: Seq<u8>,
    payload: Seq<u8>,
    origin: Seq<u8>,
    sig: Seq<u8>,
) -> Seq<u8> {
    be32(topic.len() as u32) + topic + be32(payload.len() as u32) + payload + be32(
        origin.len() as u32,
    ) + origin + be32(sig.len() as u32) + sig
}

/// The strict parse of a frame: the four sections, or nothing. A frame
/// parses only if every section length is in bounds and nothing follows
/// the last section.
pub open spec fn decode_spec(b: Seq<u8>) -> Option<(Seq<u8>, Seq<u8>, Seq<u8>, Seq<u8>)> {
    if b.len() < 4 {
        None
    } else {
        let tl = be32_val(b, 0);
        if b.len() < 4 + tl + 4 {
            None
        } else {
            let topic = b.subrange(4, 4 + tl);
            let pl = be32_val(b, 4 + tl);
            if b.len() < 4 + tl + 4 + pl + 4 {
                None
            } else {
                let payload = b.subrange(4 + tl + 4, 4 + tl + 4 + pl);
                let ol = be32_val(b, 4 + tl + 4 + pl);
                if b.len() < 4 + tl + 4 + pl + 4 + ol + 4 {
                    None
                } else {
                    let origin = b.subrange(4 + tl + 4 + pl + 4, 4 + tl + 4 + pl + 4 + ol);
                    let sl = be32_val(b, 4 + tl + 4 + pl + 4 + ol);
                    if b.len() != 4 + tl + 4 + pl + 4 + ol + 4 + sl {
                        None
                    } else {
                        let sig = b.subrange(
                            4 + tl + 4 + pl + 4 + ol + 4,
                            4 + tl + 4 + pl + 4 + ol + 4 + sl,
                        );
                        Some((topic, payload, origin, sig))
                    }
                }
            }
        }
    }
}

/// Appends the four big-endian bytes of `n`.
fn push_be32(out: &mut Vec<u8>, n: u32)
    ensures
        final(out)@ == old(out)@ + be32(n),
{
    let ghost pre = out@;
    proof {
        assert(n / 0x100_0000 < 0x100) by {
            assert(n as int / 0x100_0000 <= 0xffff_ffffint / 0x100_0000) by {
                vstd::arithmetic::div_mod::lemma_div_is_ordered(n as int, 0xffff_ffffint, 0x100_0000);
            }
        }
    }
    out.push((n / 0x100_0000) as u8);
    out.push(((n / 0x1_0000) % 0x100) as u8);
    out.push(((n / 0x100) % 0x100) as u8);
    out.push((n % 0x100) as u8);
    proof {
        assert(out@ =~= pre + be32(n));
    }
}

/// Appends a whole section.
fn push_bytes(out: &mut Vec<u8>, b: &Vec<u8>)
    ensures
        final(out)@ == old(out)@ + b@,
{
    let ghost pre = out@;
    let n = b.len();
    let mut i: usize = 0;
    proof {
        assert(out@ =~= pre + b@.subrange(0, 0));
    }
    while i < n
        invariant
            n == b.len(),
            i <= n,
            out@ =~= pre + b@.subrange(0, i as int),
        decreases n - i,
    {
        out.push(b[i]);
        proof {
            assert(out@ =~= pre + b@.subrange(0, i + 1));
        }
        i = i + 1;
    }
    proof {
        assert(out@ =~= pre + b@);
    }
}

/// Encodes a message into its frame.
pub fn encode(msg: &GossipMessage) -> (r: Vec<u8>)
    requires
        msg@.topic.len() <= u32::MAX,
        msg@.payload.len() <= u32::MAX,
        msg@.origin.len() <= u32::MAX,
        msg@.signature.len() <= u32::MAX,
    ensures
        r@ == encode_spec(msg@.topic, msg@.payload, msg@.origin, msg@.signature),
{
    let mut out: Vec<u8> = Vec::new();
    push_be32(&mut out, msg.topic.len() as u32);
    push_bytes(&mut out, &msg.topic);
    push_be32(&mut out, msg.payload.len() as u32);
    push_bytes(&mut out, &msg.payload);
    push_be32(&mut out, msg.origin.as_bytes().len() as u32);
    push_bytes(&mut out, msg.origin.as_bytes());
    push_be32(&mut out, msg.signature.len() as u32);
    push_bytes(&mut out, &msg.signature);
    proof {
        assert(out@ =~= encode_spec(msg@.topic, msg@.payload, msg@.origin, msg@.signature));
    }
    out
}

/// Reads the four big-endian bytes at `off`.
fn read_be32(b: &Vec<u8>, off: usize) -> (r: u32)
    requires
        off + 4 <= b@.len(),
    ensures
        r == be32_val(b@, off as int),
{
    let blen = b.len();
    proof {
        assert(blen == b@.len());
    }
    let v: u32 = (b[off] as u32) * 0x100_0000 + (b[off + 1] as u32) * 0x1_0000 + (b[off + 2]
        as u32) * 0x100 + (b[off + 3] as u32);
    v
}

/// Copies the section `[off, off + len)`.
fn read_section(b: &Vec<u8>, off: usize, len: usize) -> (r: Vec<u8>)
    requires
        off + len <= b@.len(),
    ensures
        r@ == b@.subrange(off as int, off as int + len as int),
{
    let blen = b.len();
    proof {
        assert(blen == b@.len());
    }
    let mut out: Vec<u8> = Vec::new();
    let mut i: usize = 0;
    while i < len
        invariant
            blen == b@.len(),
            off + len <= blen,
            i <= len,
            out@ =~= b@.subrange(off as int, off as int + i as int),
        decreases len - i,
    {
        out.push(b[off + i]);
        proof {
            assert(out@ =~= b@.subrange(off as int, off as int + i + 1));
        }
        i = i + 1;
    }
    out
}

/// Decodes a frame, strictly: the result is exactly what [`decode_spec`]
/// says, with the message identifier recomputed from the content.
pub fn decode(bytes: &Vec<u8>) -> (r: Option<GossipMessage>)
    ensures
        match r {
            Some(m) => {
                &&& decode_spec(bytes@) == Some((m@.topic, m@.payload, m@.origin, m@.signature))
                &&& m@.id == message_id(m@.payload, m@.origin)
            },
            None => decode_spec(bytes@) is None,
        },
{
    let total = bytes.len();
    if total < 4 {
        return None;
    }
    let tl32 = read_be32(bytes, 0);
    let tl = tl32 as usize;
    if total - 4 < 4 || total - 4 - 4 < tl {
        return None;
    }
    let topic = read_section(bytes, 4, tl);
    let o1 = 4 + tl;
    let pl32 = read_be32(bytes, o1);
    let pl = pl32 as usize;
    if total - o1 - 4 < 4 || total - o1 - 4 - 4 < pl {
        return None;
    }
    let payload = read_section(bytes, o1 + 4, pl);
    let o2 = o1 + 4 + pl;
    let ol32 = read_be32(bytes, o2);
    let ol = ol32 as usize;
    if total - o2 - 4 < 4 || total - o2 - 4 - 4 < ol {
        return None;
    }
    let origin_bytes = read_section(bytes, o2 + 4, ol);
    let o3 = o2 + 4 + ol;
    let sl32 = read_be32(bytes, o3);
    let sl = sl32 as usize;
    if total - o3 - 4 != sl {
        return None;
    }
    let signature = read_section(bytes, o3 + 4, sl);
    let origin = PeerId::from_bytes(origin_bytes);
    let id = crate::gossip::compute_message_id(&payload, &origin);
    Some(GossipMessage { id, topic, payload, origin, signature })
}

/// The round trip: every frame an encoder produces decodes back to exactly
/// the sections it was built from.
pub proof fn lemma_codec_round_trip(
    topic: Seq<u8>,
    payload: Seq<u8>,
    origin: Seq<u8>,
    sig: Seq<u8>,
)
    requires
        topic.len() <= u32::MAX,
        payload.len() <= u32::MAX,
        origin.len() <= u32::MAX,
        sig.len() <= u32::MAX,
    ensures
        decode_spec(encode_spec(topic, payload, origin, sig)) == Some(
            (topic, payload, origin, sig),
        ),
{
    let b = encode_spec(topic, payload, origin, sig);
    let tl = topic.len() as int;
    let pl = payload.len() as int;
    let ol = origin.len() as int;
    let sl = sig.len() as int;
    lemma_be32_round_trip(topic.len() as u32);
    lemma_be32_round_trip(payload.len() as u32);
    lemma_be32_round_trip(origin.len() as u32);
    lemma_be32_round_trip(sig.len() as u32);
    assert(b.len() == 4 + tl + 4 + pl + 4 + ol + 4 + sl);
    assert(b.subrange(0, 4) =~= be32(topic.len() as u32));
    assert(be32_val(b, 0) == tl) by {
        assert(b[0] == be32(topic.len() as u32)[0]);
        assert(b[1] == be32(topic.len() as u32)[1]);
        assert(b[2] == be32(topic.len() as u32)[2]);
        assert(b[3] == be32(topic.len() as u32)[3]);
    }
    assert(b.subrange(4, 4 + tl) =~= topic);
    assert(be32_val(b, 4 + tl) == pl) by {
        assert(b[4 + tl] == be32(payload.len() as u32)[0]);
        assert(b[4 + tl + 1] == be32(payload.len() as u32)[1]);
        assert(b[4 + tl + 2] == be32(payload.len() as u32)[2]);
        assert(b[4 + tl + 3] == be32(payload.len() as u32)[3]);
    }
    assert(b.subrange(4 + tl + 4, 4 + tl + 4 + pl) =~= payload);
    assert(be32_val(b, 4 + tl + 4 + pl) == ol) by {
        assert(b[4 + tl + 4 + pl] == be32(origin.len() as u32)[0]);
        assert(b[4 + tl + 4 + pl + 1] == be32(origin.len() as u32)[1]);
        assert(b[4 + tl + 4 + pl + 2] == be32(origin.len() as u32)[2]);
        assert(b[4 + tl + 4 + pl + 3] == be32(origin.len() as u32)[3]);
    }
    assert(b.subrange(4 + tl + 4 + pl + 4, 4 + tl + 4 + pl + 4 + ol) =~= origin);
    assert(be32_val(b, 4 + tl + 4 + pl + 4 + ol) == sl) by {
        assert(b[4 + tl + 4 + pl + 4 + ol] == be32(sig.len() as u32)[0]);
        assert(b[4 + tl + 4 + pl + 4 + ol + 1] == be32(sig.len() as u32)[1]);
        assert(b[4 + tl + 4 + pl + 4 + ol + 2] == be32(sig.len() as u32)[2]);
        assert(b[4 + tl + 4 + pl + 4 + ol + 3] == be32(sig.len() as u32)[3]);
    }
    assert(b.subrange(4 + tl + 4 + pl + 4 + ol + 4, 4 + tl + 4 + pl + 4 + ol + 4 + sl) =~= sig);
}

} // verus!
