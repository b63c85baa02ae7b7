//! Wire codec for the latency probe sub-protocol.
//!
//! A probe frame is a fixed, versionless binary encoding of the two-variant
//! `Pingstamp` union: a 4-byte little-endian variant tag (0 for `Ping`,
//! 1 for `Pong`) followed by a little-endian 64-bit timestamp in
//! microseconds since the Unix epoch. Every frame is exactly 12 bytes.

use vstd::bytes::{
    lemma_auto_spec_u32_to_from_le_bytes, lemma_auto_spec_u64_to_from_le_bytes,
    spec_u32_from_le_bytes, spec_u32_to_le_bytes, spec_u64_from_le_bytes, spec_u64_to_le_bytes,
    u32_from_le_bytes, u32_to_le_bytes, u64_from_le_bytes, u64_to_le_bytes,
};
use vstd::prelude::*;
use vstd::slice::slice_subrange;

verus! {

/// One message of the probe sub-protocol: a ping carrying the sender's
/// clock, or the pong echoing that same timestamp back. Timestamps are
/// microseconds since the Unix epoch.
#[derive(Clone, Copy, Debug, PartialEq, Eq, Structural)]
pub enum Pingstamp {
    Ping(u64),
    Pong(u64),
}

/// Number of bytes in an encoded probe frame.
pub const FRAME_LEN: usize = 12;

/// The encoding of one `Pingstamp`: variant tag, then timestamp, both
/// little-endian.
pub open spec fn spec_encode(p: Pingstamp) -> Seq<u8> {
    match p {
        Pingstamp::Ping(t) => spec_u32_to_le_bytes(0u32) + spec_u64_to_le_bytes(t),
        Pingstamp::Pong(t) => spec_u32_to_le_bytes(1u32) + spec_u64_to_le_bytes(t),
    }
}

/// The decoding of a byte sequence: `Some` exactly on well-formed frames.
pub open spec fn spec_decode(b: Seq<u8>) -> Option<Pingstamp> {
    if b.len() == FRAME_LEN {
        let tag = spec_u32_from_le_bytes(b.subrange(0, 4));
        let t = spec_u64_from_le_bytes(b.subrange(4, 12));
        if tag == 0 {
            Some(Pingstamp::Ping(t))
        } else if tag == 1 {
            Some(Pingstamp::Pong(t))
        } else {
            None
        }
    } else {
        None
    }
}

/// Decoding inverts encoding: every `Pingstamp` survives a round trip
/// through the wire format unchanged.
pub proof fn lemma_decode_encode(p: Pingstamp)
    ensures
        spec_encode(p).len() == FRAME_LEN,
        spec_decode(spec_encode(p)) == Some(p),
{
    lemma_auto_spec_u32_to_from_le_bytes();
    lemma_auto_spec_u64_to_from_le_bytes();
    let b = spec_encode(p);
    match p {
        Pingstamp::Ping(t) => {
            assert(b.subrange(0, 4) =~= spec_u32_to_le_bytes(0u32));
            assert(b.subrange(4, 12) =~= spec_u64_to_le_bytes(t));
        },
        Pingstamp::Pong(t) => {
            assert(b.subrange(0, 4) =~= spec_u32_to_le_bytes(1u32));
            assert(b.subrange(4, 12) =~= spec_u64_to_le_bytes(t));
        },
    }
}

/// Every well-formed frame is the encoding of the value it decodes to:
/// the wire format has no two byte strings for one message.
pub proof fn lemma_encode_decode(b: Seq<u8>)
    requires
        spec_decode(b) is Some,
    ensures
        spec_encode(spec_decode(b)->Some_0) =~= b,
{
    lemma_auto_spec_u32_to_from_le_bytes();
    lemma_auto_spec_u64_to_from_le_bytes();
    let p = spec_decode(b)->Some_0;
    assert(spec_u32_to_le_bytes(spec_u32_from_le_bytes(b.subrange(0, 4))) == b.subrange(0, 4));
    assert(spec_u64_to_le_bytes(spec_u64_from_le_bytes(b.subrange(4, 12))) == b.subrange(4, 12));
}

/// Encodes a `Pingstamp` as its 12-byte frame.
pub fn encode(p: &Pingstamp) -> (r: Vec<u8>)
    ensures
        r@ == spec_encode(*p),
{
    let (tag, t): (u32, u64) = match p {
        Pingstamp::Ping(t) => (0u32, *t),
        Pingstamp::Pong(t) => (1u32, *t),
    };
    let mut out = u32_to_le_bytes(tag);
    let mut rest = u64_to_le_bytes(t);
    out.append(&mut rest);
    out
}

/// Decodes a probe frame; returns `None` on a malformed one.
pub fn decode(b: &[u8]) -> (r: Option<Pingstamp>)
    ensures
        r == spec_decode(b@),
{
    if b.len() != FRAME_LEN {
        return None;
    }
    let tag_bytes = slice_subrange(b, 0, 4);
    let ts_bytes = slice_subrange(b, 4, 12);
    let tag = u32_from_le_bytes(tag_bytes);
    let t = u64_from_le_bytes(ts_bytes);
    if tag == 0 {
        Some(Pingstamp::Ping(t))
    } else if tag == 1 {
        Some(Pingstamp::Pong(t))
    } else {
        None
    }
}

} // verus!
