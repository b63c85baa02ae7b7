//! Latency probe: the ping/pong sub-protocol multiplexed onto every
//! connection beside the chat text.
//!
//! After any application-level send, one `Ping` stamped with the current
//! clock follows on the same connection. An inbound `Ping(t)` is answered
//! by exactly one `Pong(t)` on the same connection, never relayed; an
//! inbound `Pong(t)` yields the measured round trip `now - t` in
//! microseconds. A frame that does not decode is a recoverable protocol
//! error: the connection stays open.

use crate::codec::{encode, decode, lemma_decode_encode, spec_decode, spec_encode, Pingstamp};
use vstd::prelude::*;

verus! {

/// What the probe does with one inbound binary frame.
#[derive(Debug, PartialEq, Eq)]
pub enum ProbeOutcome {
    /// Send these bytes back on the same connection.
    Reply(Vec<u8>),
    /// A round trip measured: `now - t` in microseconds (negative only if
    /// the clock ran backwards between the ping and the pong).
    Measured(i128),
    /// The frame did not decode; report it and keep the connection.
    Malformed,
}

/// The reply owed for an inbound frame: a `Ping(t)` is answered with the
/// encoded `Pong(t)`, nothing else is answered.
pub open spec fn spec_probe_reply(bytes: Seq<u8>) -> Option<Seq<u8>> {
    match spec_decode(bytes) {
        Some(Pingstamp::Ping(t)) => Some(spec_encode(Pingstamp::Pong(t))),
        _ => None,
    }
}

/// The round trip measured from an inbound frame: a `Pong(t)` measures
/// `now - t`, nothing else measures.
pub open spec fn spec_probe_elapsed(bytes: Seq<u8>, now_us: u64) -> Option<int> {
    match spec_decode(bytes) {
        Some(Pingstamp::Pong(t)) => Some(now_us - t),
        _ => None,
    }
}

/// Handles one inbound binary frame, given the current clock in
/// microseconds since the Unix epoch.
pub fn on_binary_frame(bytes: &[u8], now_us: u64) -> (r: ProbeOutcome)
    ensures
        r is Reply <==> spec_probe_reply(bytes@) is Some,
        r is Reply ==> r->Reply_0@ == spec_probe_reply(bytes@)->Some_0,
        r is Measured <==> spec_probe_elapsed(bytes@, now_us) is Some,
        r is Measured ==> r->Measured_0 == spec_probe_elapsed(bytes@, now_us)->Some_0,
        r is Malformed <==> spec_decode(bytes@) is None,
{
    match decode(bytes) {
        Some(Pingstamp::Ping(t)) => ProbeOutcome::Reply(encode(&Pingstamp::Pong(t))),
        Some(Pingstamp::Pong(t)) => ProbeOutcome::Measured((now_us as i128) - (t as i128)),
        None => ProbeOutcome::Malformed,
    }
}

/// Feeding the frame produced for `Ping(t)` back into the probe yields
/// exactly one `Pong` reply carrying the same `t`, and feeding that reply
/// back yields the measurement `now - t`, nonnegative whenever the clock
/// did not run backwards since `t`.
pub proof fn lemma_probe_round_trip(t: u64, now_us: u64)
    ensures
        spec_probe_reply(spec_encode(Pingstamp::Ping(t))) == Some(
            spec_encode(Pingstamp::Pong(t)),
        ),
        spec_probe_elapsed(spec_encode(Pingstamp::Pong(t)), now_us) == Some(
            (now_us - t) as int,
        ),
        t <= now_us ==> spec_probe_elapsed(spec_encode(Pingstamp::Pong(t)), now_us)->Some_0
            >= 0,
{
    lemma_decode_encode(Pingstamp::Ping(t));
    lemma_decode_encode(Pingstamp::Pong(t));
}

/// Relies on chrono's `Utc::now` and `DateTime::timestamp_micros` for the
/// wall clock, read as microseconds since the Unix epoch. Nothing is
/// assumed of the value; `Utc::now` itself panics only on a system clock
/// before the epoch.
#[verifier::external_body]
fn now_micros() -> i64 {
    chrono::Utc::now().timestamp_micros()
}

/// The current clock as the probe stamps it: microseconds since the Unix
/// epoch, clamped to zero on a clock before the epoch.
pub fn probe_clock() -> (r: u64) {
    let now = now_micros();
    if now < 0 {
        0
    } else {
        now as u64
    }
}

/// The probe frame owed right after an application-level send: one `Ping`
/// stamped with the current clock.
pub fn ping_frame_now() -> (r: Vec<u8>)
    ensures
        exists|t: u64| r@ == spec_encode(Pingstamp::Ping(t)),
        spec_decode(r@) matches Some(p) && p is Ping,
{
    let t = probe_clock();
    let frame = encode(&Pingstamp::Ping(t));
    proof {
        lemma_decode_encode(Pingstamp::Ping(t));
        assert(frame@ == spec_encode(Pingstamp::Ping(t)));
    }
    frame
}

} // verus!
