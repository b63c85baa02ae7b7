use headsup_chat::codec::{encode, Pingstamp};
use headsup_chat::probe::{on_binary_frame, ping_frame_now, probe_clock, ProbeOutcome};
use headsup_chat::ui::round_trip_line;

#[test]
fn ping_is_answered_with_pong_carrying_same_timestamp() {
    let t: u64 = 123_456_789;
    let outcome = on_binary_frame(&encode(&Pingstamp::Ping(t)), 999);
    assert_eq!(outcome, ProbeOutcome::Reply(encode(&Pingstamp::Pong(t))));
}

#[test]
fn pong_round_trip_measures_now_minus_t() {
    let t: u64 = 1_000;
    let now: u64 = 4_500;
    // Feed a ping through, then feed the reply back in: exactly one pong,
    // and the measured elapsed time is now - t, nonnegative.
    let reply = match on_binary_frame(&encode(&Pingstamp::Ping(t)), now) {
        ProbeOutcome::Reply(frame) => frame,
        other => panic!("expected a reply, got {:?}", other),
    };
    let outcome = on_binary_frame(&reply, now);
    assert_eq!(outcome, ProbeOutcome::Measured(3_500));
    match outcome {
        ProbeOutcome::Measured(e) => assert!(e >= 0),
        other => panic!("expected a measurement, got {:?}", other),
    }
}

#[test]
fn pong_from_a_skewed_clock_measures_negative() {
    let outcome = on_binary_frame(&encode(&Pingstamp::Pong(10_000)), 4_000);
    assert_eq!(outcome, ProbeOutcome::Measured(-6_000));
}

#[test]
fn garbage_frame_is_malformed_and_recoverable() {
    let outcome = on_binary_frame(&[9, 9, 9], 0);
    assert_eq!(outcome, ProbeOutcome::Malformed);
}

#[test]
fn ping_frame_now_carries_the_clock() {
    // The stamped frame must decode as a ping whose timestamp is the
    // current clock, not some fixed or empty value.
    let before = probe_clock();
    let frame = ping_frame_now();
    let after = probe_clock();
    match headsup_chat::codec::decode(&frame) {
        Some(Pingstamp::Ping(t)) => {
            assert!(before <= t && t <= after);
        }
        other => panic!("expected a ping, got {:?}", other),
    }
}

#[test]
fn probe_clock_is_past_the_epoch() {
    // Microseconds since the Unix epoch: far past 2001 on any sane clock.
    assert!(probe_clock() > 1_000_000_000_000_000);
}

#[test]
fn round_trip_display_keeps_microseconds() {
    assert_eq!(round_trip_line(1_500_000), "    Round-trip: 1.500000s");
    assert_eq!(round_trip_line(42), "    Round-trip: 0.000042s");
    assert_eq!(round_trip_line(0), "    Round-trip: 0.000000s");
    assert_eq!(round_trip_line(987_654_321), "    Round-trip: 987.654321s");
    assert_eq!(round_trip_line(-5), "    Round-trip: 0.000000s");
}
