use headsup_chat::codec::{decode, encode, Pingstamp, FRAME_LEN};

#[test]
fn ping_frame_bytes_are_tag_then_le_timestamp() {
    let frame = encode(&Pingstamp::Ping(5));
    assert_eq!(frame, vec![0, 0, 0, 0, 5, 0, 0, 0, 0, 0, 0, 0]);
    assert_eq!(frame.len(), FRAME_LEN);
}

#[test]
fn pong_frame_bytes_are_tag_then_le_timestamp() {
    let frame = encode(&Pingstamp::Pong(0x0102030405060708));
    assert_eq!(
        frame,
        vec![1, 0, 0, 0, 0x08, 0x07, 0x06, 0x05, 0x04, 0x03, 0x02, 0x01]
    );
}

#[test]
fn decode_inverts_encode() {
    for p in [
        Pingstamp::Ping(0),
        Pingstamp::Ping(u64::MAX),
        Pingstamp::Pong(0),
        Pingstamp::Pong(1_700_000_000_000_000),
    ] {
        assert_eq!(decode(&encode(&p)), Some(p));
    }
}

#[test]
fn short_and_long_frames_are_malformed() {
    assert_eq!(decode(&[]), None);
    assert_eq!(decode(&[0, 0, 0, 0]), None);
    assert_eq!(decode(&[0; 11]), None);
    assert_eq!(decode(&[0; 13]), None);
}

#[test]
fn unknown_tag_is_malformed() {
    let mut frame = encode(&Pingstamp::Ping(5));
    frame[0] = 2;
    assert_eq!(decode(&frame), None);
    let mut frame = encode(&Pingstamp::Ping(5));
    frame[3] = 1;
    assert_eq!(decode(&frame), None);
}

// The wire format matches what the bincode codec produces for the same
// shape of data: a u32 variant tag followed by a u64, both little-endian.
#[test]
fn frame_matches_bincode_encoding() {
    let t: u64 = 1_700_000_123_456_789;
    assert_eq!(
        encode(&Pingstamp::Ping(t)),
        bincode::serialize(&(0u32, t)).unwrap()
    );
    assert_eq!(
        encode(&Pingstamp::Pong(t)),
        bincode::serialize(&(1u32, t)).unwrap()
    );
}
