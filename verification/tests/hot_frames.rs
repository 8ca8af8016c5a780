use bytes::Bytes;
use wsprism::error::WsPrismError;
use wsprism::protocol::hot::{decode_hot_frame, encode_hot_frame, HotFrame};

fn decode(raw: &[u8]) -> Result<HotFrame, WsPrismError> {
    decode_hot_frame(Bytes::from(raw.to_vec()))
}

#[test]
fn hot_vectors() {
    // A move with a sequence number and an eight-byte payload.
    let frame = decode(&[1, 1, 1, 1, 7, 0, 0, 0, 1, 2, 3, 4, 5, 6, 7, 8]).expect("expected ok frame");
    assert_eq!(frame.v, 1);
    assert_eq!(frame.svc_id, 1);
    assert_eq!(frame.opcode, 1);
    assert_eq!(frame.flags, 1);
    assert_eq!(frame.seq, Some(7));
    assert_eq!(frame.payload.len(), 8);

    // An unsupported version.
    let e = decode(&[2, 1, 1, 0]).expect_err("expected error");
    assert_eq!(e.client_code().as_str(), "UNSUPPORTED_VERSION");

    // The sequence flag without its four bytes.
    let e = decode(&[1, 1, 1, 1, 7, 0]).expect_err("expected error");
    assert_eq!(e.client_code().as_str(), "BAD_REQUEST");

    // Fewer than four header bytes.
    let e = decode(&[1, 1, 1]).expect_err("expected error");
    assert_eq!(e.client_code().as_str(), "BAD_REQUEST");

    // A payload without a sequence number.
    let frame = decode(&[1, 9, 3, 0, b'o', b'k']).expect("expected ok frame");
    assert_eq!(frame.v, 1);
    assert_eq!(frame.svc_id, 9);
    assert_eq!(frame.opcode, 3);
    assert_eq!(frame.flags, 0);
    assert!(frame.seq.is_none());
    assert_eq!(frame.payload.len(), 2);
}

#[test]
fn hot_frame_with_sequence_and_payload() {
    let raw = [0x01, 0x01, 0x2A, 0x01, 0x04, 0x00, 0x00, 0x00, b'p', b'i', b'n', b'g'];
    let frame = decode(&raw).unwrap();
    assert_eq!(frame.svc_id, 1);
    assert_eq!(frame.opcode, 0x2A);
    assert_eq!(frame.flags, 0x01);
    assert_eq!(frame.seq, Some(4));
    assert_eq!(&frame.payload[..], b"ping");
}

#[test]
fn hot_sequence_is_little_endian() {
    let frame = decode(&[1, 0, 0, 1, 0xA1, 0xA0, 0x09, 0x08]).unwrap();
    assert_eq!(frame.seq, Some(0x0809A0A1));
    assert!(frame.payload.is_empty());
}

#[test]
fn hot_error_messages() {
    match decode(&[]) {
        Err(WsPrismError::BadRequest(m)) => assert_eq!(m, "hot frame too short"),
        other => panic!("unexpected: {:?}", other),
    }
    match decode(&[1, 2, 3, 0x81]) {
        Err(WsPrismError::BadRequest(m)) => assert_eq!(m, "seq flag set but missing u32"),
        other => panic!("unexpected: {:?}", other),
    }
    assert!(matches!(decode(&[0, 0, 0, 0]), Err(WsPrismError::UnsupportedVersion)));
}

#[test]
fn hot_version_is_checked_before_the_sequence() {
    assert!(matches!(decode(&[7, 0, 0, 1]), Err(WsPrismError::UnsupportedVersion)));
}

#[test]
fn hot_round_trip() {
    let frame = HotFrame {
        v: 1,
        svc_id: 200,
        opcode: 17,
        flags: 0x03,
        seq: Some(0xDEADBEEF),
        payload: Bytes::from(vec![9u8, 8, 7]),
    };
    let wire = encode_hot_frame(&frame).unwrap();
    assert_eq!(wire, vec![1, 200, 17, 3, 0xEF, 0xBE, 0xAD, 0xDE, 9, 8, 7]);
    let back = decode(&wire).unwrap();
    assert_eq!(back.v, 1);
    assert_eq!(back.svc_id, 200);
    assert_eq!(back.opcode, 17);
    assert_eq!(back.flags, 3);
    assert_eq!(back.seq, Some(0xDEADBEEF));
    assert_eq!(&back.payload[..], &[9u8, 8, 7]);

    let plain = HotFrame { v: 1, svc_id: 2, opcode: 3, flags: 0, seq: None, payload: Bytes::new() };
    let wire = encode_hot_frame(&plain).unwrap();
    assert_eq!(wire, vec![1, 2, 3, 0]);
    assert!(decode(&wire).unwrap().seq.is_none());
}

#[test]
fn hot_encode_refuses_ill_formed_frames() {
    let wrong_version =
        HotFrame { v: 2, svc_id: 0, opcode: 0, flags: 0, seq: None, payload: Bytes::new() };
    assert!(encode_hot_frame(&wrong_version).is_none());
    let flag_without_seq =
        HotFrame { v: 1, svc_id: 0, opcode: 0, flags: 1, seq: None, payload: Bytes::new() };
    assert!(encode_hot_frame(&flag_without_seq).is_none());
    let seq_without_flag =
        HotFrame { v: 1, svc_id: 0, opcode: 0, flags: 0, seq: Some(1), payload: Bytes::new() };
    assert!(encode_hot_frame(&seq_without_flag).is_none());
}
