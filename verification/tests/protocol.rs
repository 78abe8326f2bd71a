use civ_protocol::protocol::{
    Frame, ADDR_CONTROLLER, ADDR_ID52, EOM, NG, OK, PREAMBLE,
};
use civ_protocol::CivError;

#[test]
fn test_ok_response_parse() {
    let bytes = [PREAMBLE, PREAMBLE, ADDR_CONTROLLER, ADDR_ID52, OK, EOM];
    let (frame, consumed) = Frame::parse(&bytes).unwrap().unwrap();
    assert_eq!(consumed, 6);
    assert!(frame.is_ok());
    assert_eq!(frame.dst, ADDR_CONTROLLER);
    assert_eq!(frame.src, ADDR_ID52);
    assert_eq!(frame.command, OK);
    assert_eq!(frame.sub_command, None);
    assert!(frame.data.is_empty());
}

#[test]
fn test_ng_response_parse() {
    let bytes = [PREAMBLE, PREAMBLE, ADDR_CONTROLLER, ADDR_ID52, NG, EOM];
    let (frame, consumed) = Frame::parse(&bytes).unwrap().unwrap();
    assert_eq!(consumed, 6);
    assert!(frame.is_ng());
}

#[test]
fn test_roundtrip_simple() {
    let frame = Frame::new(0x03, None, vec![]);
    let bytes = frame.to_bytes();
    let (parsed, consumed) = Frame::parse(&bytes).unwrap().unwrap();
    assert_eq!(consumed, bytes.len());
    assert_eq!(parsed.dst, frame.dst);
    assert_eq!(parsed.src, frame.src);
    assert_eq!(parsed.command, frame.command);
}

#[test]
fn test_roundtrip_with_sub_and_data() {
    let frame = Frame::new(0x14, Some(0x01), vec![0x01, 0x28]);
    let bytes = frame.to_bytes();
    let (parsed, _) = Frame::parse(&bytes).unwrap().unwrap();
    assert_eq!(parsed.command, 0x14);
    assert_eq!(parsed.sub_command, Some(0x01));
    assert_eq!(parsed.data, vec![0x01, 0x28]);
}

#[test]
fn test_roundtrip_full_frame() {
    // The whole decoded frame equals the encoded one, and the consumed
    // count is exactly the wire length.
    let frame = Frame::new(0x1B, Some(0x02), vec![0x10, 0x07, 0x54]);
    let bytes = frame.to_bytes();
    let (parsed, consumed) = Frame::parse(&bytes).unwrap().unwrap();
    assert_eq!(parsed, frame);
    assert_eq!(consumed, bytes.len());
}

#[test]
fn test_parse_frequency_response() {
    // A frequency reply: the first payload byte lands in the sub-command
    // slot, the rest become data.
    let bytes = [
        PREAMBLE,
        PREAMBLE,
        ADDR_CONTROLLER,
        ADDR_ID52,
        0x03,
        0x00,
        0x00,
        0x00,
        0x45,
        0x01,
        EOM,
    ];
    let (frame, _) = Frame::parse(&bytes).unwrap().unwrap();
    assert_eq!(frame.command, 0x03);
    assert_eq!(frame.sub_command, Some(0x00));
    assert_eq!(frame.data, vec![0x00, 0x00, 0x45, 0x01]);
}

#[test]
fn test_single_byte_payload_is_sub_command() {
    // A payload of exactly one byte always becomes the sub-command with no
    // data bytes, never a lone data byte.
    let bytes = [PREAMBLE, PREAMBLE, ADDR_CONTROLLER, ADDR_ID52, 0x19, 0xB4, EOM];
    let (frame, _) = Frame::parse(&bytes).unwrap().unwrap();
    assert_eq!(frame.sub_command, Some(0xB4));
    assert!(frame.data.is_empty());
}

#[test]
fn test_parse_no_complete_frame() {
    let bytes = [PREAMBLE, PREAMBLE, 0xB4, 0xE0, 0x03];
    assert!(Frame::parse(&bytes).unwrap().is_none());
}

#[test]
fn test_parse_empty_buffer() {
    let bytes: [u8; 0] = [];
    assert!(Frame::parse(&bytes).unwrap().is_none());
}

#[test]
fn test_parse_garbage_before_frame() {
    let bytes = [
        0x00, 0xFF, // garbage
        PREAMBLE, PREAMBLE, ADDR_CONTROLLER, ADDR_ID52, OK, EOM,
    ];
    let (frame, consumed) = Frame::parse(&bytes).unwrap().unwrap();
    // The consumed count runs from the preamble to the terminator, not
    // from the start of the buffer.
    assert_eq!(consumed, 6);
    assert!(frame.is_ok());
}

#[test]
fn test_parse_short_span_invalid() {
    // A terminator arriving before a full minimum frame is invalid.
    let bytes = [PREAMBLE, PREAMBLE, 0xB4, EOM];
    assert_eq!(Frame::parse(&bytes), Err(CivError::InvalidFrame));
}

#[test]
fn test_to_bytes_format() {
    let frame = Frame::new(0x03, None, vec![]);
    let bytes = frame.to_bytes();
    assert_eq!(bytes, vec![PREAMBLE, PREAMBLE, ADDR_ID52, ADDR_CONTROLLER, 0x03, EOM]);
}

#[test]
fn test_to_bytes_with_data() {
    let frame = Frame::new(0x05, None, vec![0x00, 0x00, 0x00, 0x50, 0x14]);
    let bytes = frame.to_bytes();
    assert_eq!(
        bytes,
        vec![PREAMBLE, PREAMBLE, ADDR_ID52, ADDR_CONTROLLER, 0x05, 0x00, 0x00, 0x00, 0x50, 0x14, EOM]
    );
}
