use civ_protocol::bcd::{
    decode_bcd_be, decode_bcd_byte, decode_bcd_le, encode_bcd_be, encode_bcd_byte, encode_bcd_le,
};
use civ_protocol::CivError;

#[test]
fn test_decode_bcd_byte() {
    assert_eq!(decode_bcd_byte(0x00).unwrap(), 0);
    assert_eq!(decode_bcd_byte(0x09).unwrap(), 9);
    assert_eq!(decode_bcd_byte(0x10).unwrap(), 10);
    assert_eq!(decode_bcd_byte(0x99).unwrap(), 99);
    assert_eq!(decode_bcd_byte(0x45).unwrap(), 45);
}

#[test]
fn test_decode_bcd_byte_invalid() {
    assert!(decode_bcd_byte(0xAF).is_err());
    assert!(decode_bcd_byte(0x0A).is_err());
    assert!(decode_bcd_byte(0xF0).is_err());
}

#[test]
fn test_decode_bcd_byte_error_value() {
    assert_eq!(decode_bcd_byte(0x0A), Err(CivError::InvalidBcd(0x0A)));
    assert_eq!(decode_bcd_byte(0xF0), Err(CivError::InvalidBcd(0xF0)));
}

#[test]
fn test_encode_bcd_byte() {
    assert_eq!(encode_bcd_byte(0).unwrap(), 0x00);
    assert_eq!(encode_bcd_byte(9).unwrap(), 0x09);
    assert_eq!(encode_bcd_byte(10).unwrap(), 0x10);
    assert_eq!(encode_bcd_byte(99).unwrap(), 0x99);
    assert_eq!(encode_bcd_byte(45).unwrap(), 0x45);
}

#[test]
fn test_encode_bcd_byte_invalid() {
    assert!(encode_bcd_byte(100).is_err());
    assert_eq!(encode_bcd_byte(100), Err(CivError::InvalidBcd(100)));
}

#[test]
fn test_decode_bcd_le_frequency() {
    // 145.000.000 Hz in 10-digit BCD, least-significant pair first.
    let bytes = [0x00, 0x00, 0x00, 0x45, 0x01];
    assert_eq!(decode_bcd_le(&bytes).unwrap(), 145_000_000);
}

#[test]
fn test_decode_bcd_le_uhf() {
    // 430.250.000 Hz.
    let bytes = [0x00, 0x00, 0x25, 0x30, 0x04];
    assert_eq!(decode_bcd_le(&bytes).unwrap(), 430_250_000);
}

#[test]
fn test_encode_bcd_le_frequency() {
    let bytes = encode_bcd_le(145_000_000, 5).unwrap();
    assert_eq!(bytes, vec![0x00, 0x00, 0x00, 0x45, 0x01]);
}

#[test]
fn test_encode_bcd_le_uhf() {
    let bytes = encode_bcd_le(430_250_000, 5).unwrap();
    assert_eq!(bytes, vec![0x00, 0x00, 0x25, 0x30, 0x04]);
}

#[test]
fn test_decode_bcd_be_level() {
    // Level 128, most-significant pair first.
    let bytes = [0x01, 0x28];
    assert_eq!(decode_bcd_be(&bytes).unwrap(), 128);
}

#[test]
fn test_encode_bcd_be_level() {
    let bytes = encode_bcd_be(128, 2).unwrap();
    assert_eq!(bytes, vec![0x01, 0x28]);
}

#[test]
fn test_decode_bcd_be_max_level() {
    let bytes = [0x02, 0x55];
    assert_eq!(decode_bcd_be(&bytes).unwrap(), 255);
}

#[test]
fn test_encode_bcd_be_max_level() {
    let bytes = encode_bcd_be(255, 2).unwrap();
    assert_eq!(bytes, vec![0x02, 0x55]);
}

#[test]
fn test_decode_bcd_le_invalid_reports_high_byte() {
    // Scanning runs from the most-significant pair down, so the invalid
    // byte of highest index is the one reported.
    let bytes = [0x0A, 0x00, 0x0B];
    assert_eq!(decode_bcd_le(&bytes), Err(CivError::InvalidBcd(0x0B)));
}

#[test]
fn test_decode_bcd_be_invalid_reports_low_byte() {
    // Scanning runs from the front, so the first invalid byte is reported.
    let bytes = [0x0A, 0x00, 0x0B];
    assert_eq!(decode_bcd_be(&bytes), Err(CivError::InvalidBcd(0x0A)));
}

#[test]
fn test_roundtrip_le() {
    for value in [0u64, 1, 100, 12345, 999_999_999_9] {
        let encoded = encode_bcd_le(value, 5).unwrap();
        let decoded = decode_bcd_le(&encoded).unwrap();
        assert_eq!(decoded, value, "roundtrip failed for {value}");
    }
}

#[test]
fn test_roundtrip_be() {
    for value in [0u64, 1, 50, 128, 255] {
        let encoded = encode_bcd_be(value, 2).unwrap();
        let decoded = decode_bcd_be(&encoded).unwrap();
        assert_eq!(decoded, value, "roundtrip failed for {value}");
    }
}

#[test]
fn test_bcd_byte_round_trip_all() {
    // Every byte with both nibbles at most 9 decodes and re-encodes to
    // itself; every other byte is rejected.
    for b in 0..=255u8 {
        let valid = (b >> 4) <= 9 && (b & 0x0F) <= 9;
        match decode_bcd_byte(b) {
            Ok(pair) => {
                assert!(valid, "byte {b:#04x} should have been rejected");
                assert_eq!(encode_bcd_byte(pair).unwrap(), b);
            }
            Err(e) => {
                assert!(!valid, "byte {b:#04x} should have decoded");
                assert_eq!(e, CivError::InvalidBcd(b));
            }
        }
    }
}
