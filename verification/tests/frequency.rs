use civ_protocol::{CivError, Frequency};

#[test]
fn test_from_hz() {
    let freq = Frequency::from_hz(145_000_000).unwrap();
    assert_eq!(freq.hz(), 145_000_000);
}

#[test]
fn test_out_of_range() {
    assert!(Frequency::from_hz(10_000_000_000).is_err());
    assert_eq!(
        Frequency::from_hz(10_000_000_000),
        Err(CivError::FrequencyOutOfRange(10_000_000_000))
    );
}

#[test]
fn test_civ_roundtrip_uhf() {
    let freq = Frequency::from_hz(430_250_000).unwrap();
    let bytes = freq.to_civ_bytes().unwrap();
    assert_eq!(bytes, [0x00, 0x00, 0x25, 0x30, 0x04]);
    let decoded = Frequency::from_civ_bytes(bytes).unwrap();
    assert_eq!(freq, decoded);
}

#[test]
fn test_civ_roundtrip_max() {
    // The largest legal frequency survives the wire encoding.
    let freq = Frequency::from_hz(9_999_999_999).unwrap();
    let bytes = freq.to_civ_bytes().unwrap();
    assert_eq!(bytes, [0x99, 0x99, 0x99, 0x99, 0x99]);
    assert_eq!(Frequency::from_civ_bytes(bytes).unwrap(), freq);
}

#[test]
fn test_civ_roundtrip_zero() {
    let freq = Frequency::from_hz(0).unwrap();
    let bytes = freq.to_civ_bytes().unwrap();
    assert_eq!(bytes, [0x00, 0x00, 0x00, 0x00, 0x00]);
    assert_eq!(Frequency::from_civ_bytes(bytes).unwrap(), freq);
}

#[test]
fn test_from_civ_bytes_invalid() {
    assert_eq!(
        Frequency::from_civ_bytes([0x00, 0x0A, 0x00, 0x00, 0x00]),
        Err(CivError::InvalidBcd(0x0A))
    );
}

#[test]
fn frequency_test_display() {
    let freq = Frequency::from_hz(145_500_000).unwrap();
    assert_eq!(freq.display(), "145.500.000 MHz");
}

#[test]
fn test_display_with_hz() {
    let freq = Frequency::from_hz(145_012_500).unwrap();
    assert_eq!(freq.display(), "145.012.500 MHz");
}

#[test]
fn test_display_low() {
    let freq = Frequency::from_hz(7_074).unwrap();
    assert_eq!(freq.display(), "0.007.074 MHz");
}
