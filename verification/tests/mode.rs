use civ_protocol::{CivError, OperatingMode};

#[test]
fn test_fm_roundtrip() {
    let mode = OperatingMode::Fm;
    let (m, f) = mode.to_civ_bytes();
    assert_eq!(OperatingMode::from_civ_bytes(m, f).unwrap(), mode);
}

#[test]
fn test_fm_narrow_roundtrip() {
    let mode = OperatingMode::FmN;
    let (m, f) = mode.to_civ_bytes();
    assert_eq!(OperatingMode::from_civ_bytes(m, f).unwrap(), mode);
}

#[test]
fn test_am_roundtrip() {
    let mode = OperatingMode::Am;
    let (m, f) = mode.to_civ_bytes();
    assert_eq!(OperatingMode::from_civ_bytes(m, f).unwrap(), mode);
}

#[test]
fn test_am_narrow_roundtrip() {
    let mode = OperatingMode::AmN;
    let (m, f) = mode.to_civ_bytes();
    assert_eq!(OperatingMode::from_civ_bytes(m, f).unwrap(), mode);
}

#[test]
fn test_dv_roundtrip() {
    let mode = OperatingMode::Dv;
    let (m, f) = mode.to_civ_bytes();
    assert_eq!(OperatingMode::from_civ_bytes(m, f).unwrap(), mode);
}

#[test]
fn test_dv_wildcard_filter() {
    // The digital-voice mode byte decodes under any filter byte.
    assert_eq!(
        OperatingMode::from_civ_bytes(0x17, 0xFF).unwrap(),
        OperatingMode::Dv
    );
}

#[test]
fn test_unknown_mode() {
    assert!(OperatingMode::from_civ_bytes(0xFF, 0x01).is_err());
    assert_eq!(
        OperatingMode::from_civ_bytes(0xFF, 0x01),
        Err(CivError::UnknownMode(0xFF))
    );
    // A defined mode byte with an undefined filter byte also fails.
    assert_eq!(
        OperatingMode::from_civ_bytes(0x05, 0x03),
        Err(CivError::UnknownMode(0x05))
    );
}

#[test]
fn test_civ_byte_values() {
    assert_eq!(OperatingMode::Fm.to_civ_bytes(), (0x05, 0x01));
    assert_eq!(OperatingMode::FmN.to_civ_bytes(), (0x05, 0x02));
    assert_eq!(OperatingMode::Am.to_civ_bytes(), (0x02, 0x01));
    assert_eq!(OperatingMode::AmN.to_civ_bytes(), (0x02, 0x02));
    assert_eq!(OperatingMode::Dv.to_civ_bytes(), (0x17, 0x01));
}

#[test]
fn test_toggle_width() {
    assert_eq!(OperatingMode::Fm.toggle_width(), OperatingMode::FmN);
    assert_eq!(OperatingMode::FmN.toggle_width(), OperatingMode::Fm);
    assert_eq!(OperatingMode::Am.toggle_width(), OperatingMode::AmN);
    assert_eq!(OperatingMode::AmN.toggle_width(), OperatingMode::Am);
    assert_eq!(OperatingMode::Dv.toggle_width(), OperatingMode::Dv);
}

#[test]
fn test_is_narrow() {
    assert!(!OperatingMode::Fm.is_narrow());
    assert!(OperatingMode::FmN.is_narrow());
    assert!(!OperatingMode::Am.is_narrow());
    assert!(OperatingMode::AmN.is_narrow());
    assert!(!OperatingMode::Dv.is_narrow());
}

#[test]
fn mode_test_display() {
    assert_eq!(OperatingMode::Fm.label(), "FM");
    assert_eq!(OperatingMode::FmN.label(), "FM-N");
    assert_eq!(OperatingMode::Am.label(), "AM");
    assert_eq!(OperatingMode::AmN.label(), "AM-N");
    assert_eq!(OperatingMode::Dv.label(), "DV");
}
