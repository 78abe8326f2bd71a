use civ_protocol::command::{Command, LEVEL_AF, METER_S};
use civ_protocol::{Frequency, OperatingMode};

#[test]
fn test_read_frequency_frame() {
    let frame = Command::ReadFrequency.to_frame().unwrap();
    let bytes = frame.to_bytes();
    assert_eq!(bytes, vec![0xFE, 0xFE, 0xB4, 0xE0, 0x03, 0xFD]);
}

#[test]
fn test_set_frequency_frame() {
    let freq = Frequency::from_hz(145_000_000).unwrap();
    let frame = Command::SetFrequency(freq).to_frame().unwrap();
    let bytes = frame.to_bytes();
    assert_eq!(
        bytes,
        vec![0xFE, 0xFE, 0xB4, 0xE0, 0x05, 0x00, 0x00, 0x00, 0x45, 0x01, 0xFD]
    );
}

#[test]
fn test_read_mode_frame() {
    let frame = Command::ReadMode.to_frame().unwrap();
    let bytes = frame.to_bytes();
    assert_eq!(bytes, vec![0xFE, 0xFE, 0xB4, 0xE0, 0x04, 0xFD]);
}

#[test]
fn test_set_mode_fm_frame() {
    let frame = Command::SetMode(OperatingMode::Fm).to_frame().unwrap();
    let bytes = frame.to_bytes();
    assert_eq!(bytes, vec![0xFE, 0xFE, 0xB4, 0xE0, 0x06, 0x05, 0x01, 0xFD]);
}

#[test]
fn test_vfo_select_a() {
    let frame = Command::SelectVfoA.to_frame().unwrap();
    let bytes = frame.to_bytes();
    assert_eq!(bytes, vec![0xFE, 0xFE, 0xB4, 0xE0, 0x07, 0xD0, 0xFD]);
}

#[test]
fn test_read_af_level() {
    let frame = Command::ReadLevel(LEVEL_AF).to_frame().unwrap();
    let bytes = frame.to_bytes();
    assert_eq!(bytes, vec![0xFE, 0xFE, 0xB4, 0xE0, 0x14, 0x01, 0xFD]);
}

#[test]
fn test_set_af_level() {
    let frame = Command::SetLevel(LEVEL_AF, 128).to_frame().unwrap();
    let bytes = frame.to_bytes();
    assert_eq!(bytes, vec![0xFE, 0xFE, 0xB4, 0xE0, 0x14, 0x01, 0x01, 0x28, 0xFD]);
}

#[test]
fn test_read_s_meter() {
    let frame = Command::ReadMeter(METER_S).to_frame().unwrap();
    let bytes = frame.to_bytes();
    assert_eq!(bytes, vec![0xFE, 0xFE, 0xB4, 0xE0, 0x15, 0x02, 0xFD]);
}

#[test]
fn test_power_on() {
    let frame = Command::PowerOn.to_frame().unwrap();
    let bytes = frame.to_bytes();
    assert_eq!(bytes, vec![0xFE, 0xFE, 0xB4, 0xE0, 0x18, 0x01, 0xFD]);
}

#[test]
fn test_read_transceiver_id() {
    let frame = Command::ReadTransceiverId.to_frame().unwrap();
    let bytes = frame.to_bytes();
    assert_eq!(bytes, vec![0xFE, 0xFE, 0xB4, 0xE0, 0x19, 0x00, 0xFD]);
}

#[test]
fn test_command_byte() {
    assert_eq!(Command::ReadFrequency.command_byte(), 0x03);
    assert_eq!(Command::ReadMode.command_byte(), 0x04);
    assert_eq!(
        Command::SetFrequency(Frequency::from_hz(0).unwrap()).command_byte(),
        0x05
    );
    assert_eq!(Command::SetMode(OperatingMode::Fm).command_byte(), 0x06);
}

#[test]
fn test_set_offset_frame() {
    // 600 kHz offset: 6000 in 100 Hz units, 3 bytes little-endian BCD.
    let frame = Command::SetOffset(600_000).to_frame().unwrap();
    let bytes = frame.to_bytes();
    assert_eq!(bytes, vec![0xFE, 0xFE, 0xB4, 0xE0, 0x0D, 0x00, 0x60, 0x00, 0xFD]);
}

#[test]
fn test_set_tone_frame() {
    // 141.3 Hz: 1413 tenths encodes as a zero byte then two BCD pairs.
    let frame = Command::SetTone(0x00, 1413).to_frame().unwrap();
    let bytes = frame.to_bytes();
    assert_eq!(bytes, vec![0xFE, 0xFE, 0xB4, 0xE0, 0x1B, 0x00, 0x00, 0x14, 0x13, 0xFD]);
}

#[test]
fn test_set_dtcs_frame() {
    // Code 754, Tx reverse, Rx normal.
    let frame = Command::SetDtcs(1, 0, 754).to_frame().unwrap();
    let bytes = frame.to_bytes();
    assert_eq!(bytes, vec![0xFE, 0xFE, 0xB4, 0xE0, 0x1B, 0x02, 0x10, 0x07, 0x54, 0xFD]);
}

#[test]
fn test_sub_command_byte() {
    assert_eq!(Command::ReadFrequency.sub_command_byte(), None);
    assert_eq!(Command::SelectVfoA.sub_command_byte(), Some(0xD0));
    assert_eq!(Command::SelectVfoB.sub_command_byte(), Some(0xD1));
    assert_eq!(Command::PowerOff.sub_command_byte(), Some(0x00));
    assert_eq!(Command::ReadTone(0x02).sub_command_byte(), Some(0x02));
    assert_eq!(Command::ReadDuplex.sub_command_byte(), None);
}
