use civ_protocol::command::{
    Command, CMD_LEVEL, CMD_METER, CMD_READ_DUPLEX, CMD_READ_FREQ, CMD_READ_GPS, CMD_READ_ID,
    CMD_READ_MODE, CMD_READ_OFFSET, CMD_TONE, CMD_VARIOUS, LEVEL_AF, METER_S, TONE_SUB_DTCS,
    TONE_SUB_REPEATER, TONE_SUB_TSQL, VARIOUS_TONE_SQUELCH_FUNC,
};
use civ_protocol::protocol::{Frame, ADDR_CONTROLLER, ADDR_ID52, NG, OK};
use civ_protocol::response::{parse_response, RawGpsPosition, Response};
use civ_protocol::{Frequency, OperatingMode};

fn make_response_frame(command: u8, sub_command: Option<u8>, data: Vec<u8>) -> Frame {
    Frame {
        dst: ADDR_CONTROLLER,
        src: ADDR_ID52,
        command,
        sub_command,
        data,
    }
}

#[test]
fn test_parse_ok() {
    let frame = make_response_frame(OK, None, vec![]);
    let resp = parse_response(&frame, &Command::ReadFrequency).unwrap();
    assert_eq!(resp, Response::Okay);
}

#[test]
fn test_parse_ng() {
    let frame = make_response_frame(NG, None, vec![]);
    let resp = parse_response(&frame, &Command::ReadFrequency).unwrap();
    assert_eq!(resp, Response::Ng);
}

#[test]
fn test_parse_ok_any_command() {
    // The universal replies are intercepted whatever the command.
    let ok_frame = make_response_frame(OK, None, vec![]);
    let ng_frame = make_response_frame(NG, None, vec![]);
    for command in [
        Command::ReadMode,
        Command::SetMode(OperatingMode::Dv),
        Command::ReadTone(TONE_SUB_DTCS),
        Command::ReadGpsPosition,
    ] {
        assert_eq!(parse_response(&ok_frame, &command).unwrap(), Response::Okay);
        assert_eq!(parse_response(&ng_frame, &command).unwrap(), Response::Ng);
    }
}

#[test]
fn test_parse_frequency() {
    // 145.000.000 Hz: the sub-command slot holds the first BCD byte.
    let frame = make_response_frame(CMD_READ_FREQ, Some(0x00), vec![0x00, 0x00, 0x45, 0x01]);
    let resp = parse_response(&frame, &Command::ReadFrequency).unwrap();
    assert_eq!(
        resp,
        Response::Frequency(Frequency::from_hz(145_000_000).unwrap())
    );
}

#[test]
fn test_parse_mode_fm() {
    let frame = make_response_frame(CMD_READ_MODE, Some(0x05), vec![0x01]);
    let resp = parse_response(&frame, &Command::ReadMode).unwrap();
    assert_eq!(resp, Response::Mode(OperatingMode::Fm));
}

#[test]
fn test_parse_mode_from_wire() {
    // The literal reply frame FE FE E0 B4 04 05 01 FD decodes to Mode(Fm).
    let bytes = [0xFE, 0xFE, 0xE0, 0xB4, 0x04, 0x05, 0x01, 0xFD];
    let (frame, consumed) = Frame::parse(&bytes).unwrap().unwrap();
    assert_eq!(consumed, 8);
    let resp = parse_response(&frame, &Command::ReadMode).unwrap();
    assert_eq!(resp, Response::Mode(OperatingMode::Fm));
}

#[test]
fn test_parse_mode_dv() {
    let frame = make_response_frame(CMD_READ_MODE, Some(0x17), vec![0x01]);
    let resp = parse_response(&frame, &Command::ReadMode).unwrap();
    assert_eq!(resp, Response::Mode(OperatingMode::Dv));
}

#[test]
fn test_parse_level() {
    let frame = make_response_frame(CMD_LEVEL, Some(LEVEL_AF), vec![0x01, 0x28]);
    let resp = parse_response(&frame, &Command::ReadLevel(LEVEL_AF)).unwrap();
    assert_eq!(resp, Response::Level(LEVEL_AF, 128));
}

#[test]
fn test_parse_meter() {
    let frame = make_response_frame(CMD_METER, Some(METER_S), vec![0x00, 0x50]);
    let resp = parse_response(&frame, &Command::ReadMeter(METER_S)).unwrap();
    assert_eq!(resp, Response::Meter(METER_S, 50));
}

#[test]
fn test_parse_transceiver_id() {
    let frame = make_response_frame(CMD_READ_ID, Some(0xB4), vec![]);
    let resp = parse_response(&frame, &Command::ReadTransceiverId).unwrap();
    assert_eq!(resp, Response::TransceiverId(0xB4));
}

#[test]
fn test_parse_level_wrong_sub() {
    let frame = make_response_frame(CMD_LEVEL, Some(0x99), vec![0x01, 0x28]);
    let result = parse_response(&frame, &Command::ReadLevel(LEVEL_AF));
    assert!(result.is_err());
}

#[test]
fn test_parse_various_tone_squelch() {
    // Tone squelch function 0x01: tone on Tx only.
    let frame = make_response_frame(CMD_VARIOUS, Some(VARIOUS_TONE_SQUELCH_FUNC), vec![0x01]);
    let resp = parse_response(&frame, &Command::ReadVarious(VARIOUS_TONE_SQUELCH_FUNC)).unwrap();
    assert_eq!(resp, Response::Various(VARIOUS_TONE_SQUELCH_FUNC, 0x01));
}

#[test]
fn test_parse_duplex_simplex() {
    let frame = make_response_frame(CMD_READ_DUPLEX, Some(0x10), vec![]);
    let resp = parse_response(&frame, &Command::ReadDuplex).unwrap();
    assert_eq!(resp, Response::Duplex(0x10));
}

#[test]
fn test_parse_duplex_plus() {
    let frame = make_response_frame(CMD_READ_DUPLEX, Some(0x12), vec![]);
    let resp = parse_response(&frame, &Command::ReadDuplex).unwrap();
    assert_eq!(resp, Response::Duplex(0x12));
}

#[test]
fn test_parse_offset() {
    // 600 kHz: 6000 in 100 Hz units, little-endian BCD over the
    // sub-command slot and two data bytes.
    let frame = make_response_frame(CMD_READ_OFFSET, Some(0x00), vec![0x60, 0x00]);
    let resp = parse_response(&frame, &Command::ReadOffset).unwrap();
    assert_eq!(resp, Response::Offset(Frequency::from_hz(600_000).unwrap()));
}

#[test]
fn test_parse_offset_5mhz() {
    let frame = make_response_frame(CMD_READ_OFFSET, Some(0x00), vec![0x00, 0x05]);
    let resp = parse_response(&frame, &Command::ReadOffset).unwrap();
    assert_eq!(resp, Response::Offset(Frequency::from_hz(5_000_000).unwrap()));
}

#[test]
fn test_parse_tone_frequency_tx() {
    // 141.3 Hz: payload [0x00, 0x14, 0x13] reads as 1413 tenths of Hz.
    let frame = make_response_frame(CMD_TONE, Some(TONE_SUB_REPEATER), vec![0x00, 0x14, 0x13]);
    let resp = parse_response(&frame, &Command::ReadTone(TONE_SUB_REPEATER)).unwrap();
    assert_eq!(resp, Response::ToneFrequency(TONE_SUB_REPEATER, 1413));
}

#[test]
fn test_parse_tone_frequency_rx() {
    // 88.5 Hz.
    let frame = make_response_frame(CMD_TONE, Some(TONE_SUB_TSQL), vec![0x00, 0x08, 0x85]);
    let resp = parse_response(&frame, &Command::ReadTone(TONE_SUB_TSQL)).unwrap();
    assert_eq!(resp, Response::ToneFrequency(TONE_SUB_TSQL, 885));
}

#[test]
fn test_parse_dtcs_code() {
    // Code 023, normal polarity both ways.
    let frame = make_response_frame(CMD_TONE, Some(TONE_SUB_DTCS), vec![0x00, 0x00, 0x23]);
    let resp = parse_response(&frame, &Command::ReadTone(TONE_SUB_DTCS)).unwrap();
    assert_eq!(resp, Response::DtcsCode(0, 0, 23));
}

#[test]
fn test_parse_dtcs_code_reverse() {
    // Code 754, Tx reverse, Rx normal.
    let frame = make_response_frame(CMD_TONE, Some(TONE_SUB_DTCS), vec![0x10, 0x07, 0x54]);
    let resp = parse_response(&frame, &Command::ReadTone(TONE_SUB_DTCS)).unwrap();
    assert_eq!(resp, Response::DtcsCode(1, 0, 754));
}

#[test]
fn test_parse_frequency_bad_length() {
    let frame = make_response_frame(CMD_READ_FREQ, Some(0x00), vec![0x00, 0x00, 0x45]);
    assert!(parse_response(&frame, &Command::ReadFrequency).is_err());
}

#[test]
fn test_parse_gps_position() {
    // 40 deg 41.892 min N, 074 deg 02.536 min W, altitude 10.2 m, course
    // 125 degrees, speed 5.2 km/h, 2026-02-17 15:30:45 UTC.
    let data = vec![
        0x40, 0x41, 0x89, 0x20, 0x01, // latitude
        0x00, 0x74, 0x02, 0x53, 0x60, 0x00, // longitude
        0x00, 0x01, 0x02, 0x00, // altitude
        0x12, 0x50, // course
        0x00, 0x00, 0x52, // speed
        0x20, 0x26, 0x02, 0x17, 0x15, 0x30, 0x45, // date and time
    ];
    let frame = make_response_frame(CMD_READ_GPS, Some(0x00), data);
    let resp = parse_response(&frame, &Command::ReadGpsPosition).unwrap();
    assert_eq!(
        resp,
        Response::GpsPosition(RawGpsPosition {
            lat_deg: 40,
            lat_min: 41,
            lat_min_frac: 892,
            lat_north: true,
            lon_deg: 74,
            lon_min: 2,
            lon_min_frac: 536,
            lon_east: false,
            alt_tenths: 102,
            alt_negative: false,
            course: 125,
            speed_tenths: 52,
            utc_year: 2026,
            utc_month: 2,
            utc_day: 17,
            utc_hour: 15,
            utc_minute: 30,
            utc_second: 45,
        })
    );
}

#[test]
fn test_parse_gps_wrong_length() {
    let frame = make_response_frame(CMD_READ_GPS, Some(0x00), vec![0x40, 0x41]);
    assert!(parse_response(&frame, &Command::ReadGpsPosition).is_err());
}
