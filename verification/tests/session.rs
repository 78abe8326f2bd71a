use civ_protocol::command::Command;
use civ_protocol::radio::{find_response_frame, Radio, RadioConfig};
use civ_protocol::response::Response;
use civ_protocol::{CivError, Frequency, Transport};

/// A scripted transport: hands out one prepared chunk per read, then
/// empty chunks, and remembers everything written.
struct MockTransport {
    chunks: Vec<Vec<u8>>,
    pos: usize,
    written: Vec<u8>,
}

impl MockTransport {
    fn new(chunks: Vec<Vec<u8>>) -> Self {
        MockTransport {
            chunks,
            pos: 0,
            written: Vec::new(),
        }
    }
}

impl Transport for MockTransport {
    fn write_all(&mut self, buf: &[u8]) -> Result<(), CivError> {
        self.written.extend_from_slice(buf);
        Ok(())
    }

    fn flush(&mut self) -> Result<(), CivError> {
        Ok(())
    }

    fn read(&mut self) -> Result<Vec<u8>, CivError> {
        if self.pos < self.chunks.len() {
            let chunk = self.chunks[self.pos].clone();
            self.pos += 1;
            Ok(chunk)
        } else {
            Ok(Vec::new())
        }
    }

    fn set_read_timeout(&mut self, _ms: u64) -> Result<(), CivError> {
        Ok(())
    }
}

fn echo_read_frequency() -> Vec<u8> {
    // The transport's echo of this side's own request: addressed to the
    // radio, not to the controller.
    vec![0xFE, 0xFE, 0xB4, 0xE0, 0x03, 0xFD]
}

fn frequency_reply() -> Vec<u8> {
    // A 145.000.000 Hz reply addressed to the controller.
    vec![0xFE, 0xFE, 0xE0, 0xB4, 0x03, 0x00, 0x00, 0x00, 0x45, 0x01, 0xFD]
}

fn unsolicited_mode_notification() -> Vec<u8> {
    // A spontaneous mode report: addressed to the controller but carrying
    // a command byte nobody asked for.
    vec![0xFE, 0xFE, 0xE0, 0xB4, 0x04, 0x05, 0x01, 0xFD]
}

#[test]
fn test_send_command_skips_echo() {
    let transport = MockTransport::new(vec![echo_read_frequency(), frequency_reply()]);
    let mut radio = Radio::new(transport, RadioConfig::default());
    let resp = radio.send_command(&Command::ReadFrequency).unwrap();
    assert_eq!(
        resp,
        Response::Frequency(Frequency::from_hz(145_000_000).unwrap())
    );
    assert_eq!(radio.port.written, echo_read_frequency());
    assert_eq!(radio.tx_bytes(), 6);
    assert_eq!(radio.rx_bytes(), 17);
}

#[test]
fn test_reader_skips_echo_and_unsolicited() {
    // Two echoes and two unsolicited notifications precede the true
    // reply; the counters grow by exactly the bytes read across all of
    // them.
    let transport = MockTransport::new(vec![
        echo_read_frequency(),
        unsolicited_mode_notification(),
        echo_read_frequency(),
        unsolicited_mode_notification(),
        frequency_reply(),
    ]);
    let mut radio = Radio::new(transport, RadioConfig::default());
    let resp = radio.send_command(&Command::ReadFrequency).unwrap();
    assert_eq!(
        resp,
        Response::Frequency(Frequency::from_hz(145_000_000).unwrap())
    );
    assert_eq!(radio.tx_bytes(), 6);
    assert_eq!(radio.rx_bytes(), (6 + 8 + 6 + 8 + 11) as u64);
    assert!(radio.buf.is_empty());
}

#[test]
fn test_reply_split_across_reads() {
    // The reply arrives in three partial reads.
    let transport = MockTransport::new(vec![
        vec![0xFE, 0xFE, 0xE0],
        vec![0xB4, 0x03, 0x00, 0x00],
        vec![0x00, 0x45, 0x01, 0xFD],
    ]);
    let mut radio = Radio::new(transport, RadioConfig::default());
    let resp = radio.send_command(&Command::ReadFrequency).unwrap();
    assert_eq!(
        resp,
        Response::Frequency(Frequency::from_hz(145_000_000).unwrap())
    );
    assert_eq!(radio.rx_bytes(), 11);
}

#[test]
fn test_timeout_keeps_buffer_consistent() {
    // Only a partial frame ever arrives: the wait ends in Timeout, the
    // partial bytes stay buffered, and the next exchange picks them up.
    let transport = MockTransport::new(vec![vec![0xFE, 0xFE, 0xE0]]);
    let mut radio = Radio::new(transport, RadioConfig::default());
    let r = radio.send_command(&Command::ReadFrequency);
    assert_eq!(r, Err(CivError::Timeout));
    assert_eq!(radio.buf, vec![0xFE, 0xFE, 0xE0]);
    assert_eq!(radio.rx_bytes(), 3);
    assert_eq!(radio.tx_bytes(), 6);

    // The rest of the frame arrives during the next command.
    radio.port.chunks.push(vec![0xB4, 0x03, 0x00, 0x00, 0x00, 0x45, 0x01, 0xFD]);
    let resp = radio.send_command(&Command::ReadFrequency).unwrap();
    assert_eq!(
        resp,
        Response::Frequency(Frequency::from_hz(145_000_000).unwrap())
    );
    assert!(radio.buf.is_empty());
    assert_eq!(radio.rx_bytes(), 11);
}

#[test]
fn test_timeout_on_silence() {
    let transport = MockTransport::new(vec![]);
    let mut radio = Radio::new(transport, RadioConfig::default());
    assert_eq!(
        radio.send_command(&Command::ReadFrequency),
        Err(CivError::Timeout)
    );
}

#[test]
fn test_malformed_span_does_not_abort_wait() {
    // A corrupted byte run (preamble then an early terminator) precedes
    // the real reply; the reader drops it and still answers.
    let transport = MockTransport::new(vec![
        vec![0xFE, 0xFE, 0xB4, 0xFD],
        frequency_reply(),
    ]);
    let mut radio = Radio::new(transport, RadioConfig::default());
    let resp = radio.send_command(&Command::ReadFrequency).unwrap();
    assert_eq!(
        resp,
        Response::Frequency(Frequency::from_hz(145_000_000).unwrap())
    );
}

#[test]
fn test_ng_reply_is_reported() {
    let transport = MockTransport::new(vec![vec![0xFE, 0xFE, 0xE0, 0xB4, 0xFA, 0xFD]]);
    let mut radio = Radio::new(transport, RadioConfig::default());
    assert_eq!(
        radio.set_frequency(Frequency::from_hz(145_000_000).unwrap()),
        Err(CivError::Ng)
    );
}

#[test]
fn test_set_frequency_ok_reply() {
    let transport = MockTransport::new(vec![vec![0xFE, 0xFE, 0xE0, 0xB4, 0xFB, 0xFD]]);
    let mut radio = Radio::new(transport, RadioConfig::default());
    assert!(radio
        .set_frequency(Frequency::from_hz(145_000_000).unwrap())
        .is_ok());
}

#[test]
fn test_read_mode_convenience() {
    let transport = MockTransport::new(vec![vec![0xFE, 0xFE, 0xE0, 0xB4, 0x04, 0x05, 0x02, 0xFD]]);
    let mut radio = Radio::new(transport, RadioConfig::default());
    assert_eq!(
        radio.read_mode().unwrap(),
        civ_protocol::OperatingMode::FmN
    );
}

#[test]
fn test_find_response_frame_skips_echo() {
    let mut buf = echo_read_frequency();
    buf.extend_from_slice(&frequency_reply());
    let frame = find_response_frame(&buf, 0xE0).unwrap();
    assert_eq!(frame.dst, 0xE0);
    assert_eq!(frame.command, 0x03);
}

#[test]
fn test_find_response_frame_echo_only() {
    let buf = echo_read_frequency();
    assert!(find_response_frame(&buf, 0xE0).is_none());
}

#[test]
fn test_find_response_frame_noise_only() {
    // Wrong-rate noise without a well-formed frame to the controller
    // proves nothing.
    let buf = [0x13, 0x37, 0xFE, 0x00, 0xAB, 0xFD, 0x55];
    assert!(find_response_frame(&buf, 0xE0).is_none());
}

#[test]
fn test_echo_back_disabled_accepts_any_destination() {
    // With echo back off the reader skips the echo-classification step:
    // the first frame carrying the expected command byte answers, even
    // when addressed elsewhere.
    let transport = MockTransport::new(vec![vec![
        0xFE, 0xFE, 0x00, 0xB4, 0x03, 0x00, 0x00, 0x00, 0x45, 0x01, 0xFD,
    ]]);
    let mut config = RadioConfig::default();
    config.echo_back = false;
    let mut radio = Radio::new(transport, config);
    let resp = radio.send_command(&Command::ReadFrequency).unwrap();
    assert_eq!(
        resp,
        Response::Frequency(Frequency::from_hz(145_000_000).unwrap())
    );
}

#[test]
fn test_echo_back_enabled_skips_foreign_destination() {
    // The same frame with echo back on reads as an echo and is skipped,
    // so the wait ends in Timeout.
    let transport = MockTransport::new(vec![vec![
        0xFE, 0xFE, 0x00, 0xB4, 0x03, 0x00, 0x00, 0x00, 0x45, 0x01, 0xFD,
    ]]);
    let mut radio = Radio::new(transport, RadioConfig::default());
    assert_eq!(
        radio.send_command(&Command::ReadFrequency),
        Err(CivError::Timeout)
    );
}

#[test]
fn test_configured_addresses_are_used() {
    // The wire addresses come from the configuration, not from constants:
    // a session configured for other addresses writes them and accepts
    // replies addressed to its own controller address.
    let transport = MockTransport::new(vec![vec![
        0xFE, 0xFE, 0xE2, 0x94, 0x03, 0x00, 0x00, 0x00, 0x45, 0x01, 0xFD,
    ]]);
    let mut config = RadioConfig::default();
    config.radio_addr = 0x94;
    config.controller_addr = 0xE2;
    let mut radio = Radio::new(transport, config);
    let resp = radio.send_command(&Command::ReadFrequency).unwrap();
    assert_eq!(
        resp,
        Response::Frequency(Frequency::from_hz(145_000_000).unwrap())
    );
    assert_eq!(radio.port.written, vec![0xFE, 0xFE, 0x94, 0xE2, 0x03, 0xFD]);
}

/// A transport whose writes always fail with an arbitrary error kind.
struct FailingTransport;

impl Transport for FailingTransport {
    fn write_all(&mut self, _buf: &[u8]) -> Result<(), CivError> {
        Err(CivError::PortNotFound)
    }

    fn flush(&mut self) -> Result<(), CivError> {
        Ok(())
    }

    fn read(&mut self) -> Result<Vec<u8>, CivError> {
        Ok(Vec::new())
    }

    fn set_read_timeout(&mut self, _ms: u64) -> Result<(), CivError> {
        Ok(())
    }
}

#[test]
fn test_transport_failure_reported_as_io() {
    // Whatever error kind a transport implementation invents, the session
    // reports a transport failure as Io, so Ng and the codec error kinds
    // keep their meanings.
    let mut radio = Radio::new(FailingTransport, RadioConfig::default());
    assert_eq!(
        radio.send_command(&Command::ReadFrequency),
        Err(CivError::Io)
    );
    assert_eq!(radio.tx_bytes(), 0);
}

#[test]
fn test_poll_vfo_state_partial_failure() {
    // One scripted reply per field read, in polling order; the Rx tone
    // read is rejected, which leaves only that field unknown.
    let transport = MockTransport::new(vec![
        frequency_reply(),
        vec![0xFE, 0xFE, 0xE0, 0xB4, 0x04, 0x05, 0x01, 0xFD], // mode: FM
        vec![0xFE, 0xFE, 0xE0, 0xB4, 0x14, 0x0A, 0x02, 0x55, 0xFD], // RF power 255
        vec![0xFE, 0xFE, 0xE0, 0xB4, 0x16, 0x5D, 0x01, 0xFD], // tone function 1
        vec![0xFE, 0xFE, 0xE0, 0xB4, 0x0F, 0x11, 0xFD],       // duplex down
        vec![0xFE, 0xFE, 0xE0, 0xB4, 0x0C, 0x00, 0x60, 0x00, 0xFD], // offset 600 kHz
        vec![0xFE, 0xFE, 0xE0, 0xB4, 0x1B, 0x00, 0x00, 0x14, 0x13, 0xFD], // Tx tone 141.3 Hz
        vec![0xFE, 0xFE, 0xE0, 0xB4, 0xFA, 0xFD],             // Rx tone read rejected
        vec![0xFE, 0xFE, 0xE0, 0xB4, 0x1B, 0x02, 0x10, 0x07, 0x54, 0xFD], // DTCS 754, Tx reverse
    ]);
    let mut radio = Radio::new(transport, RadioConfig::default());
    let state = civ_protocol::radio::poll_vfo_state(&mut radio);
    assert_eq!(state.frequency, Some(Frequency::from_hz(145_000_000).unwrap()));
    assert_eq!(state.mode, Some(civ_protocol::OperatingMode::Fm));
    assert_eq!(state.rf_power, Some(255));
    assert_eq!(state.tone_mode, Some(0x01));
    assert_eq!(state.duplex, Some(0x11));
    assert_eq!(state.offset, Some(Frequency::from_hz(600_000).unwrap()));
    assert_eq!(state.tx_tone_freq, Some(1413));
    assert_eq!(state.rx_tone_freq, None);
    assert_eq!(state.dtcs_code, Some(754));
    assert_eq!(state.dtcs_tx_pol, Some(1));
    assert_eq!(state.dtcs_rx_pol, Some(0));
}

#[test]
fn test_configured_vfo_sub_commands() {
    // Another device family selects its bands with 0x00/0x01 instead of
    // 0xD0/0xD1; the session writes the configured values.
    let transport = MockTransport::new(vec![vec![0xFE, 0xFE, 0xE0, 0xB4, 0xFB, 0xFD]]);
    let mut config = RadioConfig::default();
    config.vfo_a_sub = 0x00;
    config.vfo_b_sub = 0x01;
    let mut radio = Radio::new(transport, config);
    assert!(radio.select_vfo_a().is_ok());
    assert_eq!(radio.port.written, vec![0xFE, 0xFE, 0xB4, 0xE0, 0x07, 0x00, 0xFD]);
}
