//! The typed response model: decoding a reply frame under the originating
//! command's context.
//!
//! Several commands share a command byte, and several payload shapes are
//! only distinguishable by knowing which field was requested, so decoding
//! takes the original command as disambiguation context.

use vstd::prelude::*;

use crate::bcd;
use crate::command::{
    Command, CMD_READ_FREQ, CMD_SET_FREQ, TONE_SUB_DTCS, TONE_SUB_REPEATER, TONE_SUB_TSQL,
};
use crate::error::CivError;
use crate::frequency::Frequency;
use crate::mode::{mode_from_bytes, OperatingMode};
use crate::protocol::{opt_byte_seq, Frame, FrameView, NG, OK};

verus! {

/// Raw GPS position data decoded from BCD nibbles, all fields integral.
///
/// Latitude and longitude are stored in degree + minutes + thousandths-of-
/// minute parts; altitude and speed in tenths; date and time as plain
/// fields.
#[derive(Debug, Clone, PartialEq, Eq, Structural)]
pub struct RawGpsPosition {
    /// Latitude degrees (0-90).
    pub lat_deg: u8,
    /// Latitude minutes integer part (0-59).
    pub lat_min: u8,
    /// Latitude minutes fractional part in thousandths (0-999).
    pub lat_min_frac: u16,
    /// True for north, false for south.
    pub lat_north: bool,
    /// Longitude degrees (0-180).
    pub lon_deg: u16,
    /// Longitude minutes integer part (0-59).
    pub lon_min: u8,
    /// Longitude minutes fractional part in thousandths (0-999).
    pub lon_min_frac: u16,
    /// True for east, false for west.
    pub lon_east: bool,
    /// Altitude in tenths of a meter, before the sign.
    pub alt_tenths: u32,
    /// True for an altitude below sea level.
    pub alt_negative: bool,
    /// Course in degrees (0-359).
    pub course: u16,
    /// Speed in tenths of km/h.
    pub speed_tenths: u32,
    /// UTC year.
    pub utc_year: u16,
    /// UTC month (1-12).
    pub utc_month: u8,
    /// UTC day (1-31).
    pub utc_day: u8,
    /// UTC hour (0-23).
    pub utc_hour: u8,
    /// UTC minute (0-59).
    pub utc_minute: u8,
    /// UTC second (0-59).
    pub utc_second: u8,
}

/// A typed reply from the radio.
#[derive(Debug, Clone, PartialEq, Eq, Structural)]
pub enum Response {
    /// Command accepted (the universal OK reply).
    Okay,
    /// Command rejected (the universal NG reply).
    Ng,
    /// Frequency data.
    Frequency(Frequency),
    /// Operating mode and filter.
    Mode(OperatingMode),
    /// Level value: (sub-command, value).
    Level(u8, u16),
    /// Meter reading: (sub-command, value).
    Meter(u8, u16),
    /// Transceiver ID.
    TransceiverId(u8),
    /// Various function setting: (sub-command, raw value). The value is a
    /// single raw byte, not BCD-decoded.
    Various(u8, u8),
    /// Duplex direction (0x10 simplex, 0x11 down, 0x12 up); the value
    /// travels in the sub-command byte itself.
    Duplex(u8),
    /// Duplex offset frequency.
    Offset(Frequency),
    /// Tone frequency: (sub-command, tenths of Hz).
    ToneFrequency(u8, u16),
    /// DTCS code and polarity: (tx polarity, rx polarity, code).
    DtcsCode(u8, u8, u16),
    /// GPS position data.
    GpsPosition(RawGpsPosition),
}

/// The high nibble of a byte.
pub open spec fn nib_hi(b: u8) -> u8 {
    (b >> 4) & 0x0F
}

/// The low nibble of a byte.
pub open spec fn nib_lo(b: u8) -> u8 {
    b & 0x0F
}

/// Decode of a frequency reply: the whole payload (sub-command byte first)
/// must be exactly 5 little-endian BCD bytes of Hz.
pub open spec fn parse_frequency_spec(f: FrameView) -> Result<Response, CivError> {
    let bytes = opt_byte_seq(f.sub_command) + f.data;
    if bytes.len() != 5 {
        Err(CivError::InvalidFrame)
    } else if !bcd::bcd_seq_valid(bytes) {
        Err(CivError::InvalidBcd(bcd::bcd_le_err_byte(bytes)))
    } else {
        Ok(Response::Frequency(Frequency(bcd::bcd_le_val(bytes) as u64)))
    }
}

/// Decode of a mode reply: the mode byte rides in the sub-command slot and
/// the filter byte is the first data byte.
pub open spec fn parse_mode_spec(f: FrameView) -> Result<Response, CivError> {
    match f.sub_command {
        Option::None => Err(CivError::InvalidFrame),
        Option::Some(mode_byte) => if f.data.len() == 0 {
            Err(CivError::InvalidFrame)
        } else {
            match mode_from_bytes(mode_byte, f.data[0]) {
                Ok(m) => Ok(Response::Mode(m)),
                Err(e) => Err(e),
            }
        },
    }
}

/// Decode of a level reply: the expected sub-command, then exactly 2 bytes
/// of big-endian BCD.
pub open spec fn parse_level_spec(f: FrameView, expected_sub: u8) -> Result<Response, CivError> {
    match f.sub_command {
        Option::None => Err(CivError::InvalidFrame),
        Option::Some(sub) => if sub != expected_sub {
            Err(CivError::InvalidFrame)
        } else if f.data.len() != 2 {
            Err(CivError::InvalidFrame)
        } else if !bcd::bcd_seq_valid(f.data) {
            Err(CivError::InvalidBcd(bcd::bcd_be_err_byte(f.data)))
        } else {
            Ok(Response::Level(sub, bcd::bcd_be_val(f.data) as u16))
        },
    }
}

/// Decode of a meter reply: same shape as a level reply.
pub open spec fn parse_meter_spec(f: FrameView, expected_sub: u8) -> Result<Response, CivError> {
    match f.sub_command {
        Option::None => Err(CivError::InvalidFrame),
        Option::Some(sub) => if sub != expected_sub {
            Err(CivError::InvalidFrame)
        } else if f.data.len() != 2 {
            Err(CivError::InvalidFrame)
        } else if !bcd::bcd_seq_valid(f.data) {
            Err(CivError::InvalidBcd(bcd::bcd_be_err_byte(f.data)))
        } else {
            Ok(Response::Meter(sub, bcd::bcd_be_val(f.data) as u16))
        },
    }
}

/// Decode of a transceiver-ID reply: the ID rides in the sub-command slot.
pub open spec fn parse_transceiver_id_spec(f: FrameView) -> Result<Response, CivError> {
    match f.sub_command {
        Option::None => Err(CivError::InvalidFrame),
        Option::Some(id) => Ok(Response::TransceiverId(id)),
    }
}

/// Decode of a various-function reply: the expected sub-command, then one
/// raw byte, explicitly not BCD-decoded.
pub open spec fn parse_various_spec(f: FrameView, expected_sub: u8) -> Result<Response, CivError> {
    match f.sub_command {
        Option::None => Err(CivError::InvalidFrame),
        Option::Some(sub) => if sub != expected_sub {
            Err(CivError::InvalidFrame)
        } else if f.data.len() == 0 {
            Err(CivError::InvalidFrame)
        } else {
            Ok(Response::Various(sub, f.data[0]))
        },
    }
}

/// Decode of a duplex reply: the whole value rides in the sub-command
/// byte, with no data bytes.
pub open spec fn parse_duplex_spec(f: FrameView) -> Result<Response, CivError> {
    match f.sub_command {
        Option::None => Err(CivError::InvalidFrame),
        Option::Some(duplex) => Ok(Response::Duplex(duplex)),
    }
}

/// Decode of an offset reply: the whole payload must be exactly 3
/// little-endian BCD bytes in 100 Hz units.
pub open spec fn parse_offset_spec(f: FrameView) -> Result<Response, CivError> {
    let bytes = opt_byte_seq(f.sub_command) + f.data;
    if bytes.len() != 3 {
        Err(CivError::InvalidFrame)
    } else if !bcd::bcd_seq_valid(bytes) {
        Err(CivError::InvalidBcd(bcd::bcd_le_err_byte(bytes)))
    } else {
        Ok(Response::Offset(Frequency((bcd::bcd_le_val(bytes) * 100) as u64)))
    }
}

/// Decode of a tone/DTCS reply: the expected sub-command, then exactly 3
/// data bytes, read as a tone frequency pair or as polarity nibbles plus a
/// 3-digit code depending on the sub-command.
pub open spec fn parse_tone_spec(f: FrameView, expected_sub: u8) -> Result<Response, CivError> {
    match f.sub_command {
        Option::None => Err(CivError::InvalidFrame),
        Option::Some(sub) => if sub != expected_sub {
            Err(CivError::InvalidFrame)
        } else if f.data.len() != 3 {
            Err(CivError::InvalidFrame)
        } else if sub == TONE_SUB_REPEATER || sub == TONE_SUB_TSQL {
            if !bcd::bcd_byte_valid(f.data[1]) {
                Err(CivError::InvalidBcd(f.data[1]))
            } else if !bcd::bcd_byte_valid(f.data[2]) {
                Err(CivError::InvalidBcd(f.data[2]))
            } else {
                Ok(
                    Response::ToneFrequency(
                        sub,
                        (bcd::bcd_pair(f.data[1]) * 100 + bcd::bcd_pair(f.data[2])) as u16,
                    ),
                )
            }
        } else if sub == TONE_SUB_DTCS {
            if !bcd::bcd_byte_valid(f.data[1]) {
                Err(CivError::InvalidBcd(f.data[1]))
            } else if !bcd::bcd_byte_valid(f.data[2]) {
                Err(CivError::InvalidBcd(f.data[2]))
            } else {
                Ok(
                    Response::DtcsCode(
                        nib_hi(f.data[0]),
                        nib_lo(f.data[0]),
                        (bcd::bcd_pair(f.data[1]) * 100 + bcd::bcd_pair(f.data[2])) as u16,
                    ),
                )
            }
        } else {
            Err(CivError::InvalidFrame)
        },
    }
}

/// The GPS position held in a 27-byte payload; every field position and
/// nibble role is fixed by the device's documented layout. Nibbles are
/// taken as digits without validation.
pub open spec fn gps_of(d: Seq<u8>) -> RawGpsPosition {
    RawGpsPosition {
        lat_deg: (nib_hi(d[0]) * 10 + nib_lo(d[0])) as u8,
        lat_min: (nib_hi(d[1]) * 10 + nib_lo(d[1])) as u8,
        lat_min_frac: (nib_hi(d[2]) * 100 + nib_lo(d[2]) * 10 + nib_hi(d[3])) as u16,
        lat_north: nib_lo(d[4]) == 1,
        lon_deg: (nib_lo(d[5]) * 100 + nib_hi(d[6]) * 10 + nib_lo(d[6])) as u16,
        lon_min: (nib_hi(d[7]) * 10 + nib_lo(d[7])) as u8,
        lon_min_frac: (nib_hi(d[8]) * 100 + nib_lo(d[8]) * 10 + nib_hi(d[9])) as u16,
        lon_east: nib_lo(d[10]) == 1,
        alt_tenths: (nib_hi(d[11]) * 100_000 + nib_lo(d[11]) * 10_000 + nib_hi(d[12]) * 1_000
            + nib_lo(d[12]) * 100 + nib_hi(d[13]) * 10 + nib_lo(d[13])) as u32,
        alt_negative: nib_lo(d[14]) == 1,
        course: (nib_hi(d[15]) * 100 + nib_lo(d[15]) * 10 + nib_hi(d[16])) as u16,
        speed_tenths: (nib_hi(d[17]) * 100_000 + nib_lo(d[17]) * 10_000 + nib_hi(d[18]) * 1_000
            + nib_lo(d[18]) * 100 + nib_hi(d[19]) * 10 + nib_lo(d[19])) as u32,
        utc_year: (nib_hi(d[20]) * 1000 + nib_lo(d[20]) * 100 + nib_hi(d[21]) * 10 + nib_lo(
            d[21],
        )) as u16,
        utc_month: (nib_hi(d[22]) * 10 + nib_lo(d[22])) as u8,
        utc_day: (nib_hi(d[23]) * 10 + nib_lo(d[23])) as u8,
        utc_hour: (nib_hi(d[24]) * 10 + nib_lo(d[24])) as u8,
        utc_minute: (nib_hi(d[25]) * 10 + nib_lo(d[25])) as u8,
        utc_second: (nib_hi(d[26]) * 10 + nib_lo(d[26])) as u8,
    }
}

/// Decode of a GPS reply: sub-command zero and exactly 27 data bytes.
pub open spec fn parse_gps_spec(f: FrameView) -> Result<Response, CivError> {
    match f.sub_command {
        Option::None => Err(CivError::InvalidFrame),
        Option::Some(sub) => if sub != 0x00 {
            Err(CivError::InvalidFrame)
        } else if f.data.len() != 27 {
            Err(CivError::InvalidFrame)
        } else {
            Ok(Response::GpsPosition(gps_of(f.data)))
        },
    }
}

/// The full decode of a reply frame under its originating command: the two
/// universal replies are intercepted first, whatever the command; then the
/// command picks the decoder.
pub open spec fn parse_response_spec(f: FrameView, c: Command) -> Result<Response, CivError> {
    if f.command == OK {
        Ok(Response::Okay)
    } else if f.command == NG {
        Ok(Response::Ng)
    } else {
        match c {
            Command::ReadFrequency => parse_frequency_spec(f),
            Command::SetFrequency(_) => if f.command == CMD_SET_FREQ || f.command
                == CMD_READ_FREQ {
                parse_frequency_spec(f)
            } else {
                Err(CivError::InvalidFrame)
            },
            Command::ReadMode => parse_mode_spec(f),
            Command::SetMode(_) => Ok(Response::Okay),
            Command::SelectVfoA | Command::SelectVfoB => Ok(Response::Okay),
            Command::ReadLevel(sub) => parse_level_spec(f, sub),
            Command::SetLevel(_, _) => Ok(Response::Okay),
            Command::ReadMeter(sub) => parse_meter_spec(f, sub),
            Command::PowerOn | Command::PowerOff => Ok(Response::Okay),
            Command::ReadTransceiverId => parse_transceiver_id_spec(f),
            Command::ReadVarious(sub) => parse_various_spec(f, sub),
            Command::ReadDuplex => parse_duplex_spec(f),
            Command::ReadOffset => parse_offset_spec(f),
            Command::ReadTone(sub) => parse_tone_spec(f, sub),
            Command::SetDuplex(_) => Ok(Response::Okay),
            Command::SetOffset(_) => Ok(Response::Okay),
            Command::SetVarious(_, _) => Ok(Response::Okay),
            Command::SetTone(_, _) => Ok(Response::Okay),
            Command::SetDtcs(_, _, _) => Ok(Response::Okay),
            Command::ReadGpsPosition => parse_gps_spec(f),
        }
    }
}

/// The only errors a reply decode can yield: a malformed frame, an invalid
/// BCD byte, or an unknown mode byte. In particular it never yields `Ng` —
/// device rejection is the `Ng` response value, not an error — nor any
/// transport error kind.
pub proof fn lemma_parse_response_err_kinds(f: FrameView, c: Command)
    ensures
        parse_response_spec(f, c) matches Err(e) ==> e == CivError::InvalidFrame || (
        e matches CivError::InvalidBcd(_)) || (e matches CivError::UnknownMode(_)),
{
}

/// Any frequency or offset value a reply decodes to lies within the
/// 10-digit frequency bound.
pub proof fn lemma_response_frequency_wf(f: FrameView, c: Command)
    ensures
        parse_response_spec(f, c) matches Ok(resp) ==> (resp matches Response::Frequency(q)
            ==> q.wf()) && (resp matches Response::Offset(q) ==> q.wf()),
{
    let bytes = opt_byte_seq(f.sub_command) + f.data;
    if bytes.len() == 5 && bcd::bcd_seq_valid(bytes) {
        bcd::lemma_bcd_le_val_bound(bytes);
        crate::frequency::lemma_pow100_5();
    }
    if bytes.len() == 3 && bcd::bcd_seq_valid(bytes) {
        bcd::lemma_bcd_le_val_bound(bytes);
        reveal_with_fuel(bcd::pow100, 4);
    }
}

/// Append every byte of `src` to `dst`.
pub(crate) fn push_all(dst: &mut Vec<u8>, src: &Vec<u8>)
    ensures
        final(dst)@ == old(dst)@ + src@,
{
    let mut i: usize = 0;
    while i < src.len()
        invariant
            i <= src@.len(),
            dst@ == old(dst)@ + src@.subrange(0, i as int),
        decreases src@.len() - i,
    {
        dst.push(src[i]);
        proof {
            assert(src@.subrange(0, i + 1) =~= src@.subrange(0, i as int) + seq![src@[i as int]]);
        }
        i = i + 1;
    }
    proof {
        assert(old(dst)@ + src@.subrange(0, src@.len() as int) =~= old(dst)@ + src@);
    }
}

/// The high nibble of a byte.
fn hi(b: u8) -> (r: u8)
    ensures
        r == nib_hi(b),
        r <= 15,
{
    let r = (b >> 4) & 0x0F;
    assert(((b >> 4) & 0x0F) <= 15) by (bit_vector);
    r
}

/// The low nibble of a byte.
fn lo(b: u8) -> (r: u8)
    ensures
        r == nib_lo(b),
        r <= 15,
{
    let r = b & 0x0F;
    assert((b & 0x0F) <= 15) by (bit_vector);
    r
}

/// Parse a frequency reply. The payload is everything after the command
/// byte: the sub-command slot, if present, holds the first BCD byte.
fn parse_frequency_response(frame: &Frame) -> (r: Result<Response, CivError>)
    ensures
        r == parse_frequency_spec(frame@),
{
    let mut freq_bytes: Vec<u8> = Vec::new();
    match frame.sub_command {
        Some(sc) => freq_bytes.push(sc),
        None => (),
    }
    push_all(&mut freq_bytes, &frame.data);
    proof {
        assert(freq_bytes@ =~= opt_byte_seq(frame@.sub_command) + frame@.data);
    }
    if freq_bytes.len() != 5 {
        return Err(CivError::InvalidFrame);
    }
    let arr = [freq_bytes[0], freq_bytes[1], freq_bytes[2], freq_bytes[3], freq_bytes[4]];
    assert(arr@ =~= freq_bytes@);
    match Frequency::from_civ_bytes(arr) {
        Ok(freq) => Ok(Response::Frequency(freq)),
        Err(e) => Err(e),
    }
}

/// Parse a mode reply: mode byte in the sub-command slot, filter byte as
/// the first data byte.
fn parse_mode_response(frame: &Frame) -> (r: Result<Response, CivError>)
    ensures
        r == parse_mode_spec(frame@),
{
    let mode_byte = match frame.sub_command {
        Some(b) => b,
        None => {
            return Err(CivError::InvalidFrame);
        },
    };
    if frame.data.len() == 0 {
        return Err(CivError::InvalidFrame);
    }
    let filter_byte = frame.data[0];
    match OperatingMode::from_civ_bytes(mode_byte, filter_byte) {
        Ok(m) => Ok(Response::Mode(m)),
        Err(e) => Err(e),
    }
}

/// Parse a level reply.
fn parse_level_response(frame: &Frame, expected_sub: u8) -> (r: Result<Response, CivError>)
    ensures
        r == parse_level_spec(frame@, expected_sub),
{
    let sub = match frame.sub_command {
        Some(b) => b,
        None => {
            return Err(CivError::InvalidFrame);
        },
    };
    if sub != expected_sub {
        return Err(CivError::InvalidFrame);
    }
    if frame.data.len() != 2 {
        return Err(CivError::InvalidFrame);
    }
    let value = match bcd::decode_bcd_be(frame.data.as_slice()) {
        Ok(v) => v,
        Err(e) => {
            return Err(e);
        },
    };
    proof {
        bcd::lemma_bcd_be_val_bound(frame@.data);
        reveal_with_fuel(bcd::pow100, 3);
    }
    Ok(Response::Level(sub, value as u16))
}

/// Parse a meter reply.
fn parse_meter_response(frame: &Frame, expected_sub: u8) -> (r: Result<Response, CivError>)
    ensures
        r == parse_meter_spec(frame@, expected_sub),
{
    let sub = match frame.sub_command {
        Some(b) => b,
        None => {
            return Err(CivError::InvalidFrame);
        },
    };
    if sub != expected_sub {
        return Err(CivError::InvalidFrame);
    }
    if frame.data.len() != 2 {
        return Err(CivError::InvalidFrame);
    }
    let value = match bcd::decode_bcd_be(frame.data.as_slice()) {
        Ok(v) => v,
        Err(e) => {
            return Err(e);
        },
    };
    proof {
        bcd::lemma_bcd_be_val_bound(frame@.data);
        reveal_with_fuel(bcd::pow100, 3);
    }
    Ok(Response::Meter(sub, value as u16))
}

/// Parse a transceiver-ID reply.
fn parse_transceiver_id_response(frame: &Frame) -> (r: Result<Response, CivError>)
    ensures
        r == parse_transceiver_id_spec(frame@),
{
    match frame.sub_command {
        Some(id) => Ok(Response::TransceiverId(id)),
        None => Err(CivError::InvalidFrame),
    }
}

/// Parse a various-function reply: one raw byte, not BCD-decoded.
fn parse_various_response(frame: &Frame, expected_sub: u8) -> (r: Result<Response, CivError>)
    ensures
        r == parse_various_spec(frame@, expected_sub),
{
    let sub = match frame.sub_command {
        Some(b) => b,
        None => {
            return Err(CivError::InvalidFrame);
        },
    };
    if sub != expected_sub {
        return Err(CivError::InvalidFrame);
    }
    if frame.data.len() == 0 {
        return Err(CivError::InvalidFrame);
    }
    Ok(Response::Various(sub, frame.data[0]))
}

/// Parse a duplex reply: the sub-command byte is the value.
fn parse_duplex_response(frame: &Frame) -> (r: Result<Response, CivError>)
    ensures
        r == parse_duplex_spec(frame@),
{
    match frame.sub_command {
        Some(duplex) => Ok(Response::Duplex(duplex)),
        None => Err(CivError::InvalidFrame),
    }
}

/// Parse an offset reply: 3 little-endian BCD bytes in 100 Hz units.
fn parse_offset_response(frame: &Frame) -> (r: Result<Response, CivError>)
    ensures
        r == parse_offset_spec(frame@),
{
    let mut offset_bytes: Vec<u8> = Vec::new();
    match frame.sub_command {
        Some(sc) => offset_bytes.push(sc),
        None => (),
    }
    push_all(&mut offset_bytes, &frame.data);
    proof {
        assert(offset_bytes@ =~= opt_byte_seq(frame@.sub_command) + frame@.data);
    }
    if offset_bytes.len() != 3 {
        return Err(CivError::InvalidFrame);
    }
    let raw = match bcd::decode_bcd_le(offset_bytes.as_slice()) {
        Ok(v) => v,
        Err(e) => {
            return Err(e);
        },
    };
    proof {
        bcd::lemma_bcd_le_val_bound(offset_bytes@);
        reveal_with_fuel(bcd::pow100, 4);
    }
    let hz = raw * 100;
    match Frequency::from_hz(hz) {
        Ok(freq) => Ok(Response::Offset(freq)),
        Err(e) => Err(e),
    }
}

/// Parse a tone/DTCS reply: 3 data bytes, read as a tone frequency pair
/// for the tone sub-commands and as polarity nibbles plus a 3-digit code
/// for the DTCS sub-command.
fn parse_tone_response(frame: &Frame, expected_sub: u8) -> (r: Result<Response, CivError>)
    ensures
        r == parse_tone_spec(frame@, expected_sub),
{
    let sub = match frame.sub_command {
        Some(b) => b,
        None => {
            return Err(CivError::InvalidFrame);
        },
    };
    if sub != expected_sub {
        return Err(CivError::InvalidFrame);
    }
    if frame.data.len() != 3 {
        return Err(CivError::InvalidFrame);
    }
    if sub == TONE_SUB_REPEATER || sub == TONE_SUB_TSQL {
        let ht = match bcd::decode_bcd_byte(frame.data[1]) {
            Ok(v) => v,
            Err(e) => {
                return Err(e);
            },
        };
        let ut = match bcd::decode_bcd_byte(frame.data[2]) {
            Ok(v) => v,
            Err(e) => {
                return Err(e);
            },
        };
        proof {
            bcd::lemma_bcd_byte_round_trip(frame@.data[1]);
            bcd::lemma_bcd_byte_round_trip(frame@.data[2]);
        }
        let freq_tenths = (ht as u16) * 100 + (ut as u16);
        Ok(Response::ToneFrequency(sub, freq_tenths))
    } else if sub == TONE_SUB_DTCS {
        let polarity_byte = frame.data[0];
        let tx_pol = hi(polarity_byte);
        let rx_pol = lo(polarity_byte);
        let first = match bcd::decode_bcd_byte(frame.data[1]) {
            Ok(v) => v,
            Err(e) => {
                return Err(e);
            },
        };
        let second_third = match bcd::decode_bcd_byte(frame.data[2]) {
            Ok(v) => v,
            Err(e) => {
                return Err(e);
            },
        };
        proof {
            bcd::lemma_bcd_byte_round_trip(frame@.data[1]);
            bcd::lemma_bcd_byte_round_trip(frame@.data[2]);
        }
        let code = (first as u16) * 100 + (second_third as u16);
        Ok(Response::DtcsCode(tx_pol, rx_pol, code))
    } else {
        Err(CivError::InvalidFrame)
    }
}

/// Parse a GPS position reply: 27 bytes of nibble-packed position data,
/// reproduced field by field from the device's documented layout. Indexing
/// is bounds-checked by the length test; nibbles are taken as digits
/// without validation.
fn parse_gps_position_response(frame: &Frame) -> (r: Result<Response, CivError>)
    ensures
        r == parse_gps_spec(frame@),
{
    let sub = match frame.sub_command {
        Some(b) => b,
        None => {
            return Err(CivError::InvalidFrame);
        },
    };
    if sub != 0x00 {
        return Err(CivError::InvalidFrame);
    }
    if frame.data.len() != 27 {
        return Err(CivError::InvalidFrame);
    }
    let d = &frame.data;

    // Latitude: degrees, minutes, thousandths of a minute, hemisphere.
    let lat_deg = hi(d[0]) * 10 + lo(d[0]);
    let lat_min = hi(d[1]) * 10 + lo(d[1]);
    let lat_min_frac = (hi(d[2]) as u16) * 100 + (lo(d[2]) as u16) * 10 + (hi(d[3]) as u16);
    let lat_north = lo(d[4]) == 1;

    // Longitude: three degree digits, minutes, thousandths, hemisphere.
    let lon_deg = (lo(d[5]) as u16) * 100 + (hi(d[6]) as u16) * 10 + (lo(d[6]) as u16);
    let lon_min = hi(d[7]) * 10 + lo(d[7]);
    let lon_min_frac = (hi(d[8]) as u16) * 100 + (lo(d[8]) as u16) * 10 + (hi(d[9]) as u16);
    let lon_east = lo(d[10]) == 1;

    // Altitude in 0.1 m steps, then its sign nibble.
    let alt_tenths = (hi(d[11]) as u32) * 100_000 + (lo(d[11]) as u32) * 10_000 + (hi(
        d[12],
    ) as u32) * 1_000 + (lo(d[12]) as u32) * 100 + (hi(d[13]) as u32) * 10 + (lo(d[13]) as u32);
    let alt_negative = lo(d[14]) == 1;

    // Course in whole degrees.
    let course = (hi(d[15]) as u16) * 100 + (lo(d[15]) as u16) * 10 + (hi(d[16]) as u16);

    // Speed in 0.1 km/h steps.
    let speed_tenths = (hi(d[17]) as u32) * 100_000 + (lo(d[17]) as u32) * 10_000 + (hi(
        d[18],
    ) as u32) * 1_000 + (lo(d[18]) as u32) * 100 + (hi(d[19]) as u32) * 10 + (lo(d[19]) as u32);

    // UTC date and time as digit pairs.
    let utc_year = (hi(d[20]) as u16) * 1000 + (lo(d[20]) as u16) * 100 + (hi(d[21]) as u16) * 10
        + (lo(d[21]) as u16);
    let utc_month = hi(d[22]) * 10 + lo(d[22]);
    let utc_day = hi(d[23]) * 10 + lo(d[23]);
    let utc_hour = hi(d[24]) * 10 + lo(d[24]);
    let utc_minute = hi(d[25]) * 10 + lo(d[25]);
    let utc_second = hi(d[26]) * 10 + lo(d[26]);

    Ok(
        Response::GpsPosition(
            RawGpsPosition {
                lat_deg,
                lat_min,
                lat_min_frac,
                lat_north,
                lon_deg,
                lon_min,
                lon_min_frac,
                lon_east,
                alt_tenths,
                alt_negative,
                course,
                speed_tenths,
                utc_year,
                utc_month,
                utc_day,
                utc_hour,
                utc_minute,
                utc_second,
            },
        ),
    )
}

/// Parse a reply frame into a typed response, using the original command
/// to disambiguate commands that share a command byte.
///
/// The universal OK and NG replies are recognized first, whatever the
/// command was.
pub fn parse_response(frame: &Frame, command: &Command) -> (r: Result<Response, CivError>)
    ensures
        r == parse_response_spec(frame@, *command),
        frame@.command == OK ==> r == Ok::<Response, CivError>(Response::Okay),
        frame@.command == NG ==> r == Ok::<Response, CivError>(Response::Ng),
{
    if frame.is_ok() {
        return Ok(Response::Okay);
    }
    if frame.is_ng() {
        return Ok(Response::Ng);
    }

    match command {
        Command::ReadFrequency => parse_frequency_response(frame),
        Command::SetFrequency(_) => {
            if frame.command == CMD_SET_FREQ || frame.command == CMD_READ_FREQ {
                parse_frequency_response(frame)
            } else {
                Err(CivError::InvalidFrame)
            }
        },
        Command::ReadMode => parse_mode_response(frame),
        Command::SetMode(_) => Ok(Response::Okay),
        Command::SelectVfoA | Command::SelectVfoB => Ok(Response::Okay),
        Command::ReadLevel(sub) => parse_level_response(frame, *sub),
        Command::SetLevel(_, _) => Ok(Response::Okay),
        Command::ReadMeter(sub) => parse_meter_response(frame, *sub),
        Command::PowerOn | Command::PowerOff => Ok(Response::Okay),
        Command::ReadTransceiverId => parse_transceiver_id_response(frame),
        Command::ReadVarious(sub) => parse_various_response(frame, *sub),
        Command::ReadDuplex => parse_duplex_response(frame),
        Command::ReadOffset => parse_offset_response(frame),
        Command::ReadTone(sub) => parse_tone_response(frame, *sub),
        Command::SetDuplex(_) => Ok(Response::Okay),
        Command::SetOffset(_) => Ok(Response::Okay),
        Command::SetVarious(_, _) => Ok(Response::Okay),
        Command::SetTone(_, _) => Ok(Response::Okay),
        Command::SetDtcs(_, _, _) => Ok(Response::Okay),
        Command::ReadGpsPosition => parse_gps_position_response(frame),
    }
}

} // verus!
