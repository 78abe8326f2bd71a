//! The typed command model: each request variant and its frame encoding.

use vstd::prelude::*;

use crate::bcd;
use crate::error::CivError;
use crate::frequency::Frequency;
use crate::mode::{mode_to_bytes, OperatingMode};
use crate::protocol::{Frame, FrameView, ADDR_CONTROLLER, ADDR_ID52};

verus! {

/// Command byte: read the currently displayed frequency.
pub const CMD_READ_FREQ: u8 = 0x03;

/// Command byte: set the operating frequency.
pub const CMD_SET_FREQ: u8 = 0x05;

/// Command byte: read the current operating mode and filter.
pub const CMD_READ_MODE: u8 = 0x04;

/// Command byte: set the operating mode and filter.
pub const CMD_SET_MODE: u8 = 0x06;

/// Command byte: select VFO/memory mode.
pub const CMD_VFO_MODE: u8 = 0x07;

/// Command byte: read/write level settings (AF gain, squelch, RF gain...).
pub const CMD_LEVEL: u8 = 0x14;

/// Command byte: read S-meter / power meter.
pub const CMD_METER: u8 = 0x15;

/// Command byte: read/write various function settings (tone squelch...).
pub const CMD_VARIOUS: u8 = 0x16;

/// Command byte: send/read tone/DTCS frequency and code settings.
pub const CMD_TONE: u8 = 0x1B;

/// Command byte: read the duplex offset frequency.
pub const CMD_READ_OFFSET: u8 = 0x0C;

/// Command byte: set the duplex offset frequency.
pub const CMD_SET_OFFSET: u8 = 0x0D;

/// Command byte: read/set the duplex direction.
pub const CMD_READ_DUPLEX: u8 = 0x0F;

/// Command byte: power on/off control.
pub const CMD_POWER: u8 = 0x18;

/// Command byte: read the transceiver ID.
pub const CMD_READ_ID: u8 = 0x19;

/// Command byte: read GPS position data.
pub const CMD_READ_GPS: u8 = 0x23;

/// Level sub-command: AF output level (volume).
pub const LEVEL_AF: u8 = 0x01;

/// Level sub-command: RF gain level.
pub const LEVEL_RF_GAIN: u8 = 0x02;

/// Level sub-command: squelch level.
pub const LEVEL_SQUELCH: u8 = 0x03;

/// Level sub-command: RF power level.
pub const LEVEL_RF_POWER: u8 = 0x0A;

/// Various-function sub-command: combined tone/squelch function.
pub const VARIOUS_TONE_SQUELCH_FUNC: u8 = 0x5D;

/// Tone sub-command: repeater tone (Tx) frequency.
pub const TONE_SUB_REPEATER: u8 = 0x00;

/// Tone sub-command: TSQL tone (Rx) frequency.
pub const TONE_SUB_TSQL: u8 = 0x01;

/// Tone sub-command: DTCS code and polarity.
pub const TONE_SUB_DTCS: u8 = 0x02;

/// Meter sub-command: S-meter reading.
pub const METER_S: u8 = 0x02;

/// Meter sub-command: power meter reading.
pub const METER_POWER: u8 = 0x11;

/// VFO sub-command: select band A. These values are specific to this
/// device family; other families use different ones.
pub const VFO_SUB_A: u8 = 0xD0;

/// VFO sub-command: select band B.
pub const VFO_SUB_B: u8 = 0xD1;

/// Power sub-command: power off.
pub const POWER_SUB_OFF: u8 = 0x00;

/// Power sub-command: power on.
pub const POWER_SUB_ON: u8 = 0x01;

/// A command to send to the radio.
///
/// Each variant owns exactly the typed arguments needed to build its frame.
#[derive(Debug, Clone, PartialEq, Eq, Structural)]
pub enum Command {
    /// Read the currently displayed frequency.
    ReadFrequency,
    /// Set the operating frequency.
    SetFrequency(Frequency),
    /// Read the current operating mode and filter.
    ReadMode,
    /// Set the operating mode and filter.
    SetMode(OperatingMode),
    /// Select VFO/band A.
    SelectVfoA,
    /// Select VFO/band B.
    SelectVfoB,
    /// Read a level setting; the byte is the level sub-command.
    ReadLevel(u8),
    /// Set a level setting: (level sub-command, value 0-255).
    SetLevel(u8, u16),
    /// Read a meter value; the byte is the meter sub-command.
    ReadMeter(u8),
    /// Power on the radio.
    PowerOn,
    /// Power off the radio.
    PowerOff,
    /// Read the transceiver ID.
    ReadTransceiverId,
    /// Read a various function setting; the byte is the sub-command.
    ReadVarious(u8),
    /// Read the duplex direction (0x10 simplex, 0x11 down, 0x12 up).
    ReadDuplex,
    /// Read the duplex offset frequency.
    ReadOffset,
    /// Read a tone/DTCS setting; the byte is the tone sub-command.
    ReadTone(u8),
    /// Set the duplex direction (0x10 simplex, 0x11 down, 0x12 up).
    SetDuplex(u8),
    /// Set the duplex offset frequency (3-byte BCD, 100 Hz resolution).
    SetOffset(u64),
    /// Write a various function setting: (sub-command, value).
    SetVarious(u8, u8),
    /// Write a tone frequency: (tone sub-command, tenths of Hz).
    SetTone(u8, u16),
    /// Write DTCS code and polarity: (tx polarity, rx polarity, code).
    SetDtcs(u8, u8, u16),
    /// Read GPS position data.
    ReadGpsPosition,
}

/// The arguments a command's encoding is defined for: a frequency within
/// its bound, a level on the 0-255 raw scale, an offset whose 100 Hz count
/// fits 6 digits, a tone in 4 digits of tenths, and a 3-digit DTCS code
/// with 0/1 polarities.
pub open spec fn command_wf(c: Command) -> bool {
    match c {
        Command::SetFrequency(f) => f.wf(),
        Command::SetLevel(_, value) => value <= 255,
        Command::SetOffset(hz) => hz < 100_000_000,
        Command::SetTone(_, tenths) => tenths <= 9999,
        Command::SetDtcs(tx_pol, rx_pol, code) => tx_pol <= 1 && rx_pol <= 1 && code <= 999,
        _ => true,
    }
}

/// The command byte of each variant.
pub open spec fn command_byte_of(c: Command) -> u8 {
    match c {
        Command::ReadFrequency => CMD_READ_FREQ,
        Command::SetFrequency(_) => CMD_SET_FREQ,
        Command::ReadMode => CMD_READ_MODE,
        Command::SetMode(_) => CMD_SET_MODE,
        Command::SelectVfoA | Command::SelectVfoB => CMD_VFO_MODE,
        Command::ReadLevel(_) | Command::SetLevel(_, _) => CMD_LEVEL,
        Command::ReadMeter(_) => CMD_METER,
        Command::PowerOn | Command::PowerOff => CMD_POWER,
        Command::ReadTransceiverId => CMD_READ_ID,
        Command::ReadVarious(_) | Command::SetVarious(_, _) => CMD_VARIOUS,
        Command::ReadDuplex | Command::SetDuplex(_) => CMD_READ_DUPLEX,
        Command::ReadOffset => CMD_READ_OFFSET,
        Command::SetOffset(_) => CMD_SET_OFFSET,
        Command::ReadTone(_) | Command::SetTone(_, _) | Command::SetDtcs(_, _, _) => CMD_TONE,
        Command::ReadGpsPosition => CMD_READ_GPS,
    }
}

/// The sub-command byte of each variant, if any.
pub open spec fn sub_command_byte_of(c: Command) -> Option<u8> {
    match c {
        Command::ReadFrequency | Command::SetFrequency(_) | Command::ReadMode | Command::SetMode(
            _,
        ) => Option::None,
        Command::SelectVfoA => Option::Some(VFO_SUB_A),
        Command::SelectVfoB => Option::Some(VFO_SUB_B),
        Command::ReadLevel(sub) | Command::SetLevel(sub, _) => Option::Some(sub),
        Command::ReadMeter(sub) => Option::Some(sub),
        Command::PowerOn => Option::Some(POWER_SUB_ON),
        Command::PowerOff => Option::Some(POWER_SUB_OFF),
        Command::ReadTransceiverId => Option::Some(0x00),
        Command::ReadVarious(sub) | Command::SetVarious(sub, _) => Option::Some(sub),
        Command::ReadDuplex => Option::None,
        Command::SetDuplex(dir) => Option::Some(dir),
        Command::ReadOffset | Command::SetOffset(_) => Option::None,
        Command::ReadTone(sub) | Command::SetTone(sub, _) => Option::Some(sub),
        Command::SetDtcs(_, _, _) => Option::Some(TONE_SUB_DTCS),
        Command::ReadGpsPosition => Option::Some(0x00),
    }
}

/// The data bytes of each variant's frame.
pub open spec fn command_data_of(c: Command) -> Seq<u8> {
    match c {
        Command::SetFrequency(f) => bcd::bcd_le_bytes(f.0 as int, 5),
        Command::SetMode(m) => seq![mode_to_bytes(m).0, mode_to_bytes(m).1],
        Command::SetLevel(_, value) => bcd::bcd_be_bytes(value as int, 2),
        Command::SetOffset(hz) => bcd::bcd_le_bytes((hz / 100) as int, 3),
        Command::SetVarious(_, value) => seq![value],
        Command::SetTone(_, tenths) => seq![
            0u8,
            bcd::bcd_byte_of((tenths / 100) as int),
            bcd::bcd_byte_of((tenths % 100) as int),
        ],
        Command::SetDtcs(tx_pol, rx_pol, code) => seq![
            (tx_pol << 4) | (rx_pol & 0x0F),
            bcd::bcd_byte_of((code / 100) as int),
            bcd::bcd_byte_of((code % 100) as int),
        ],
        _ => Seq::empty(),
    }
}

/// The full frame a command encodes to.
pub open spec fn command_frame(c: Command) -> FrameView {
    FrameView {
        dst: ADDR_ID52,
        src: ADDR_CONTROLLER,
        command: command_byte_of(c),
        sub_command: sub_command_byte_of(c),
        data: command_data_of(c),
    }
}

impl Command {
    /// Convert this command into a frame ready for transmission.
    pub fn to_frame(&self) -> (r: Result<Frame, CivError>)
        requires
            command_wf(*self),
        ensures
            r matches Ok(f) && f@ == command_frame(*self),
    {
        let frame = match self {
            Command::ReadFrequency => Frame::new(CMD_READ_FREQ, None, Vec::new()),
            Command::SetFrequency(freq) => {
                let bytes = match freq.to_civ_bytes() {
                    Ok(b) => b,
                    Err(e) => {
                        return Err(e);
                    },
                };
                proof {
                    bcd::lemma_bcd_le_bytes_valid(freq.0 as int, 5);
                }
                let data = vec![bytes[0], bytes[1], bytes[2], bytes[3], bytes[4]];
                assert(data@ =~= bytes@);
                Frame::new(CMD_SET_FREQ, None, data)
            },
            Command::ReadMode => Frame::new(CMD_READ_MODE, None, Vec::new()),
            Command::SetMode(mode) => {
                let (m, f) = mode.to_civ_bytes();
                let data = vec![m, f];
                assert(data@ =~= seq![mode_to_bytes(*mode).0, mode_to_bytes(*mode).1]);
                Frame::new(CMD_SET_MODE, None, data)
            },
            Command::SelectVfoA => Frame::new(CMD_VFO_MODE, Some(VFO_SUB_A), Vec::new()),
            Command::SelectVfoB => Frame::new(CMD_VFO_MODE, Some(VFO_SUB_B), Vec::new()),
            Command::ReadLevel(sub) => Frame::new(CMD_LEVEL, Some(*sub), Vec::new()),
            Command::SetLevel(sub, value) => {
                let data = match bcd::encode_bcd_be(*value as u64, 2) {
                    Ok(d) => d,
                    Err(e) => {
                        return Err(e);
                    },
                };
                Frame::new(CMD_LEVEL, Some(*sub), data)
            },
            Command::ReadMeter(sub) => Frame::new(CMD_METER, Some(*sub), Vec::new()),
            Command::PowerOn => Frame::new(CMD_POWER, Some(POWER_SUB_ON), Vec::new()),
            Command::PowerOff => Frame::new(CMD_POWER, Some(POWER_SUB_OFF), Vec::new()),
            Command::ReadTransceiverId => Frame::new(CMD_READ_ID, Some(0x00), Vec::new()),
            Command::ReadVarious(sub) => Frame::new(CMD_VARIOUS, Some(*sub), Vec::new()),
            Command::ReadDuplex => Frame::new(CMD_READ_DUPLEX, None, Vec::new()),
            Command::ReadOffset => Frame::new(CMD_READ_OFFSET, None, Vec::new()),
            Command::ReadTone(sub) => Frame::new(CMD_TONE, Some(*sub), Vec::new()),
            Command::SetDuplex(dir) => Frame::new(CMD_READ_DUPLEX, Some(*dir), Vec::new()),
            Command::SetOffset(hz) => {
                // 3-byte little-endian BCD at 100 Hz resolution.
                let raw = *hz / 100;
                let data = match bcd::encode_bcd_le(raw, 3) {
                    Ok(d) => d,
                    Err(e) => {
                        return Err(e);
                    },
                };
                Frame::new(CMD_SET_OFFSET, None, data)
            },
            Command::SetVarious(sub, value) => {
                let data = vec![*value];
                assert(data@ =~= seq![*value]);
                Frame::new(CMD_VARIOUS, Some(*sub), data)
            },
            Command::SetTone(sub, freq_tenths) => {
                // Three bytes: a fixed zero, then the hundreds/tens pair and
                // the units/tenths pair, each as one BCD byte.
                let ht = (*freq_tenths / 100) as u8;
                let ut = (*freq_tenths % 100) as u8;
                let ht_bcd = match bcd::encode_bcd_byte(ht) {
                    Ok(b) => b,
                    Err(e) => {
                        return Err(e);
                    },
                };
                let ut_bcd = match bcd::encode_bcd_byte(ut) {
                    Ok(b) => b,
                    Err(e) => {
                        return Err(e);
                    },
                };
                let data = vec![0u8, ht_bcd, ut_bcd];
                assert(data@ =~= command_data_of(*self));
                Frame::new(CMD_TONE, Some(*sub), data)
            },
            Command::ReadGpsPosition => Frame::new(CMD_READ_GPS, Some(0x00), Vec::new()),
            Command::SetDtcs(tx_pol, rx_pol, code) => {
                // Three bytes: both polarity nibbles, then the leading code
                // digit and the trailing two code digits as BCD bytes.
                let polarity = (*tx_pol << 4) | (*rx_pol & 0x0F);
                let first = (*code / 100) as u8;
                let second_third = (*code % 100) as u8;
                let first_bcd = match bcd::encode_bcd_byte(first) {
                    Ok(b) => b,
                    Err(e) => {
                        return Err(e);
                    },
                };
                let st_bcd = match bcd::encode_bcd_byte(second_third) {
                    Ok(b) => b,
                    Err(e) => {
                        return Err(e);
                    },
                };
                let data = vec![polarity, first_bcd, st_bcd];
                assert(data@ =~= command_data_of(*self));
                Frame::new(CMD_TONE, Some(TONE_SUB_DTCS), data)
            },
        };
        proof {
            assert(frame@.data =~= command_data_of(*self));
        }
        Ok(frame)
    }

    /// The command byte this command sends, which its reply must carry.
    pub fn command_byte(&self) -> (r: u8)
        ensures
            r == command_byte_of(*self),
    {
        match self {
            Command::ReadFrequency => CMD_READ_FREQ,
            Command::SetFrequency(_) => CMD_SET_FREQ,
            Command::ReadMode => CMD_READ_MODE,
            Command::SetMode(_) => CMD_SET_MODE,
            Command::SelectVfoA | Command::SelectVfoB => CMD_VFO_MODE,
            Command::ReadLevel(_) | Command::SetLevel(_, _) => CMD_LEVEL,
            Command::ReadMeter(_) => CMD_METER,
            Command::PowerOn | Command::PowerOff => CMD_POWER,
            Command::ReadTransceiverId => CMD_READ_ID,
            Command::ReadVarious(_) | Command::SetVarious(_, _) => CMD_VARIOUS,
            Command::ReadDuplex | Command::SetDuplex(_) => CMD_READ_DUPLEX,
            Command::ReadOffset => CMD_READ_OFFSET,
            Command::SetOffset(_) => CMD_SET_OFFSET,
            Command::ReadTone(_) | Command::SetTone(_, _) | Command::SetDtcs(_, _, _) => CMD_TONE,
            Command::ReadGpsPosition => CMD_READ_GPS,
        }
    }

    /// The sub-command byte this command sends, if any.
    pub fn sub_command_byte(&self) -> (r: Option<u8>)
        ensures
            r == sub_command_byte_of(*self),
    {
        match self {
            Command::ReadFrequency
            | Command::SetFrequency(_)
            | Command::ReadMode
            | Command::SetMode(_) => None,
            Command::SelectVfoA => Some(VFO_SUB_A),
            Command::SelectVfoB => Some(VFO_SUB_B),
            Command::ReadLevel(sub) | Command::SetLevel(sub, _) => Some(*sub),
            Command::ReadMeter(sub) => Some(*sub),
            Command::PowerOn => Some(POWER_SUB_ON),
            Command::PowerOff => Some(POWER_SUB_OFF),
            Command::ReadTransceiverId => Some(0x00),
            Command::ReadVarious(sub) | Command::SetVarious(sub, _) => Some(*sub),
            Command::ReadDuplex => None,
            Command::SetDuplex(dir) => Some(*dir),
            Command::ReadOffset | Command::SetOffset(_) => None,
            Command::ReadTone(sub) | Command::SetTone(sub, _) => Some(*sub),
            Command::SetDtcs(_, _, _) => Some(TONE_SUB_DTCS),
            Command::ReadGpsPosition => Some(0x00),
        }
    }
}

} // verus!
