//! Pure front-panel control logic: VFO selection, power-level steps, the
//! volume step scale, and the combined tone/squelch function code.
//!
//! These are the device-facing rules a frontend needs: nothing here touches
//! a transport or a screen.

use vstd::prelude::*;

use crate::command::{
    command_wf, Command, LEVEL_AF, LEVEL_RF_POWER, LEVEL_SQUELCH, TONE_SUB_REPEATER,
    TONE_SUB_TSQL, VARIOUS_TONE_SQUELCH_FUNC,
};
use crate::frequency::Frequency;
use crate::mode::OperatingMode;

verus! {

/// VFO selection.
#[derive(Debug, Default, Clone, Copy, PartialEq, Eq, Structural)]
pub enum Vfo {
    /// Band A.
    #[default]
    A,
    /// Band B.
    B,
}

impl Vfo {
    /// Toggle between A and B.
    pub fn toggle(self) -> (r: Self)
        ensures
            self == Vfo::A ==> r == Vfo::B,
            self == Vfo::B ==> r == Vfo::A,
    {
        match self {
            Self::A => Self::B,
            Self::B => Self::A,
        }
    }
}

/// Commands a frontend submits to the session's polling loop.
#[derive(Debug, Clone, PartialEq, Eq, Structural)]
pub enum RadioCommand {
    /// Set the operating frequency.
    SetFrequency(Frequency),
    /// Set the operating mode.
    SetMode(OperatingMode),
    /// Set the AF (volume) level, raw 0-255.
    SetAfLevel(u16),
    /// Set the squelch level, raw 0-255.
    SetSquelch(u16),
    /// Select a VFO band.
    SelectVfo(Vfo),
    /// Set the RF power level, raw 0-255.
    SetRfPower(u16),
    /// Set the duplex direction (0x10 simplex, 0x11 down, 0x12 up).
    SetDuplex(u8),
    /// Set the duplex offset frequency in Hz.
    SetOffset(u64),
    /// Set the combined tone/squelch function code (0x00-0x09).
    SetToneMode(u8),
    /// Set the Tx tone frequency in tenths of Hz.
    SetTxTone(u16),
    /// Set the Rx tone frequency in tenths of Hz.
    SetRxTone(u16),
    /// Set the DTCS code and polarity: (tx polarity, rx polarity, code).
    SetDtcsCode(u8, u8, u16),
    /// Power on the radio.
    PowerOn,
    /// Power off the radio.
    PowerOff,
    /// Shut the polling loop down.
    Quit,
}

/// The bounds under which a panel command's protocol encoding is defined:
/// the same bounds the protocol command model asks for.
pub open spec fn radio_command_wf(rc: RadioCommand) -> bool {
    match rc {
        RadioCommand::SetFrequency(f) => f.wf(),
        RadioCommand::SetAfLevel(level) => level <= 255,
        RadioCommand::SetSquelch(level) => level <= 255,
        RadioCommand::SetRfPower(level) => level <= 255,
        RadioCommand::SetOffset(hz) => hz < 100_000_000,
        RadioCommand::SetTxTone(tenths) => tenths <= 9999,
        RadioCommand::SetRxTone(tenths) => tenths <= 9999,
        RadioCommand::SetDtcsCode(tx_pol, rx_pol, code) => tx_pol <= 1 && rx_pol <= 1 && code
            <= 999,
        _ => true,
    }
}

/// The protocol command each panel command translates to; `Quit` addresses
/// the polling loop itself, not the device.
pub open spec fn protocol_command_of(rc: RadioCommand) -> Option<Command> {
    match rc {
        RadioCommand::SetFrequency(f) => Option::Some(Command::SetFrequency(f)),
        RadioCommand::SetMode(m) => Option::Some(Command::SetMode(m)),
        RadioCommand::SetAfLevel(level) => Option::Some(Command::SetLevel(LEVEL_AF, level)),
        RadioCommand::SetSquelch(level) => Option::Some(Command::SetLevel(LEVEL_SQUELCH, level)),
        RadioCommand::SelectVfo(Vfo::A) => Option::Some(Command::SelectVfoA),
        RadioCommand::SelectVfo(Vfo::B) => Option::Some(Command::SelectVfoB),
        RadioCommand::SetRfPower(level) => Option::Some(Command::SetLevel(LEVEL_RF_POWER, level)),
        RadioCommand::SetDuplex(dir) => Option::Some(Command::SetDuplex(dir)),
        RadioCommand::SetOffset(hz) => Option::Some(Command::SetOffset(hz)),
        RadioCommand::SetToneMode(mode) => Option::Some(
            Command::SetVarious(VARIOUS_TONE_SQUELCH_FUNC, mode),
        ),
        RadioCommand::SetTxTone(tenths) => Option::Some(
            Command::SetTone(TONE_SUB_REPEATER, tenths),
        ),
        RadioCommand::SetRxTone(tenths) => Option::Some(Command::SetTone(TONE_SUB_TSQL, tenths)),
        RadioCommand::SetDtcsCode(tx_pol, rx_pol, code) => Option::Some(
            Command::SetDtcs(tx_pol, rx_pol, code),
        ),
        RadioCommand::PowerOn => Option::Some(Command::PowerOn),
        RadioCommand::PowerOff => Option::Some(Command::PowerOff),
        RadioCommand::Quit => Option::None,
    }
}

/// Translate a panel command into the protocol command to send; `Quit`
/// yields none. A panel command within its bounds always yields a protocol
/// command within the command model's bounds, so the session can send it.
pub fn to_protocol_command(rc: &RadioCommand) -> (r: Option<Command>)
    ensures
        r == protocol_command_of(*rc),
        radio_command_wf(*rc) ==> (r matches Some(c) ==> command_wf(c)),
{
    match rc {
        RadioCommand::SetFrequency(f) => Some(Command::SetFrequency(*f)),
        RadioCommand::SetMode(m) => Some(Command::SetMode(*m)),
        RadioCommand::SetAfLevel(level) => Some(Command::SetLevel(LEVEL_AF, *level)),
        RadioCommand::SetSquelch(level) => Some(Command::SetLevel(LEVEL_SQUELCH, *level)),
        RadioCommand::SelectVfo(Vfo::A) => Some(Command::SelectVfoA),
        RadioCommand::SelectVfo(Vfo::B) => Some(Command::SelectVfoB),
        RadioCommand::SetRfPower(level) => Some(Command::SetLevel(LEVEL_RF_POWER, *level)),
        RadioCommand::SetDuplex(dir) => Some(Command::SetDuplex(*dir)),
        RadioCommand::SetOffset(hz) => Some(Command::SetOffset(*hz)),
        RadioCommand::SetToneMode(mode) => Some(
            Command::SetVarious(VARIOUS_TONE_SQUELCH_FUNC, *mode),
        ),
        RadioCommand::SetTxTone(tenths) => Some(Command::SetTone(TONE_SUB_REPEATER, *tenths)),
        RadioCommand::SetRxTone(tenths) => Some(Command::SetTone(TONE_SUB_TSQL, *tenths)),
        RadioCommand::SetDtcsCode(tx_pol, rx_pol, code) => Some(
            Command::SetDtcs(*tx_pol, *rx_pol, *code),
        ),
        RadioCommand::PowerOn => Some(Command::PowerOn),
        RadioCommand::PowerOff => Some(Command::PowerOff),
        RadioCommand::Quit => None,
    }
}

/// Per-VFO snapshot. Each field stays `None` until successfully polled; a
/// failed read never invalidates sibling fields.
#[derive(Debug, Clone, Default)]
pub struct VfoState {
    /// Operating frequency.
    pub frequency: Option<Frequency>,
    /// Operating mode.
    pub mode: Option<OperatingMode>,
    /// RF power level, raw 0-255.
    pub rf_power: Option<u16>,
    /// Combined tone/squelch function code (0x00-0x09).
    pub tone_mode: Option<u8>,
    /// Tx tone frequency in tenths of Hz.
    pub tx_tone_freq: Option<u16>,
    /// Rx tone frequency in tenths of Hz.
    pub rx_tone_freq: Option<u16>,
    /// DTCS code (e.g. 23, 754).
    pub dtcs_code: Option<u16>,
    /// DTCS Tx polarity (0 normal, 1 reverse).
    pub dtcs_tx_pol: Option<u8>,
    /// DTCS Rx polarity (0 normal, 1 reverse).
    pub dtcs_rx_pol: Option<u8>,
    /// Duplex direction (0x10 simplex, 0x11 down, 0x12 up).
    pub duplex: Option<u8>,
    /// Duplex offset frequency.
    pub offset: Option<Frequency>,
}

/// Which field of the panel has focus for editing.
#[derive(Debug, Clone, Copy, PartialEq, Eq, Structural)]
pub enum Focus {
    /// The frequency display.
    Frequency,
    /// The mode field.
    Mode,
    /// The AF (volume) level.
    AfLevel,
    /// The squelch level.
    Squelch,
    /// The Tx tone setting.
    TxTone,
    /// The Rx tone setting.
    RxTone,
    /// The RF power level.
    Power,
}

/// Tone signalling category for one side of the link.
#[derive(Debug, Clone, Copy, PartialEq, Eq, Structural)]
pub enum ToneType {
    /// Carrier squelch: no tone.
    Csq,
    /// CTCSS tone squelch.
    Tpl,
    /// DTCS digital code squelch.
    Dpl,
}

/// Editing phase for tone selection.
#[derive(Debug, Clone, Copy, PartialEq, Eq, Structural)]
pub enum ToneEditPhase {
    /// Choosing between the tone categories.
    SelectType,
    /// Choosing the specific tone frequency or DTCS code.
    SelectValue,
}

/// Whether the panel is in normal or editing input mode.
#[derive(Debug, Clone, Copy, PartialEq, Eq, Structural)]
pub enum InputMode {
    /// Keys act as panel shortcuts.
    Normal,
    /// Keys edit the focused field.
    Editing(Focus),
}

/// RF power level steps.
#[derive(Debug, Clone, Copy, PartialEq, Eq, Structural)]
pub enum PowerLevel {
    /// Super-low.
    SLow,
    /// Low 1.
    Low1,
    /// Low 2.
    Low2,
    /// Mid.
    Mid,
    /// High.
    High,
}

/// The raw value each power level maps to: the midpoint of its range.
pub open spec fn power_raw_of(l: PowerLevel) -> u16 {
    match l {
        PowerLevel::SLow => 0,
        PowerLevel::Low1 => 76,
        PowerLevel::Low2 => 127,
        PowerLevel::Mid => 179,
        PowerLevel::High => 255,
    }
}

/// The power level a raw value falls into, by fifths of the raw scale.
pub open spec fn power_level_of(raw: u16) -> PowerLevel {
    if raw <= 50 {
        PowerLevel::SLow
    } else if raw <= 101 {
        PowerLevel::Low1
    } else if raw <= 153 {
        PowerLevel::Low2
    } else if raw <= 204 {
        PowerLevel::Mid
    } else {
        PowerLevel::High
    }
}

impl PowerLevel {
    /// The raw value to send for this power level.
    pub fn to_raw(self) -> (r: u16)
        ensures
            r == power_raw_of(self),
    {
        match self {
            Self::SLow => 0,
            Self::Low1 => 76,
            Self::Low2 => 127,
            Self::Mid => 179,
            Self::High => 255,
        }
    }

    /// The power level a raw value falls into.
    pub fn from_raw(raw: u16) -> (r: Self)
        ensures
            r == power_level_of(raw),
    {
        if raw <= 50 {
            Self::SLow
        } else if raw <= 101 {
            Self::Low1
        } else if raw <= 153 {
            Self::Low2
        } else if raw <= 204 {
            Self::Mid
        } else {
            Self::High
        }
    }

    /// A three-letter label for the panel.
    pub fn label(self) -> (r: &'static str)
        ensures
            self == PowerLevel::SLow ==> r@ == "SLO"@,
            self == PowerLevel::Low1 ==> r@ == "LO1"@,
            self == PowerLevel::Low2 ==> r@ == "LO2"@,
            self == PowerLevel::Mid ==> r@ == "MID"@,
            self == PowerLevel::High ==> r@ == "MAX"@,
    {
        match self {
            Self::SLow => "SLO",
            Self::Low1 => "LO1",
            Self::Low2 => "LO2",
            Self::Mid => "MID",
            Self::High => "MAX",
        }
    }

    /// One step up; the highest level stays put.
    pub fn cycle_up(self) -> (r: Self)
        ensures
            r == (match self {
                PowerLevel::SLow => PowerLevel::Low1,
                PowerLevel::Low1 => PowerLevel::Low2,
                PowerLevel::Low2 => PowerLevel::Mid,
                PowerLevel::Mid => PowerLevel::High,
                PowerLevel::High => PowerLevel::High,
            }),
    {
        match self {
            Self::SLow => Self::Low1,
            Self::Low1 => Self::Low2,
            Self::Low2 => Self::Mid,
            Self::Mid => Self::High,
            Self::High => Self::High,
        }
    }

    /// One step down; the lowest level stays put.
    pub fn cycle_down(self) -> (r: Self)
        ensures
            r == (match self {
                PowerLevel::SLow => PowerLevel::SLow,
                PowerLevel::Low1 => PowerLevel::SLow,
                PowerLevel::Low2 => PowerLevel::Low1,
                PowerLevel::Mid => PowerLevel::Low2,
                PowerLevel::High => PowerLevel::Mid,
            }),
    {
        match self {
            Self::SLow => Self::SLow,
            Self::Low1 => Self::SLow,
            Self::Low2 => Self::Low1,
            Self::Mid => Self::Low2,
            Self::High => Self::Mid,
        }
    }
}

/// Highest volume step on the device's 0-39 scale.
pub const VOLUME_MAX_STEP: u16 = 39;

/// The raw value of a volume step: the 0-39 scale spread evenly over the
/// raw range 3-252, rounding to the nearest raw value.
pub open spec fn volume_raw_of_step(step: u16) -> int {
    let s: int = if step > 39 {
        39
    } else {
        step as int
    };
    3 + (498 * s + 39) / 78
}

/// The volume step nearest to a raw value: the inverse spread, clamped to
/// the 0-39 scale, with everything at or below raw 3 reading as step 0.
pub open spec fn volume_step_of_raw(raw: u16) -> int {
    if raw <= 3 {
        0
    } else {
        let s: int = (78 * (raw - 3) + 249) / 498;
        if s > 39 {
            39
        } else {
            s
        }
    }
}

/// Convert a volume step (0-39) to the raw value (3-252) to send.
///
/// Step 0 maps to 3, step 1 to 9, step 2 to 16, ..., step 39 to 252.
pub fn volume_step_to_raw(step: u16) -> (r: u16)
    ensures
        r == volume_raw_of_step(step),
        3 <= r <= 252,
{
    let s = if step > VOLUME_MAX_STEP {
        VOLUME_MAX_STEP
    } else {
        step
    };
    3 + (498 * s + 39) / 78
}

/// Convert a raw value (0-255) to the nearest volume step (0-39).
pub fn raw_to_volume_step(raw: u16) -> (r: u16)
    ensures
        r == volume_step_of_raw(raw),
        r <= 39,
{
    if raw <= 3 {
        return 0;
    }
    let step = (78 * (raw as u32 - 3) + 249) / 498;
    if step > 39 {
        39
    } else {
        step as u16
    }
}

/// The tone category one side of the link currently uses, read out of the
/// combined tone/squelch function code.
pub open spec fn tone_type_of(tone_mode: u8, is_tx: bool) -> ToneType {
    if is_tx {
        if tone_mode == 0x01 || tone_mode == 0x09 {
            ToneType::Tpl
        } else if 0x06 <= tone_mode && tone_mode <= 0x08 {
            ToneType::Dpl
        } else {
            ToneType::Csq
        }
    } else {
        if tone_mode == 0x02 || tone_mode == 0x04 || tone_mode == 0x08 || tone_mode == 0x09 {
            ToneType::Tpl
        } else if tone_mode == 0x03 || tone_mode == 0x05 || tone_mode == 0x07 {
            ToneType::Dpl
        } else {
            ToneType::Csq
        }
    }
}

/// The combined tone/squelch function code for a (Tx, Rx) category pair.
///
/// The device has no code point for Tpl on Tx with Dpl on Rx; that pair
/// collapses to the Tpl/Tpl code, a documented limitation of this mapping.
pub open spec fn tone_mode_of(tx: ToneType, rx: ToneType) -> u8 {
    match (tx, rx) {
        (ToneType::Csq, ToneType::Csq) => 0x00,
        (ToneType::Tpl, ToneType::Csq) => 0x01,
        (ToneType::Csq, ToneType::Tpl) => 0x02,
        (ToneType::Csq, ToneType::Dpl) => 0x03,
        (ToneType::Dpl, ToneType::Csq) => 0x06,
        (ToneType::Dpl, ToneType::Dpl) => 0x07,
        (ToneType::Dpl, ToneType::Tpl) => 0x08,
        (ToneType::Tpl, ToneType::Tpl) => 0x09,
        (ToneType::Tpl, ToneType::Dpl) => 0x09,
    }
}

/// The tone category a given side (Tx or Rx) currently uses.
pub fn current_tone_type(tone_mode: u8, is_tx: bool) -> (r: ToneType)
    ensures
        r == tone_type_of(tone_mode, is_tx),
{
    if is_tx {
        if tone_mode == 0x01 || tone_mode == 0x09 {
            ToneType::Tpl
        } else if 0x06 <= tone_mode && tone_mode <= 0x08 {
            ToneType::Dpl
        } else {
            ToneType::Csq
        }
    } else {
        if tone_mode == 0x02 || tone_mode == 0x04 || tone_mode == 0x08 || tone_mode == 0x09 {
            ToneType::Tpl
        } else if tone_mode == 0x03 || tone_mode == 0x05 || tone_mode == 0x07 {
            ToneType::Dpl
        } else {
            ToneType::Csq
        }
    }
}

/// The new tone/squelch function code when one side (Tx or Rx) changes to
/// a new category: the other side keeps its current category.
pub fn compute_tone_mode(current_mode: u8, is_tx: bool, new_type: ToneType) -> (r: u8)
    ensures
        is_tx ==> r == tone_mode_of(new_type, tone_type_of(current_mode, false)),
        !is_tx ==> r == tone_mode_of(tone_type_of(current_mode, true), new_type),
{
    let other_type = current_tone_type(current_mode, !is_tx);
    let (tx, rx) = if is_tx {
        (new_type, other_type)
    } else {
        (other_type, new_type)
    };
    match (tx, rx) {
        (ToneType::Csq, ToneType::Csq) => 0x00,
        (ToneType::Tpl, ToneType::Csq) => 0x01,
        (ToneType::Csq, ToneType::Tpl) => 0x02,
        (ToneType::Csq, ToneType::Dpl) => 0x03,
        (ToneType::Dpl, ToneType::Csq) => 0x06,
        (ToneType::Dpl, ToneType::Dpl) => 0x07,
        (ToneType::Dpl, ToneType::Tpl) => 0x08,
        (ToneType::Tpl, ToneType::Tpl) => 0x09,
        (ToneType::Tpl, ToneType::Dpl) => 0x09,
    }
}

} // verus!
