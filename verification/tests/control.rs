use civ_protocol::command::Command;
use civ_protocol::control::{
    compute_tone_mode, current_tone_type, raw_to_volume_step, to_protocol_command,
    volume_step_to_raw, PowerLevel, RadioCommand, ToneType, Vfo,
};
use civ_protocol::Frequency;

#[test]
fn test_vfo_toggle() {
    assert_eq!(Vfo::A.toggle(), Vfo::B);
    assert_eq!(Vfo::B.toggle(), Vfo::A);
    assert_eq!(Vfo::A.toggle().toggle(), Vfo::A);
}

#[test]
fn test_power_level_to_raw() {
    assert_eq!(PowerLevel::SLow.to_raw(), 0);
    assert_eq!(PowerLevel::Low1.to_raw(), 76);
    assert_eq!(PowerLevel::Low2.to_raw(), 127);
    assert_eq!(PowerLevel::Mid.to_raw(), 179);
    assert_eq!(PowerLevel::High.to_raw(), 255);
}

#[test]
fn test_power_level_from_raw() {
    assert_eq!(PowerLevel::from_raw(0), PowerLevel::SLow);
    assert_eq!(PowerLevel::from_raw(50), PowerLevel::SLow);
    assert_eq!(PowerLevel::from_raw(51), PowerLevel::Low1);
    assert_eq!(PowerLevel::from_raw(101), PowerLevel::Low1);
    assert_eq!(PowerLevel::from_raw(102), PowerLevel::Low2);
    assert_eq!(PowerLevel::from_raw(153), PowerLevel::Low2);
    assert_eq!(PowerLevel::from_raw(154), PowerLevel::Mid);
    assert_eq!(PowerLevel::from_raw(204), PowerLevel::Mid);
    assert_eq!(PowerLevel::from_raw(205), PowerLevel::High);
    assert_eq!(PowerLevel::from_raw(255), PowerLevel::High);
}

#[test]
fn test_power_level_round_trip() {
    for level in [
        PowerLevel::SLow,
        PowerLevel::Low1,
        PowerLevel::Low2,
        PowerLevel::Mid,
        PowerLevel::High,
    ] {
        assert_eq!(PowerLevel::from_raw(level.to_raw()), level);
    }
}

#[test]
fn test_power_level_label() {
    assert_eq!(PowerLevel::SLow.label(), "SLO");
    assert_eq!(PowerLevel::Low1.label(), "LO1");
    assert_eq!(PowerLevel::Low2.label(), "LO2");
    assert_eq!(PowerLevel::Mid.label(), "MID");
    assert_eq!(PowerLevel::High.label(), "MAX");
}

#[test]
fn test_power_level_cycle() {
    assert_eq!(PowerLevel::SLow.cycle_up(), PowerLevel::Low1);
    assert_eq!(PowerLevel::High.cycle_up(), PowerLevel::High);
    assert_eq!(PowerLevel::High.cycle_down(), PowerLevel::Mid);
    assert_eq!(PowerLevel::SLow.cycle_down(), PowerLevel::SLow);
}

#[test]
fn test_volume_step_to_raw_values() {
    assert_eq!(volume_step_to_raw(0), 3);
    assert_eq!(volume_step_to_raw(1), 9);
    assert_eq!(volume_step_to_raw(2), 16);
    assert_eq!(volume_step_to_raw(39), 252);
    // Steps above the scale clamp to the top.
    assert_eq!(volume_step_to_raw(45), 252);
}

#[test]
fn test_raw_to_volume_step_values() {
    assert_eq!(raw_to_volume_step(0), 0);
    assert_eq!(raw_to_volume_step(3), 0);
    assert_eq!(raw_to_volume_step(9), 1);
    assert_eq!(raw_to_volume_step(16), 2);
    assert_eq!(raw_to_volume_step(252), 39);
    assert_eq!(raw_to_volume_step(255), 39);
}

#[test]
fn test_volume_step_round_trip() {
    for step in 0..=39u16 {
        assert_eq!(
            raw_to_volume_step(volume_step_to_raw(step)),
            step,
            "roundtrip failed for step {step}"
        );
    }
}

#[test]
fn test_current_tone_type() {
    // Tx side.
    assert_eq!(current_tone_type(0x00, true), ToneType::Csq);
    assert_eq!(current_tone_type(0x01, true), ToneType::Tpl);
    assert_eq!(current_tone_type(0x09, true), ToneType::Tpl);
    assert_eq!(current_tone_type(0x06, true), ToneType::Dpl);
    assert_eq!(current_tone_type(0x08, true), ToneType::Dpl);
    assert_eq!(current_tone_type(0x02, true), ToneType::Csq);
    // Rx side.
    assert_eq!(current_tone_type(0x00, false), ToneType::Csq);
    assert_eq!(current_tone_type(0x02, false), ToneType::Tpl);
    assert_eq!(current_tone_type(0x09, false), ToneType::Tpl);
    assert_eq!(current_tone_type(0x03, false), ToneType::Dpl);
    assert_eq!(current_tone_type(0x07, false), ToneType::Dpl);
    assert_eq!(current_tone_type(0x01, false), ToneType::Csq);
}

#[test]
fn test_compute_tone_mode() {
    // Starting from carrier squelch both ways, enable a Tx tone.
    assert_eq!(compute_tone_mode(0x00, true, ToneType::Tpl), 0x01);
    // With a Tx tone active, add an Rx tone: both sides tone.
    assert_eq!(compute_tone_mode(0x01, false, ToneType::Tpl), 0x09);
    // With DTCS both ways, drop the Rx side to carrier squelch.
    assert_eq!(compute_tone_mode(0x07, false, ToneType::Csq), 0x06);
    // Changing Rx to DTCS while Tx stays carrier squelch.
    assert_eq!(compute_tone_mode(0x00, false, ToneType::Dpl), 0x03);
    // Tx DTCS with Rx tone.
    assert_eq!(compute_tone_mode(0x08, true, ToneType::Dpl), 0x08);
}

#[test]
fn test_compute_tone_mode_fallback() {
    // Tx tone with Rx DTCS has no device code point and collapses to the
    // both-sides-tone code.
    assert_eq!(compute_tone_mode(0x03, true, ToneType::Tpl), 0x09);
}

#[test]
fn test_to_protocol_command() {
    let freq = Frequency::from_hz(145_000_000).unwrap();
    assert_eq!(
        to_protocol_command(&RadioCommand::SetFrequency(freq)),
        Some(Command::SetFrequency(freq))
    );
    assert_eq!(
        to_protocol_command(&RadioCommand::SetAfLevel(128)),
        Some(Command::SetLevel(0x01, 128))
    );
    assert_eq!(
        to_protocol_command(&RadioCommand::SelectVfo(Vfo::B)),
        Some(Command::SelectVfoB)
    );
    assert_eq!(
        to_protocol_command(&RadioCommand::SetToneMode(0x09)),
        Some(Command::SetVarious(0x5D, 0x09))
    );
    assert_eq!(
        to_protocol_command(&RadioCommand::SetDtcsCode(1, 0, 754)),
        Some(Command::SetDtcs(1, 0, 754))
    );
    assert_eq!(to_protocol_command(&RadioCommand::Quit), None);
}
