//! Register-level protocol adapter for the device under test: decoding the
//! input-register block into a telemetry snapshot, and encoding each command
//! intent as a holding-register write frame.
//!
//! Canonical input-register layout (one block of seven registers): register
//! 0 carries the button levels in bits 0 (left) and 1 (right); register 1
//! the measured pulse period in microseconds; register 2 the pulse count;
//! register 3 the measured loop current in hundredths of a milliampere;
//! register 4, when nonzero, a fault on the analog line; register 5, when
//! nonzero, a fault on the digital output; register 6 is reserved.

use vstd::prelude::*;

use crate::model::DigiblockState;
use crate::model::RgbLight;

verus! {

/// First input register of the telemetry block.
pub const INPUT_REGISTER_FIRST: u16 = 0;

/// Number of input registers the telemetry block must carry.
pub const NUM_INPUT_REGISTERS: u16 = 7;

/// Holding register selecting the operating mode.
pub const HOLDING_REGISTER_MODE: u16 = 0;

/// Holding register that resets the pulse counter when written.
pub const HOLDING_REGISTER_RESET_PULSES: u16 = 1;

/// Holding register commanding the digital output level.
pub const HOLDING_REGISTER_OUTPUT: u16 = 2;

/// First holding register of the backlight pair: intensity, then colour.
pub const HOLDING_REGISTER_BACKLIGHT: u16 = 3;

/// Mode-selector value for digital (frequency counting) mode.
pub const DIGITAL_MODE: u16 = 1;

/// Mode-selector value for analog (current loop) mode.
pub const ANALOG_MODE: u16 = 2;

/// The telemetry snapshot a full register block denotes.
pub open spec fn telemetry_spec(regs: Seq<u16>) -> DigiblockState
    recommends
        regs.len() >= NUM_INPUT_REGISTERS,
{
    DigiblockState {
        left_button: regs[0] as int % 2 == 1,
        right_button: (regs[0] as int / 2) % 2 == 1,
        period_us: regs[1],
        pulses: regs[2],
        ma420: regs[3],
        short_circuit_adc: regs[4] != 0,
        short_circuit_out: regs[5] != 0,
    }
}

/// Decodes the input-register block read from the device. A block shorter
/// than the full telemetry arity is a conversion failure, never a partial
/// snapshot.
pub fn telemetry_from_registers(regs: &[u16]) -> (r: Result<DigiblockState, ()>)
    ensures
        regs@.len() < NUM_INPUT_REGISTERS ==> r is Err,
        regs@.len() >= NUM_INPUT_REGISTERS ==> r == Ok::<DigiblockState, ()>(
            telemetry_spec(regs@),
        ),
{
    if regs.len() < NUM_INPUT_REGISTERS as usize {
        Err(())
    } else {
        let r0: u16 = regs[0];
        let left: bool = r0 & 0x01 > 0;
        let right: bool = r0 & 0x02 > 0;
        assert((r0 & 0x01 > 0) == (r0 % 2 == 1) && (r0 & 0x02 > 0) == ((r0 / 2) % 2 == 1))
            by (bit_vector);
        Ok(
            DigiblockState {
                left_button: left,
                right_button: right,
                period_us: regs[1],
                pulses: regs[2],
                ma420: regs[3],
                short_circuit_adc: regs[4] != 0,
                short_circuit_out: regs[5] != 0,
            },
        )
    }
}

/// Colour selector code the backlight register expects.
pub open spec fn light_code_spec(light: RgbLight) -> u16 {
    match light {
        RgbLight::White => 6,
        RgbLight::Red => 7,
        RgbLight::Green => 2,
        RgbLight::Blue => 1,
    }
}

/// The holding-register write that sets the backlight: full intensity and
/// the colour selector, written as one pair at the backlight register.
pub fn light_frame(light: RgbLight) -> (r: (u16, Vec<u16>))
    ensures
        r.0 == HOLDING_REGISTER_BACKLIGHT,
        r.1@ =~= seq![100u16, light_code_spec(light)],
{
    let code: u16 = match light {
        RgbLight::White => 6,
        RgbLight::Red => 7,
        RgbLight::Green => 2,
        RgbLight::Blue => 1,
    };
    let mut values: Vec<u16> = Vec::new();
    values.push(100);
    values.push(code);
    (HOLDING_REGISTER_BACKLIGHT, values)
}

/// The holding-register write that selects the operating mode.
pub fn mode_frame(analog: bool) -> (r: (u16, Vec<u16>))
    ensures
        r.0 == HOLDING_REGISTER_MODE,
        r.1@ =~= seq![if analog { ANALOG_MODE } else { DIGITAL_MODE }],
{
    let mut values: Vec<u16> = Vec::new();
    values.push(if analog {
        ANALOG_MODE
    } else {
        DIGITAL_MODE
    });
    (HOLDING_REGISTER_MODE, values)
}

/// The holding-register write that triggers a pulse-counter reset.
pub fn reset_pulses_frame() -> (r: (u16, Vec<u16>))
    ensures
        r.0 == HOLDING_REGISTER_RESET_PULSES,
        r.1@ =~= seq![1u16],
{
    let mut values: Vec<u16> = Vec::new();
    values.push(1);
    (HOLDING_REGISTER_RESET_PULSES, values)
}

/// The holding-register write that drives the digital output level.
pub fn output_frame(level: bool) -> (r: (u16, Vec<u16>))
    ensures
        r.0 == HOLDING_REGISTER_OUTPUT,
        r.1@ =~= seq![if level { 1u16 } else { 0u16 }],
{
    let mut values: Vec<u16> = Vec::new();
    values.push(if level {
        1
    } else {
        0
    });
    (HOLDING_REGISTER_OUTPUT, values)
}

} // verus!
