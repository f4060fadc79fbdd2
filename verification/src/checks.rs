//! Numeric evaluation of the bench checks: acceptance of measured values,
//! the fixed scalings from raw ADC counts to engineering units, the
//! period-to-frequency conversion, and the pass/fail decisions of the
//! short-circuit and digital-output checks. Everything here is a pure
//! function from the raw readings the bench hardware hands back.

use vstd::prelude::*;

use crate::model::TestStep;

verus! {

/// ADC channels of the bench's sampling chip.
#[derive(Clone, Copy, Debug, PartialEq, Eq, Structural)]
pub enum Channel {
    VBat,
    PowerConsumption,
    Out1,
    VRef,
    Press,
    Volt5,
    Supply,
    Volt3,
}

/// Bench relays driven over GPIO.
#[derive(Clone, Copy, Debug, PartialEq, Eq, Structural)]
pub enum Rele {
    ShortCircuitOutput,
    ShortCircuitAnalog,
    CorrectPower,
    IncorrectPower,
    UsbGround,
    DigitalMode,
    AnalogMode,
}

/// ADC count separating a low digital-output level from a high one.
pub const OUTPUT_LEVEL_THRESHOLD: u16 = 1000;

/// ADC count above which the inverted-power consumption is excessive.
pub const POWER_INVERSION_LIMIT: u16 = 2050;

/// Division rounded to the nearest integer, halves away from zero.
pub open spec fn rounded_div(n: int, d: int) -> int
    recommends
        d > 0,
{
    (2 * n + d) / (2 * d)
}

impl Channel {
    /// Selection code of the channel in the ADC request frame.
    pub open spec fn code_spec(self) -> u8 {
        match self {
            Channel::VBat => 0,
            Channel::PowerConsumption => 1,
            Channel::Out1 => 2,
            Channel::VRef => 3,
            Channel::Press => 4,
            Channel::Volt5 => 5,
            Channel::Supply => 6,
            Channel::Volt3 => 7,
        }
    }

    /// Selection code of the channel in the ADC request frame.
    pub fn code(self) -> (r: u8)
        ensures
            r == self.code_spec(),
            r < 8,
    {
        match self {
            Channel::VBat => 0,
            Channel::PowerConsumption => 1,
            Channel::Out1 => 2,
            Channel::VRef => 3,
            Channel::Press => 4,
            Channel::Volt5 => 5,
            Channel::Supply => 6,
            Channel::Volt3 => 7,
        }
    }
}

/// The four-byte SPI request frame that samples a channel: a start bit, a
/// single-ended mode bit, and the channel code, packed from the top of the
/// first byte; the remaining bits clock the response in.
pub fn adc_request_frame(channel: Channel) -> (r: [u8; 4])
    ensures
        r@ == seq![(0xC0 + channel.code_spec() * 8) as u8, 0u8, 0u8, 0u8],
{
    let code: u8 = channel.code();
    let first: u8 = 0xC0 | (code << 3);
    assert(0xC0u8 | (code << 3) == (0xC0 + code * 8) as u8) by (bit_vector)
        requires
            code < 8,
    ;
    let r: [u8; 4] = [first, 0, 0, 0];
    assert(r@ =~= seq![(0xC0 + channel.code_spec() * 8) as u8, 0u8, 0u8, 0u8]);
    r
}

/// The raw count carried in an ADC response frame: the low bit of the first
/// byte, the whole second byte, and the top three bits of the third, read as
/// one big-endian field.
pub open spec fn adc_response_value(b0: u8, b1: u8, b2: u8) -> int {
    (b0 as int % 2) * 2048 + b1 as int * 8 + b2 as int / 32
}

/// Extracts the sampled count from the four bytes clocked back by the ADC.
pub fn adc_value_from_response(buf: &[u8; 4]) -> (r: u16)
    ensures
        r == adc_response_value(buf[0], buf[1], buf[2]),
        r < 4096,
{
    let b0: u16 = buf[0] as u16;
    let b1: u16 = buf[1] as u16;
    let b2: u16 = buf[2] as u16;
    let r: u16 = ((b0 & 0x1) << 11) | (b1 << 3) | ((b2 & 0xE0) >> 5);
    assert((((b0 & 0x1) << 11) | (b1 << 3) | ((b2 & 0xE0) >> 5)) == (b0 % 2) * 2048 + b1 * 8 + b2
        / 32 && (((b0 & 0x1) << 11) | (b1 << 3) | ((b2 & 0xE0) >> 5)) < 4096) by (bit_vector)
        requires
            b0 < 256 && b1 < 256 && b2 < 256,
    ;
    r
}

impl Rele {
    /// GPIO pin that drives the relay.
    pub open spec fn gpio_pin_spec(self) -> u8 {
        match self {
            Rele::ShortCircuitOutput => 14,
            Rele::ShortCircuitAnalog => 2,
            Rele::AnalogMode => 3,
            Rele::CorrectPower => 4,
            Rele::IncorrectPower => 17,
            Rele::UsbGround => 25,
            Rele::DigitalMode => 22,
        }
    }

    /// GPIO pin that drives the relay.
    pub fn gpio_pin(self) -> (r: u8)
        ensures
            r == self.gpio_pin_spec(),
    {
        match self {
            Rele::ShortCircuitOutput => 14,
            Rele::ShortCircuitAnalog => 2,
            Rele::AnalogMode => 3,
            Rele::CorrectPower => 4,
            Rele::IncorrectPower => 17,
            Rele::UsbGround => 25,
            Rele::DigitalMode => 22,
        }
    }

    /// The relay that must be released before this one is asserted: the two
    /// power relays exclude each other, as do the two mode relays.
    pub fn antagonist(self) -> (r: Option<Rele>)
        ensures
            r == match self {
                Rele::CorrectPower => Some(Rele::IncorrectPower),
                Rele::IncorrectPower => Some(Rele::CorrectPower),
                Rele::DigitalMode => Some(Rele::AnalogMode),
                Rele::AnalogMode => Some(Rele::DigitalMode),
                _ => None::<Rele>,
            },
    {
        match self {
            Rele::CorrectPower => Some(Rele::IncorrectPower),
            Rele::IncorrectPower => Some(Rele::CorrectPower),
            Rele::DigitalMode => Some(Rele::AnalogMode),
            Rele::AnalogMode => Some(Rele::DigitalMode),
            _ => None,
        }
    }
}

/// A measured value lies within a declared interval; with no interval
/// declared there is nothing the value could satisfy.
pub fn check_value_within(found: u32, limits: Option<(u32, u32)>) -> (r: bool)
    ensures
        r == match limits {
            Some((min, max)) => min <= found && found <= max,
            None => false,
        },
{
    if let Some((min, max)) = limits {
        found >= min && found <= max
    } else {
        false
    }
}

/// The fixed linear scaling from a raw ADC count to hundredths of a volt on
/// the rail a step checks: the 3v3 and 5v rails sit behind a divide-by-two
/// divider on a 3.35 V full-scale, 12-bit converter; the supply rail behind
/// a 13.43/1.43 divider. Steps that check no rail scale to zero.
pub open spec fn rail_centivolts_spec(step: TestStep, raw: u16) -> int {
    match step {
        TestStep::Check3v3 => rounded_div(raw as int * 670, 4095),
        TestStep::Check5v => rounded_div(raw as int * 670, 4095),
        TestStep::Check12v => rounded_div(raw as int * 449905, 585585),
        _ => 0,
    }
}

/// Scales a raw ADC count to hundredths of a volt for a rail-check step.
pub fn rail_centivolts(step: TestStep, raw: u16) -> (r: u32)
    ensures
        r == rail_centivolts_spec(step, raw),
{
    match step {
        TestStep::Check3v3 | TestStep::Check5v => {
            let n: u64 = raw as u64 * 670;
            ((2 * n + 4095) / (2 * 4095)) as u32
        },
        TestStep::Check12v => {
            let n: u64 = raw as u64 * 449905;
            ((2 * n + 585585) / (2 * 585585)) as u32
        },
        _ => 0,
    }
}

/// Frequency, in hundredths of a hertz, that a measured pulse period in
/// microseconds stands for; a zero period reads as zero frequency.
pub open spec fn frequency_centihz_spec(period_us: u16) -> int {
    if period_us == 0 {
        0
    } else {
        100000000int / period_us as int
    }
}

/// Converts the device's measured pulse period to hundredths of a hertz.
pub fn frequency_centihz(period_us: u16) -> (r: u32)
    ensures
        r == frequency_centihz_spec(period_us),
{
    if period_us == 0 {
        0
    } else {
        100000000 / period_us as u32
    }
}

/// The short-circuit checks pass when the fault line is silent while the
/// forcing relay is released and reports a fault once it is asserted.
pub fn short_circuit_detected(idle_fault: bool, forced_fault: bool) -> (r: bool)
    ensures
        r == (!idle_fault && forced_fault),
{
    !idle_fault && forced_fault
}

/// The digital-output check passes when the read-back ADC count is above
/// the level threshold while the output is commanded high and at or below
/// it while commanded low.
pub fn output_check_passed(high_raw: u16, low_raw: u16) -> (r: bool)
    ensures
        r == (high_raw >= OUTPUT_LEVEL_THRESHOLD && low_raw <= OUTPUT_LEVEL_THRESHOLD),
{
    high_raw >= OUTPUT_LEVEL_THRESHOLD && low_raw <= OUTPUT_LEVEL_THRESHOLD
}

/// The power-inversion check passes when the consumption sampled under
/// inverted supply stayed below the limit; a failed sampling fails it.
pub fn power_inversion_ok(raw: Option<u16>) -> (r: bool)
    ensures
        r == match raw {
            Some(v) => v < POWER_INVERSION_LIMIT,
            None => false,
        },
{
    match raw {
        Some(v) => v < POWER_INVERSION_LIMIT,
        None => false,
    }
}

/// A firmware-programming run succeeded exactly when the external tool
/// exited with status zero.
pub fn flash_success(exit_code: Option<i32>) -> (r: bool)
    ensures
        r == (exit_code == Some(0i32)),
{
    match exit_code {
        Some(code) => code == 0,
        None => false,
    }
}

} // verus!
