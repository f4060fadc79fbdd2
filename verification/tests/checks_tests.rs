use digiblock_test::checks::adc_request_frame;
use digiblock_test::checks::adc_value_from_response;
use digiblock_test::checks::check_value_within;
use digiblock_test::checks::flash_success;
use digiblock_test::checks::frequency_centihz;
use digiblock_test::checks::output_check_passed;
use digiblock_test::checks::power_inversion_ok;
use digiblock_test::checks::rail_centivolts;
use digiblock_test::checks::short_circuit_detected;
use digiblock_test::checks::Channel;
use digiblock_test::checks::Rele;
use digiblock_test::model::TestStep;

#[test]
fn value_within_boundaries_pass() {
    assert!(check_value_within(325, Some((325, 355))));
    assert!(check_value_within(355, Some((325, 355))));
    assert!(check_value_within(340, Some((325, 355))));
    assert!(!check_value_within(324, Some((325, 355))));
    assert!(!check_value_within(356, Some((325, 355))));
}

#[test]
fn value_without_interval_never_within() {
    assert!(!check_value_within(0, None));
    assert!(!check_value_within(12345, None));
}

#[test]
fn step_limits_accept_boundaries() {
    for step in [
        TestStep::InvertPower,
        TestStep::Check3v3,
        TestStep::Check5v,
        TestStep::Check12v,
        TestStep::Analog,
        TestStep::Frequency,
    ] {
        let (min, max) = step.limits().expect("step has an interval");
        assert!(step.check_limits(min));
        assert!(step.check_limits(max));
        if min > 0 {
            assert!(!step.check_limits(min - 1));
        }
        assert!(!step.check_limits(max + 1));
    }
}

#[test]
fn step_without_limits_always_passes() {
    assert_eq!(TestStep::UiLCD.limits(), None);
    assert!(TestStep::UiLCD.check_limits(0));
    assert!(TestStep::UiLCD.check_limits(4_000_000_000));
}

#[test]
fn limit_values_in_hundredths() {
    assert_eq!(TestStep::Check3v3.limits(), Some((325, 355)));
    assert_eq!(TestStep::Check5v.limits(), Some((490, 510)));
    assert_eq!(TestStep::Check12v.limits(), Some((1190, 1280)));
    assert_eq!(TestStep::Analog.limits(), Some((975, 1025)));
    assert_eq!(TestStep::Frequency.limits(), Some((199500, 200500)));
    assert_eq!(TestStep::InvertPower.limits(), Some((0, 0)));
}

#[test]
fn frequency_conversion_exact() {
    assert_eq!(frequency_centihz(0), 0);
    assert_eq!(frequency_centihz(500), 200_000);
    assert_eq!(frequency_centihz(497), 201_207);
    assert_eq!(frequency_centihz(1), 100_000_000);
}

#[test]
fn rail_scaling_rounds_to_centivolts() {
    // 1984 counts behind the divide-by-two divider sit exactly on the
    // lower bound of the 3v3 interval.
    assert_eq!(rail_centivolts(TestStep::Check3v3, 1984), 325);
    assert_eq!(rail_centivolts(TestStep::Check5v, 3056), 500);
    assert_eq!(rail_centivolts(TestStep::Check12v, 1610), 1237);
    assert_eq!(rail_centivolts(TestStep::Check3v3, 0), 0);
    // Full scale: 4095 * 670 / 4095 = 670.
    assert_eq!(rail_centivolts(TestStep::Check3v3, 4095), 670);
    // A step that checks no rail scales to zero.
    assert_eq!(rail_centivolts(TestStep::Output, 4095), 0);
}

#[test]
fn short_circuit_needs_silent_then_fault() {
    assert!(short_circuit_detected(false, true));
    assert!(!short_circuit_detected(true, true));
    assert!(!short_circuit_detected(false, false));
    assert!(!short_circuit_detected(true, false));
}

#[test]
fn output_check_threshold() {
    assert!(output_check_passed(1000, 1000));
    assert!(output_check_passed(4095, 0));
    assert!(!output_check_passed(999, 0));
    assert!(!output_check_passed(4095, 1001));
}

#[test]
fn power_inversion_limit() {
    assert!(power_inversion_ok(Some(2049)));
    assert!(!power_inversion_ok(Some(2050)));
    assert!(!power_inversion_ok(None));
}

#[test]
fn flash_success_is_exit_zero() {
    assert!(flash_success(Some(0)));
    assert!(!flash_success(Some(1)));
    assert!(!flash_success(Some(-1)));
    assert!(!flash_success(None));
}

#[test]
fn adc_request_frame_packs_channel() {
    assert_eq!(adc_request_frame(Channel::VBat), [0xC0, 0, 0, 0]);
    assert_eq!(adc_request_frame(Channel::Volt3), [0xC0 | (7 << 3), 0, 0, 0]);
    assert_eq!(adc_request_frame(Channel::Supply), [0xC0 | (6 << 3), 0, 0, 0]);
}

#[test]
fn adc_response_extraction() {
    // All eleven data bits set: 0b1 in byte 0, 0xFF in byte 1, top three
    // bits of byte 2.
    assert_eq!(adc_value_from_response(&[0x01, 0xFF, 0xE0, 0x00]), 4095);
    assert_eq!(adc_value_from_response(&[0x00, 0x00, 0x00, 0x00]), 0);
    // Only the low three bits from byte 2's top bits.
    assert_eq!(adc_value_from_response(&[0x00, 0x00, 0x20, 0x00]), 1);
    // Ignored bits of bytes 0 and 2 do not leak into the value.
    assert_eq!(adc_value_from_response(&[0xFE, 0x00, 0x1F, 0xFF]), 0);
}

#[test]
fn relay_pin_mapping() {
    assert_eq!(Rele::ShortCircuitOutput.gpio_pin(), 14);
    assert_eq!(Rele::ShortCircuitAnalog.gpio_pin(), 2);
    assert_eq!(Rele::AnalogMode.gpio_pin(), 3);
    assert_eq!(Rele::CorrectPower.gpio_pin(), 4);
    assert_eq!(Rele::IncorrectPower.gpio_pin(), 17);
    assert_eq!(Rele::UsbGround.gpio_pin(), 25);
    assert_eq!(Rele::DigitalMode.gpio_pin(), 22);
}

#[test]
fn relay_antagonists() {
    assert_eq!(Rele::CorrectPower.antagonist(), Some(Rele::IncorrectPower));
    assert_eq!(Rele::IncorrectPower.antagonist(), Some(Rele::CorrectPower));
    assert_eq!(Rele::DigitalMode.antagonist(), Some(Rele::AnalogMode));
    assert_eq!(Rele::AnalogMode.antagonist(), Some(Rele::DigitalMode));
    assert_eq!(Rele::UsbGround.antagonist(), None);
}
