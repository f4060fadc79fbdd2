use digiblock_test::model::RgbLight;
use digiblock_test::protocol::light_frame;
use digiblock_test::protocol::mode_frame;
use digiblock_test::protocol::output_frame;
use digiblock_test::protocol::reset_pulses_frame;
use digiblock_test::protocol::telemetry_from_registers;

#[test]
fn telemetry_needs_full_arity() {
    assert_eq!(telemetry_from_registers(&[]), Err(()));
    assert_eq!(telemetry_from_registers(&[0, 1, 2, 3, 4, 5]), Err(()));
}

#[test]
fn telemetry_decodes_button_bits() {
    let snap = telemetry_from_registers(&[0b01, 0, 0, 0, 0, 0, 0]).unwrap();
    assert!(snap.left_button);
    assert!(!snap.right_button);
    let snap = telemetry_from_registers(&[0b10, 0, 0, 0, 0, 0, 0]).unwrap();
    assert!(!snap.left_button);
    assert!(snap.right_button);
    let snap = telemetry_from_registers(&[0b11, 0, 0, 0, 0, 0, 0]).unwrap();
    assert!(snap.left_button);
    assert!(snap.right_button);
}

#[test]
fn telemetry_decodes_measurements() {
    let snap = telemetry_from_registers(&[0, 500, 42, 1000, 1, 0, 0]).unwrap();
    assert_eq!(snap.period_us, 500);
    assert_eq!(snap.pulses, 42);
    assert_eq!(snap.ma420, 1000);
    assert!(snap.short_circuit_adc);
    assert!(!snap.short_circuit_out);
    let snap = telemetry_from_registers(&[0, 0, 0, 0, 0, 7, 0]).unwrap();
    assert!(!snap.short_circuit_adc);
    assert!(snap.short_circuit_out);
}

#[test]
fn telemetry_ignores_extra_registers() {
    let snap = telemetry_from_registers(&[0, 1, 2, 3, 0, 0, 0, 99, 99]).unwrap();
    assert_eq!(snap.period_us, 1);
    assert_eq!(snap.pulses, 2);
}

#[test]
fn light_frame_colour_codes() {
    assert_eq!(light_frame(RgbLight::White), (3, vec![100, 6]));
    assert_eq!(light_frame(RgbLight::Red), (3, vec![100, 7]));
    assert_eq!(light_frame(RgbLight::Green), (3, vec![100, 2]));
    assert_eq!(light_frame(RgbLight::Blue), (3, vec![100, 1]));
}

#[test]
fn mode_frame_selectors() {
    assert_eq!(mode_frame(false), (0, vec![1]));
    assert_eq!(mode_frame(true), (0, vec![2]));
}

#[test]
fn output_and_reset_frames() {
    assert_eq!(output_frame(false), (2, vec![0]));
    assert_eq!(output_frame(true), (2, vec![1]));
    assert_eq!(reset_pulses_frame(), (1, vec![1]));
}
