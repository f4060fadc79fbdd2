use digiblock_test::model::DigiblockState;
use digiblock_test::model::Model;
use digiblock_test::model::RgbLight;
use digiblock_test::model::TestState;
use digiblock_test::model::TestStep;

#[test]
fn default_model_is_ready() {
    let model = Model::default();
    assert_eq!(model.state, TestState::Ready);
    assert_eq!(model.light, RgbLight::White);
    assert_eq!(model.config.operatore, 1);
    assert!(model.vbat.is_none());
}

#[test]
fn light_cycles_through_all_colours() {
    let mut model = Model::default();
    assert_eq!(model.next_light(), RgbLight::Red);
    assert_eq!(model.next_light(), RgbLight::Green);
    assert_eq!(model.next_light(), RgbLight::Blue);
    assert_eq!(model.next_light(), RgbLight::White);
    assert_eq!(model.light, RgbLight::White);
}

#[test]
fn step_metadata_codes() {
    assert_eq!(TestStep::InvertPower.metadata().0, "A001");
    assert_eq!(TestStep::Connecting.metadata().0, "A003");
    assert_eq!(TestStep::UiLeftButton.metadata().0, "M001");
    assert_eq!(TestStep::Check3v3.metadata().2, "V");
    assert_eq!(TestStep::Analog.metadata().2, "mA");
    assert_eq!(TestStep::Frequency.metadata().2, "Hz");
    assert_eq!(TestStep::FlashingProduction.metadata().0, "A0012");
}

#[test]
fn step_indices_are_a_bijection() {
    for i in 0..16 {
        assert_eq!(TestStep::of_index(i).index(), i);
    }
}

#[test]
fn vbat_window_keeps_last_eleven_samples() {
    let mut model = Model::default();
    for raw in 0..20u16 {
        model.add_vbat(Some(raw));
    }
    let window = model.vbat.as_ref().unwrap();
    assert_eq!(window.len(), 11);
    assert_eq!(window.first(), Some(&9));
    assert_eq!(window.last(), Some(&19));
}

#[test]
fn vbat_missing_sample_clears_the_window() {
    let mut model = Model::default();
    model.add_vbat(Some(100));
    model.add_vbat(None);
    assert!(model.vbat.is_none());
    assert_eq!(model.get_vbat(), None);
}

#[test]
fn vbat_average_scales_to_centivolts() {
    let mut model = Model::default();
    // 2790 counts stand for exactly 13.60 V.
    model.add_vbat(Some(2790));
    assert_eq!(model.get_vbat(), Some(1360));
    // The average of 2790 and 2700 is 2745 counts: 13.38 V.
    model.add_vbat(Some(2700));
    assert_eq!(model.get_vbat(), Some(1338));
}

#[test]
fn telemetry_snapshot_is_stored() {
    let mut model = Model::default();
    let snap = DigiblockState {
        left_button: true,
        right_button: false,
        period_us: 100,
        pulses: 5,
        ma420: 990,
        short_circuit_adc: false,
        short_circuit_out: true,
    };
    model.digiblock_update(snap);
    assert_eq!(model.digiblock_state, snap);
}
