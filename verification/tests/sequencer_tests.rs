use digiblock_test::actor::ActorInput;
use digiblock_test::actor::ControllerEvent;
use digiblock_test::actor::ControllerMessage;
use digiblock_test::actor::DeviceActor;
use digiblock_test::actor::TestReadings;
use digiblock_test::model::DigiblockState;
use digiblock_test::model::Model;
use digiblock_test::model::StepState;
use digiblock_test::model::TestState;
use digiblock_test::model::TestStep;
use digiblock_test::report::Timestamp;
use digiblock_test::sequencer::SequencerAction;

fn now() -> Timestamp {
    Timestamp { year: 2024, month: 5, day: 2, hour: 9, minute: 0, second: 0, epoch_s: 1000 }
}

fn buttons(left: bool, right: bool) -> DigiblockState {
    DigiblockState {
        left_button: left,
        right_button: right,
        period_us: 0,
        pulses: 0,
        ma420: 0,
        short_circuit_adc: false,
        short_circuit_out: false,
    }
}

fn entry(model: &Model, step: TestStep) -> Option<digiblock_test::report::TestStepResult> {
    model.report.tests[step.index()]
}

#[test]
fn start_enters_power_inversion() {
    let mut model = Model::default();
    let acts = model.start(now());
    assert_eq!(model.state, TestState::Testing(TestStep::InvertPower, StepState::Waiting));
    assert_eq!(acts, vec![SequencerAction::PerformPowerInversion]);
    assert!(model.report.tests.iter().all(|slot| slot.is_none()));
}

#[test]
fn start_clears_earlier_results_but_keeps_barcode() {
    let mut model = Model::default();
    model.report.barcode.change_field_num(4, String::from("SN1"));
    model.handle_result(TestStep::Connecting, None, true, 5);
    let _ = model.start(now());
    assert!(model.report.tests.iter().all(|slot| slot.is_none()));
    assert_eq!(model.report.barcode.matricola, "SN1");
    assert_eq!(model.report.start.epoch_s, 1000);
}

#[test]
fn failure_halts_on_the_step() {
    let mut model = Model::default();
    let _ = model.start(now());
    let acts = model.handle_result(TestStep::InvertPower, None, false, 7);
    assert_eq!(model.state, TestState::Testing(TestStep::InvertPower, StepState::Failed));
    assert!(acts.is_empty());
    let rec = entry(&model, TestStep::InvertPower).unwrap();
    assert!(!rec.success);
    assert_eq!(rec.value, None);
    assert_eq!(rec.duration_ms, 7);
}

#[test]
fn success_walks_the_procedure() {
    let mut model = Model::default();
    let _ = model.start(now());
    let acts = model.handle_result(TestStep::InvertPower, None, true, 1);
    assert_eq!(model.state, TestState::Testing(TestStep::FlashingTest, StepState::Waiting));
    assert_eq!(acts, vec![SequencerAction::FlashTestFirmware]);
    let acts = model.handle_result(TestStep::FlashingTest, None, true, 1);
    assert_eq!(model.state, TestState::Testing(TestStep::Connecting, StepState::Waiting));
    assert_eq!(
        acts,
        vec![SequencerAction::SendCommand(ControllerMessage::Connect(String::from(
            "/dev/ttyACM0",
        )))],
    );
}

#[test]
fn telemetry_while_connecting_advances() {
    let mut model = Model::default();
    model.state = TestState::Testing(TestStep::Connecting, StepState::Waiting);
    model.on_telemetry(buttons(false, false), 3);
    assert_eq!(model.state, TestState::Testing(TestStep::UiLeftButton, StepState::Waiting));
}

#[test]
fn both_buttons_skip_right_button_stage() {
    let mut model = Model::default();
    model.state = TestState::Testing(TestStep::UiLeftButton, StepState::Waiting);
    model.on_telemetry(buttons(true, true), 9);
    assert_eq!(model.state, TestState::Testing(TestStep::UiLCD, StepState::Waiting));
    assert!(entry(&model, TestStep::UiLeftButton).unwrap().success);
    assert!(entry(&model, TestStep::UiRightButton).unwrap().success);
}

#[test]
fn left_button_alone_awaits_the_right() {
    let mut model = Model::default();
    model.state = TestState::Testing(TestStep::UiLeftButton, StepState::Waiting);
    model.on_telemetry(buttons(true, false), 9);
    assert_eq!(model.state, TestState::Testing(TestStep::UiRightButton, StepState::Waiting));
    assert!(entry(&model, TestStep::UiLeftButton).unwrap().success);
    assert!(entry(&model, TestStep::UiRightButton).is_none());
}

#[test]
fn no_button_stays_waiting() {
    let mut model = Model::default();
    model.state = TestState::Testing(TestStep::UiLeftButton, StepState::Waiting);
    model.on_telemetry(buttons(false, true), 9);
    assert_eq!(model.state, TestState::Testing(TestStep::UiLeftButton, StepState::Waiting));
    assert!(entry(&model, TestStep::UiLeftButton).is_none());
    assert!(entry(&model, TestStep::UiRightButton).is_none());
}

#[test]
fn right_button_stage_waits_for_right() {
    let mut model = Model::default();
    model.state = TestState::Testing(TestStep::UiRightButton, StepState::Waiting);
    model.on_telemetry(buttons(true, false), 2);
    assert_eq!(model.state, TestState::Testing(TestStep::UiRightButton, StepState::Waiting));
    model.on_telemetry(buttons(false, true), 2);
    assert_eq!(model.state, TestState::Testing(TestStep::UiLCD, StepState::Waiting));
    assert!(entry(&model, TestStep::UiRightButton).unwrap().success);
}

#[test]
fn rails_all_pass_advance_to_analog_short_circuit() {
    let mut model = Model::default();
    model.report.barcode.change_field_num(5, String::from("2"));
    model.state = TestState::Testing(TestStep::UiRgb, StepState::Waiting);
    let acts = model.rails_result(Some(1984), Some(3056), Some(1610), 40);
    assert_eq!(
        model.state,
        TestState::Testing(TestStep::AnalogShortCircuit, StepState::Waiting),
    );
    assert_eq!(
        acts,
        vec![SequencerAction::SendCommand(ControllerMessage::Test(
            TestStep::AnalogShortCircuit,
        ))],
    );
    // The 3v3 rail sat exactly on the interval's lower bound and passed.
    let rec = entry(&model, TestStep::Check3v3).unwrap();
    assert!(rec.success);
    assert_eq!(rec.value, Some(325));
    assert!(entry(&model, TestStep::Check5v).unwrap().success);
    assert!(entry(&model, TestStep::Check12v).unwrap().success);
}

#[test]
fn base_variant_skips_5v_rail() {
    let mut model = Model::default();
    model.report.barcode.change_field_num(5, String::from("1"));
    model.state = TestState::Testing(TestStep::UiRgb, StepState::Waiting);
    let _ = model.rails_result(Some(1984), None, Some(1610), 40);
    assert_eq!(
        model.state,
        TestState::Testing(TestStep::AnalogShortCircuit, StepState::Waiting),
    );
    assert!(entry(&model, TestStep::Check5v).is_none());
}

#[test]
fn first_bad_rail_halts_and_leaves_later_rails_unread() {
    let mut model = Model::default();
    model.report.barcode.change_field_num(5, String::from("2"));
    model.state = TestState::Testing(TestStep::UiRgb, StepState::Waiting);
    // 1000 counts scale to 164 centivolts, far under the 3v3 interval.
    let acts = model.rails_result(Some(1000), Some(3056), Some(1610), 40);
    assert_eq!(model.state, TestState::Testing(TestStep::Check3v3, StepState::Failed));
    assert!(acts.is_empty());
    let rec = entry(&model, TestStep::Check3v3).unwrap();
    assert!(!rec.success);
    assert_eq!(rec.value, Some(164));
    assert!(entry(&model, TestStep::Check5v).is_none());
    assert!(entry(&model, TestStep::Check12v).is_none());
}

#[test]
fn failed_rail_sampling_counts_as_failure() {
    let mut model = Model::default();
    model.report.barcode.change_field_num(5, String::from("2"));
    let _ = model.rails_result(None, Some(3056), Some(1610), 40);
    assert_eq!(model.state, TestState::Testing(TestStep::Check3v3, StepState::Failed));
    let rec = entry(&model, TestStep::Check3v3).unwrap();
    assert!(!rec.success);
    assert_eq!(rec.value, None);
}

#[test]
fn frequency_failure_recorded_with_measured_value() {
    // A frequency check commanded at 2000 Hz whose readback period stands
    // for 2012.07 Hz: the actor reports the measured value, the sequencer
    // records the failure and halts.
    let mut actor = DeviceActor::new();
    let _ = actor.step(ActorInput::Connect(true));
    let events = actor.step(
        ActorInput::Test(TestStep::Frequency, TestReadings::PeriodSample(Some(497))),
    );
    let mut model = Model::default();
    model.state = TestState::Testing(TestStep::Frequency, StepState::Waiting);
    for event in events {
        match event {
            ControllerEvent::TestResult(step, value, success) => {
                let _ = model.handle_result(step, value, success, 30);
            },
            _ => {},
        }
    }
    assert_eq!(model.state, TestState::Testing(TestStep::Frequency, StepState::Failed));
    let rec = entry(&model, TestStep::Frequency).unwrap();
    assert!(!rec.success);
    assert_eq!(rec.value, Some(201207));
}

#[test]
fn output_check_timeout_halts_without_value() {
    // The bus transaction of the output check timed out: the actor reports
    // a failure carrying no measured value, and the run halts on the
    // output step.
    let mut actor = DeviceActor::new();
    let _ = actor.step(ActorInput::Connect(true));
    let events = actor.step(ActorInput::Test(TestStep::Output, TestReadings::OutputLevels(None)));
    assert_eq!(events, vec![ControllerEvent::TestResult(TestStep::Output, None, false)]);
    let mut model = Model::default();
    model.state = TestState::Testing(TestStep::Output, StepState::Waiting);
    let _ = model.handle_result(TestStep::Output, None, false, 55);
    assert_eq!(model.state, TestState::Testing(TestStep::Output, StepState::Failed));
    let rec = entry(&model, TestStep::Output).unwrap();
    assert!(!rec.success);
    assert_eq!(rec.value, None);
}

#[test]
fn retry_on_failed_rail_rereads_and_overwrites() {
    let mut model = Model::default();
    model.report.barcode.change_field_num(5, String::from("2"));
    let _ = model.rails_result(Some(1000), Some(3056), Some(1610), 40);
    assert_eq!(model.state, TestState::Testing(TestStep::Check3v3, StepState::Failed));
    let acts = model.retry();
    assert_eq!(acts, vec![SequencerAction::PerformRailChecks]);
    let _ = model.rails_result(Some(1984), Some(3056), Some(1610), 70);
    let rec = entry(&model, TestStep::Check3v3).unwrap();
    assert!(rec.success);
    assert_eq!(rec.value, Some(325));
    assert_eq!(rec.duration_ms, 70);
    assert_eq!(
        model.state,
        TestState::Testing(TestStep::AnalogShortCircuit, StepState::Waiting),
    );
}

#[test]
fn retry_reissues_the_step_command() {
    let mut model = Model::default();
    model.state = TestState::Testing(TestStep::Output, StepState::Failed);
    let acts = model.retry();
    assert_eq!(model.state, TestState::Testing(TestStep::Output, StepState::Waiting));
    assert_eq!(
        acts,
        vec![SequencerAction::SendCommand(ControllerMessage::Test(TestStep::Output))],
    );
}

#[test]
fn retry_outside_a_run_does_nothing() {
    let mut model = Model::default();
    let acts = model.retry();
    assert!(acts.is_empty());
    assert_eq!(model.state, TestState::Ready);
}

#[test]
fn ui_ok_on_display_stage() {
    let mut model = Model::default();
    model.state = TestState::Testing(TestStep::UiLCD, StepState::Waiting);
    let acts = model.ui_ok(12);
    assert_eq!(model.state, TestState::Testing(TestStep::UiRgb, StepState::Waiting));
    assert!(acts.is_empty());
    assert!(entry(&model, TestStep::UiLCD).unwrap().success);
}

#[test]
fn ui_ok_on_backlight_stage_starts_rail_checks() {
    let mut model = Model::default();
    model.state = TestState::Testing(TestStep::UiRgb, StepState::Waiting);
    let acts = model.ui_ok(12);
    assert_eq!(acts, vec![SequencerAction::PerformRailChecks]);
    assert!(entry(&model, TestStep::UiRgb).unwrap().success);
}

#[test]
fn ui_fail_abandons_the_run() {
    let mut model = Model::default();
    model.state = TestState::Testing(TestStep::UiLCD, StepState::Failed);
    model.ui_fail(8);
    assert_eq!(model.state, TestState::Done);
    let rec = entry(&model, TestStep::UiLCD).unwrap();
    assert!(!rec.success);
}

#[test]
fn production_flash_success_finishes_the_run() {
    let mut model = Model::default();
    model.state = TestState::Testing(TestStep::Output, StepState::Waiting);
    let acts = model.handle_result(TestStep::Output, None, true, 5);
    assert_eq!(
        model.state,
        TestState::Testing(TestStep::FlashingProduction, StepState::Waiting),
    );
    assert_eq!(
        acts,
        vec![
            SequencerAction::SendCommand(ControllerMessage::Disconnect),
            SequencerAction::FlashProductionFirmware,
        ],
    );
    let _ = model.handle_result(TestStep::FlashingProduction, None, true, 5);
    assert_eq!(model.state, TestState::Done);
}

#[test]
fn conclude_resets_for_the_next_unit() {
    let mut model = Model::default();
    model.report.barcode.change_field_num(4, String::from("SN1"));
    let _ = model.handle_result(TestStep::Connecting, None, true, 5);
    let acts = model.conclude(now());
    assert_eq!(model.state, TestState::Ready);
    assert!(model.report.tests.iter().all(|slot| slot.is_none()));
    assert_eq!(model.report.barcode.matricola, "");
    assert_eq!(
        acts,
        vec![
            SequencerAction::SendCommand(ControllerMessage::Disconnect),
            SequencerAction::AllRelaysOff,
        ],
    );
}

#[test]
fn operator_update_bounds() {
    let mut model = Model::default();
    assert!(model.update_operator(7));
    assert_eq!(model.config.operatore, 7);
    assert!(!model.update_operator(0));
    assert_eq!(model.config.operatore, 7);
    assert!(!model.update_operator(100));
    assert_eq!(model.config.operatore, 7);
    assert!(model.update_operator(99));
    assert_eq!(model.config.operatore, 99);
}
