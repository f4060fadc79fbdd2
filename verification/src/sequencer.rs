//! The test sequencer: the transition logic that drives the procedure from
//! one step to the next. Every operator intent and every event coming back
//! from the device actor lands here as a call on the model; the functions
//! record results in the ledger, move the run state, and hand back the
//! actions the surrounding loop must carry out (commands for the actor,
//! stimulus work, firmware flashing). The sequencer never retries on its
//! own: a failed step waits for an explicit retry or abandonment.

use vstd::prelude::*;
use vstd::string::StrSliceExecFns;
use vstd::string::StringExecFns;

use crate::actor::ControllerMessage;
use crate::checks::rail_centivolts;
use crate::checks::rail_centivolts_spec;
use crate::model::DigiblockState;
use crate::model::Model;
use crate::model::RgbLight;
use crate::model::StepState;
use crate::model::TestState;
use crate::model::TestStep;
use crate::model::STEP_COUNT;
use crate::report::Barcode;
use crate::report::TestStepResult;
use crate::report::Timestamp;

verus! {

/// Work the surrounding loop must carry out after a sequencer transition.
#[derive(Clone, Debug, PartialEq, Eq)]
pub enum SequencerAction {
    /// Send a command to the device actor.
    SendCommand(ControllerMessage),
    /// Run the external programming tool with the bench firmware.
    FlashTestFirmware,
    /// Run the external programming tool with the production firmware.
    FlashProductionFirmware,
    /// Run the inverted-supply consumption measurement.
    PerformPowerInversion,
    /// Sample the three rail ADC channels and report them back.
    PerformRailChecks,
    /// Release every bench relay.
    AllRelaysOff,
}

/// The serial port of the device under test.
pub open spec fn connect_port() -> Seq<char> {
    "/dev/ttyACM0"@
}

/// The action is a connect command for the device's port.
pub open spec fn is_connect_command(a: SequencerAction) -> bool {
    a matches SequencerAction::SendCommand(ControllerMessage::Connect(p)) && p@ == connect_port()
}

/// The run state after a step succeeds: each step has exactly one
/// successor; the backlight stage hands over to the rail checks without
/// moving (the rail readings move it), and the rail steps themselves are
/// sequenced by the rail-reading handler.
pub open spec fn step_successor_state(step: TestStep, current: TestState) -> TestState {
    match step {
        TestStep::InvertPower => TestState::Testing(TestStep::FlashingTest, StepState::Waiting),
        TestStep::FlashingTest => TestState::Testing(TestStep::Connecting, StepState::Waiting),
        TestStep::Connecting => TestState::Testing(TestStep::UiLeftButton, StepState::Waiting),
        TestStep::UiLeftButton => TestState::Testing(TestStep::UiRightButton, StepState::Waiting),
        TestStep::UiRightButton => TestState::Testing(TestStep::UiLCD, StepState::Waiting),
        TestStep::UiLCD => TestState::Testing(TestStep::UiRgb, StepState::Waiting),
        TestStep::UiRgb => current,
        TestStep::Check3v3 => current,
        TestStep::Check5v => current,
        TestStep::Check12v => current,
        TestStep::AnalogShortCircuit => TestState::Testing(TestStep::Analog, StepState::Waiting),
        TestStep::Analog => TestState::Testing(TestStep::Frequency, StepState::Waiting),
        TestStep::Frequency => TestState::Testing(
            TestStep::OutputShortCircuit,
            StepState::Waiting,
        ),
        TestStep::OutputShortCircuit => TestState::Testing(TestStep::Output, StepState::Waiting),
        TestStep::Output => TestState::Testing(TestStep::FlashingProduction, StepState::Waiting),
        TestStep::FlashingProduction => TestState::Done,
    }
}

/// The backlight after a step succeeds: entering the backlight stage
/// restarts the colour cycle, everything else leaves it alone.
pub open spec fn step_successor_light(step: TestStep, current: RgbLight) -> RgbLight {
    if step == TestStep::UiLCD {
        RgbLight::White
    } else {
        current
    }
}

/// The actions a step's success sets in motion.
pub open spec fn successor_actions_match(step: TestStep, acts: Seq<SequencerAction>) -> bool {
    match step {
        TestStep::InvertPower => acts =~= seq![SequencerAction::FlashTestFirmware],
        TestStep::FlashingTest => acts.len() == 1 && is_connect_command(acts[0]),
        TestStep::UiRgb => acts =~= seq![SequencerAction::PerformRailChecks],
        TestStep::AnalogShortCircuit => acts =~= seq![
            SequencerAction::SendCommand(ControllerMessage::Test(TestStep::Analog)),
        ],
        TestStep::Analog => acts =~= seq![
            SequencerAction::SendCommand(ControllerMessage::Test(TestStep::Frequency)),
        ],
        TestStep::Frequency => acts =~= seq![
            SequencerAction::SendCommand(ControllerMessage::Test(TestStep::OutputShortCircuit)),
        ],
        TestStep::OutputShortCircuit => acts =~= seq![
            SequencerAction::SendCommand(ControllerMessage::Test(TestStep::Output)),
        ],
        TestStep::Output => acts.len() == 2 && acts[0] == SequencerAction::SendCommand(
            ControllerMessage::Disconnect,
        ) && acts[1] == SequencerAction::FlashProductionFirmware,
        _ => acts =~= Seq::<SequencerAction>::empty(),
    }
}

/// The variant code marking the base model, which has no 5 V rail.
pub open spec fn base_variant(s: Seq<char>) -> bool {
    s == seq!['1']
}

/// The recorded value of a rail check: the scaled reading, or nothing when
/// the sampling itself failed.
pub open spec fn rail_value(step: TestStep, raw: Option<u16>) -> Option<u32> {
    match raw {
        Some(v) => Some(rail_centivolts_spec(step, v) as u32),
        None => None::<u32>,
    }
}

/// A rail check passes when its sampling worked and the scaled reading
/// lies within the rail's acceptance interval.
pub open spec fn rail_pass(step: TestStep, raw: Option<u16>) -> bool {
    match raw {
        Some(v) => step.accepts(rail_centivolts_spec(step, v) as u32),
        None => false,
    }
}

/// The ledger entry a rail check records.
pub open spec fn rail_entry(step: TestStep, raw: Option<u16>, elapsed_ms: u64) -> TestStepResult {
    TestStepResult {
        step,
        success: rail_pass(step, raw),
        value: rail_value(step, raw),
        duration_ms: elapsed_ms,
    }
}

/// The connect command for the device's port.
fn connect_command() -> (r: SequencerAction)
    ensures
        is_connect_command(r),
{
    SequencerAction::SendCommand(ControllerMessage::Connect(String::from_str("/dev/ttyACM0")))
}

impl Model {
    /// Starts a run: the ledger is cleared and restamped, the barcode kept,
    /// and the procedure enters its first step, whose measurement is set in
    /// motion.
    pub fn start(&mut self, now: Timestamp) -> (acts: Vec<SequencerAction>)
        requires
            old(self).wf(),
        ensures
            final(self).wf(),
            final(self).state == TestState::Testing(TestStep::InvertPower, StepState::Waiting),
            forall|i: int| 0 <= i < STEP_COUNT ==> final(self).report.tests@[i] is None,
            final(self).report.start == now,
            final(self).report.barcode == old(self).report.barcode,
            final(self).light == old(self).light,
            final(self).digiblock_state == old(self).digiblock_state,
            final(self).config == old(self).config,
            final(self).vbat == old(self).vbat,
            final(self).firmware_version == old(self).firmware_version,
            acts@ =~= seq![SequencerAction::PerformPowerInversion],
    {
        self.report.reset_results(now);
        self.state = TestState::Testing(TestStep::InvertPower, StepState::Waiting);
        let mut acts: Vec<SequencerAction> = Vec::new();
        acts.push(SequencerAction::PerformPowerInversion);
        acts
    }

    /// Moves the run past a step that just succeeded and sets the next
    /// step's work in motion. The ledger is untouched.
    pub fn next_step(&mut self, step: TestStep) -> (acts: Vec<SequencerAction>)
        ensures
            final(self).state == step_successor_state(step, old(self).state),
            final(self).light == step_successor_light(step, old(self).light),
            successor_actions_match(step, acts@),
            final(self).report == old(self).report,
            final(self).digiblock_state == old(self).digiblock_state,
            final(self).config == old(self).config,
            final(self).vbat == old(self).vbat,
            final(self).firmware_version == old(self).firmware_version,
    {
        let mut acts: Vec<SequencerAction> = Vec::new();
        match step {
            TestStep::InvertPower => {
                self.state = TestState::Testing(TestStep::FlashingTest, StepState::Waiting);
                acts.push(SequencerAction::FlashTestFirmware);
            },
            TestStep::FlashingTest => {
                self.state = TestState::Testing(TestStep::Connecting, StepState::Waiting);
                acts.push(connect_command());
            },
            TestStep::Connecting => {
                self.state = TestState::Testing(TestStep::UiLeftButton, StepState::Waiting);
            },
            TestStep::UiLeftButton => {
                self.state = TestState::Testing(TestStep::UiRightButton, StepState::Waiting);
            },
            TestStep::UiRightButton => {
                self.state = TestState::Testing(TestStep::UiLCD, StepState::Waiting);
            },
            TestStep::UiLCD => {
                self.state = TestState::Testing(TestStep::UiRgb, StepState::Waiting);
                self.light = RgbLight::White;
            },
            TestStep::UiRgb => {
                acts.push(SequencerAction::PerformRailChecks);
            },
            TestStep::Check3v3 => {},
            TestStep::Check5v => {},
            TestStep::Check12v => {},
            TestStep::AnalogShortCircuit => {
                self.state = TestState::Testing(TestStep::Analog, StepState::Waiting);
                acts.push(
                    SequencerAction::SendCommand(ControllerMessage::Test(TestStep::Analog)),
                );
            },
            TestStep::Analog => {
                self.state = TestState::Testing(TestStep::Frequency, StepState::Waiting);
                acts.push(
                    SequencerAction::SendCommand(ControllerMessage::Test(TestStep::Frequency)),
                );
            },
            TestStep::Frequency => {
                self.state = TestState::Testing(TestStep::OutputShortCircuit, StepState::Waiting);
                acts.push(
                    SequencerAction::SendCommand(
                        ControllerMessage::Test(TestStep::OutputShortCircuit),
                    ),
                );
            },
            TestStep::OutputShortCircuit => {
                self.state = TestState::Testing(TestStep::Output, StepState::Waiting);
                acts.push(SequencerAction::SendCommand(ControllerMessage::Test(TestStep::Output)));
            },
            TestStep::Output => {
                self.state = TestState::Testing(TestStep::FlashingProduction, StepState::Waiting);
                acts.push(SequencerAction::SendCommand(ControllerMessage::Disconnect));
                acts.push(SequencerAction::FlashProductionFirmware);
            },
            TestStep::FlashingProduction => {
                self.state = TestState::Done;
            },
        }
        acts
    }

    /// Records a step's outcome in the ledger, overwriting any earlier
    /// result for that step. Success moves the run to the step's successor
    /// and sets the next work in motion; failure halts the run on the step,
    /// awaiting the operator's retry or abandonment.
    pub fn handle_result(
        &mut self,
        step: TestStep,
        value: Option<u32>,
        success: bool,
        elapsed_ms: u64,
    ) -> (acts: Vec<SequencerAction>)
        requires
            old(self).wf(),
        ensures
            final(self).wf(),
            final(self).report.tests@ == old(self).report.tests@.update(
                step.index_spec(),
                Some(TestStepResult { step, success, value, duration_ms: elapsed_ms }),
            ),
            final(self).report.start == old(self).report.start,
            final(self).report.barcode == old(self).report.barcode,
            success ==> final(self).state == step_successor_state(step, old(self).state)
                && final(self).light == step_successor_light(step, old(self).light)
                && successor_actions_match(step, acts@),
            !success ==> final(self).state == TestState::Testing(step, StepState::Failed)
                && final(self).light == old(self).light && acts@ =~= Seq::<
                SequencerAction,
            >::empty(),
            final(self).digiblock_state == old(self).digiblock_state,
            final(self).config == old(self).config,
            final(self).vbat == old(self).vbat,
            final(self).firmware_version == old(self).firmware_version,
    {
        self.report.add_test(TestStepResult::new(step, success, value, elapsed_ms));
        if success {
            self.next_step(step)
        } else {
            self.state = TestState::Testing(step, StepState::Failed);
            Vec::new()
        }
    }

    /// Takes a telemetry snapshot in. While connecting, the first snapshot
    /// proves the link and moves the run to the left-button stage. On the
    /// left-button stage, both buttons seen pressed record both button
    /// steps at once and skip straight past the right-button stage to the
    /// display stage; the left button alone advances to await the right
    /// one; neither leaves the run waiting. On the right-button stage, the
    /// right button seen pressed moves to the display stage.
    pub fn on_telemetry(&mut self, state: DigiblockState, elapsed_ms: u64)
        requires
            old(self).wf(),
        ensures
            final(self).wf(),
            final(self).digiblock_state == state,
            final(self).report.start == old(self).report.start,
            final(self).report.barcode == old(self).report.barcode,
            final(self).config == old(self).config,
            final(self).vbat == old(self).vbat,
            final(self).firmware_version == old(self).firmware_version,
            old(self).state matches TestState::Testing(TestStep::Connecting, _) ==> final(self).state == TestState::Testing(TestStep::UiLeftButton, StepState::Waiting) && final(self).light == RgbLight::White && final(self).report.tests@ == old(self).report.tests@,
            (old(self).state matches TestState::Testing(TestStep::UiLeftButton, _)
                && state.left_button && state.right_button) ==> final(self).report.tests@ == old(self).report.tests@.update(
                TestStep::UiLeftButton.index_spec(),
                Some(
                    TestStepResult {
                        step: TestStep::UiLeftButton,
                        success: true,
                        value: None,
                        duration_ms: elapsed_ms,
                    },
                ),
            ).update(
                TestStep::UiRightButton.index_spec(),
                Some(
                    TestStepResult {
                        step: TestStep::UiRightButton,
                        success: true,
                        value: None,
                        duration_ms: elapsed_ms,
                    },
                ),
            ) && final(self).state == TestState::Testing(TestStep::UiLCD, StepState::Waiting)
                && final(self).light == old(self).light,
            (old(self).state matches TestState::Testing(TestStep::UiLeftButton, _)
                && state.left_button && !state.right_button) ==> final(self).report.tests@ == old(self).report.tests@.update(
                TestStep::UiLeftButton.index_spec(),
                Some(
                    TestStepResult {
                        step: TestStep::UiLeftButton,
                        success: true,
                        value: None,
                        duration_ms: elapsed_ms,
                    },
                ),
            ) && final(self).state == TestState::Testing(TestStep::UiRightButton, StepState::Waiting)
                && final(self).light == old(self).light,
            (old(self).state matches TestState::Testing(TestStep::UiLeftButton, _)
                && !state.left_button) ==> final(self).report.tests@ == old(self).report.tests@
                && final(self).state == old(self).state && final(self).light == old(self).light,
            (old(self).state matches TestState::Testing(TestStep::UiRightButton, _)
                && state.right_button) ==> final(self).report.tests@ == old(self).report.tests@.update(
                TestStep::UiRightButton.index_spec(),
                Some(
                    TestStepResult {
                        step: TestStep::UiRightButton,
                        success: true,
                        value: None,
                        duration_ms: elapsed_ms,
                    },
                ),
            ) && final(self).state == TestState::Testing(TestStep::UiLCD, StepState::Waiting)
                && final(self).light == old(self).light,
            (old(self).state matches TestState::Testing(TestStep::UiRightButton, _)
                && !state.right_button) ==> final(self).report.tests@ == old(self).report.tests@
                && final(self).state == old(self).state && final(self).light == old(self).light,
            !(old(self).state matches TestState::Testing(
                TestStep::Connecting
                    | TestStep::UiLeftButton
                    | TestStep::UiRightButton,
                _,
            )) ==> final(self).report.tests@ == old(self).report.tests@ && final(self).state == old(self).state && final(self).light == old(self).light,
    {
        self.digiblock_state = state;
        match self.state {
            TestState::Testing(TestStep::Connecting, _) => {
                self.state = TestState::Testing(TestStep::UiLeftButton, StepState::Waiting);
                self.light = RgbLight::White;
            },
            TestState::Testing(TestStep::UiLeftButton, _) => {
                if state.left_button && state.right_button {
                    self.report.add_test(
                        TestStepResult::new(TestStep::UiLeftButton, true, None, elapsed_ms),
                    );
                    self.report.add_test(
                        TestStepResult::new(TestStep::UiRightButton, true, None, elapsed_ms),
                    );
                    self.state = TestState::Testing(TestStep::UiLCD, StepState::Waiting);
                } else if state.left_button {
                    self.report.add_test(
                        TestStepResult::new(TestStep::UiLeftButton, true, None, elapsed_ms),
                    );
                    self.state = TestState::Testing(TestStep::UiRightButton, StepState::Waiting);
                }
            },
            TestState::Testing(TestStep::UiRightButton, _) => {
                if state.right_button {
                    self.report.add_test(
                        TestStepResult::new(TestStep::UiRightButton, true, None, elapsed_ms),
                    );
                    self.state = TestState::Testing(TestStep::UiLCD, StepState::Waiting);
                }
            },
            _ => {},
        }
    }

    /// Repeats the step the run is halted on: the step's command or
    /// stimulus is issued afresh and the step returns to waiting. Outside a
    /// running step nothing happens.
    pub fn retry(&mut self) -> (acts: Vec<SequencerAction>)
        ensures
            final(self).report == old(self).report,
            final(self).light == old(self).light,
            final(self).digiblock_state == old(self).digiblock_state,
            final(self).config == old(self).config,
            final(self).vbat == old(self).vbat,
            final(self).firmware_version == old(self).firmware_version,
            old(self).state matches TestState::Testing(TestStep::FlashingTest, _) ==> final(self).state == TestState::Testing(TestStep::FlashingTest, StepState::Waiting) && acts@
                =~= seq![SequencerAction::FlashTestFirmware],
            old(self).state matches TestState::Testing(TestStep::Connecting, _) ==> final(self).state == old(self).state && acts@.len() == 1 && is_connect_command(acts@[0]),
            old(self).state matches TestState::Testing(TestStep::InvertPower, _) ==> final(self).state == TestState::Testing(TestStep::InvertPower, StepState::Waiting) && acts@
                =~= seq![SequencerAction::PerformPowerInversion],
            old(self).state matches TestState::Testing(
                TestStep::Check3v3
                    | TestStep::Check5v
                    | TestStep::Check12v,
                _,
            ) ==> final(self).state == old(self).state && acts@ =~= seq![
                SequencerAction::PerformRailChecks,
            ],
            old(self).state matches TestState::Testing(TestStep::FlashingProduction, _) ==> final(self).state == TestState::Testing(TestStep::FlashingProduction, StepState::Waiting)
                && acts@.len() == 2 && acts@[0] == SequencerAction::SendCommand(
                ControllerMessage::Disconnect,
            ) && acts@[1] == SequencerAction::FlashProductionFirmware,
            old(self).state matches TestState::Testing(step, _) ==> ((step
                != TestStep::FlashingTest && step != TestStep::Connecting && step
                != TestStep::InvertPower && step != TestStep::Check3v3 && step
                != TestStep::Check5v && step != TestStep::Check12v && step
                != TestStep::FlashingProduction) ==> (final(self).state == TestState::Testing(
                step,
                StepState::Waiting,
            ) && acts@ =~= seq![
                SequencerAction::SendCommand(ControllerMessage::Test(step)),
            ])),
            !(old(self).state matches TestState::Testing(_, _)) ==> final(self).state == old(self).state && acts@ =~= Seq::<SequencerAction>::empty(),
    {
        let mut acts: Vec<SequencerAction> = Vec::new();
        match self.state {
            TestState::Testing(TestStep::FlashingTest, _) => {
                self.state = TestState::Testing(TestStep::FlashingTest, StepState::Waiting);
                acts.push(SequencerAction::FlashTestFirmware);
            },
            TestState::Testing(TestStep::Connecting, _) => {
                acts.push(connect_command());
            },
            TestState::Testing(TestStep::InvertPower, _) => {
                self.state = TestState::Testing(TestStep::InvertPower, StepState::Waiting);
                acts.push(SequencerAction::PerformPowerInversion);
            },
            TestState::Testing(
                TestStep::Check3v3 | TestStep::Check5v | TestStep::Check12v,
                _,
            ) => {
                acts.push(SequencerAction::PerformRailChecks);
            },
            TestState::Testing(TestStep::FlashingProduction, _) => {
                self.state = TestState::Testing(TestStep::FlashingProduction, StepState::Waiting);
                acts.push(SequencerAction::SendCommand(ControllerMessage::Disconnect));
                acts.push(SequencerAction::FlashProductionFirmware);
            },
            TestState::Testing(step, _) => {
                self.state = TestState::Testing(step, StepState::Waiting);
                acts.push(SequencerAction::SendCommand(ControllerMessage::Test(step)));
            },
            _ => {},
        }
        acts
    }

    /// Evaluates the three rail samples the bench read back, in order: each
    /// rail's reading is scaled to hundredths of a volt, recorded, and held
    /// against its interval; the first rail out of tolerance (or whose
    /// sampling failed) halts the run on that rail and the later rails stay
    /// unread. The base variant carries no 5 V rail, so that rail is
    /// skipped for it. With every checked rail in tolerance the run moves
    /// on to the analog short-circuit check.
    pub fn rails_result(
        &mut self,
        reading3v3: Option<u16>,
        reading5v: Option<u16>,
        reading12v: Option<u16>,
        elapsed_ms: u64,
    ) -> (acts: Vec<SequencerAction>)
        requires
            old(self).wf(),
        ensures
            final(self).wf(),
            final(self).report.start == old(self).report.start,
            final(self).report.barcode == old(self).report.barcode,
            final(self).light == old(self).light,
            final(self).digiblock_state == old(self).digiblock_state,
            final(self).config == old(self).config,
            final(self).vbat == old(self).vbat,
            final(self).firmware_version == old(self).firmware_version,
            !rail_pass(TestStep::Check3v3, reading3v3) ==> final(self).report.tests@ == old(self).report.tests@.update(
                TestStep::Check3v3.index_spec(),
                Some(rail_entry(TestStep::Check3v3, reading3v3, elapsed_ms)),
            ) && final(self).state == TestState::Testing(TestStep::Check3v3, StepState::Failed)
                && acts@ =~= Seq::<SequencerAction>::empty(),
            (rail_pass(TestStep::Check3v3, reading3v3) && !base_variant(
                old(self).report.barcode.variante@,
            ) && !rail_pass(TestStep::Check5v, reading5v)) ==> final(self).report.tests@ == old(self).report.tests@.update(
                TestStep::Check3v3.index_spec(),
                Some(rail_entry(TestStep::Check3v3, reading3v3, elapsed_ms)),
            ).update(
                TestStep::Check5v.index_spec(),
                Some(rail_entry(TestStep::Check5v, reading5v, elapsed_ms)),
            ) && final(self).state == TestState::Testing(TestStep::Check5v, StepState::Failed)
                && acts@ =~= Seq::<SequencerAction>::empty(),
            (rail_pass(TestStep::Check3v3, reading3v3) && !base_variant(
                old(self).report.barcode.variante@,
            ) && rail_pass(TestStep::Check5v, reading5v) && !rail_pass(
                TestStep::Check12v,
                reading12v,
            )) ==> final(self).report.tests@ == old(self).report.tests@.update(
                TestStep::Check3v3.index_spec(),
                Some(rail_entry(TestStep::Check3v3, reading3v3, elapsed_ms)),
            ).update(
                TestStep::Check5v.index_spec(),
                Some(rail_entry(TestStep::Check5v, reading5v, elapsed_ms)),
            ).update(
                TestStep::Check12v.index_spec(),
                Some(rail_entry(TestStep::Check12v, reading12v, elapsed_ms)),
            ) && final(self).state == TestState::Testing(TestStep::Check12v, StepState::Failed)
                && acts@ =~= Seq::<SequencerAction>::empty(),
            (rail_pass(TestStep::Check3v3, reading3v3) && !base_variant(
                old(self).report.barcode.variante@,
            ) && rail_pass(TestStep::Check5v, reading5v) && rail_pass(
                TestStep::Check12v,
                reading12v,
            )) ==> final(self).report.tests@ == old(self).report.tests@.update(
                TestStep::Check3v3.index_spec(),
                Some(rail_entry(TestStep::Check3v3, reading3v3, elapsed_ms)),
            ).update(
                TestStep::Check5v.index_spec(),
                Some(rail_entry(TestStep::Check5v, reading5v, elapsed_ms)),
            ).update(
                TestStep::Check12v.index_spec(),
                Some(rail_entry(TestStep::Check12v, reading12v, elapsed_ms)),
            ) && final(self).state == TestState::Testing(
                TestStep::AnalogShortCircuit,
                StepState::Waiting,
            ) && acts@ =~= seq![
                SequencerAction::SendCommand(ControllerMessage::Test(TestStep::AnalogShortCircuit)),
            ],
            (rail_pass(TestStep::Check3v3, reading3v3) && base_variant(
                old(self).report.barcode.variante@,
            ) && !rail_pass(TestStep::Check12v, reading12v)) ==> final(self).report.tests@ == old(self).report.tests@.update(
                TestStep::Check3v3.index_spec(),
                Some(rail_entry(TestStep::Check3v3, reading3v3, elapsed_ms)),
            ).update(
                TestStep::Check12v.index_spec(),
                Some(rail_entry(TestStep::Check12v, reading12v, elapsed_ms)),
            ) && final(self).state == TestState::Testing(TestStep::Check12v, StepState::Failed)
                && acts@ =~= Seq::<SequencerAction>::empty(),
            (rail_pass(TestStep::Check3v3, reading3v3) && base_variant(
                old(self).report.barcode.variante@,
            ) && rail_pass(TestStep::Check12v, reading12v)) ==> final(self).report.tests@ == old(self).report.tests@.update(
                TestStep::Check3v3.index_spec(),
                Some(rail_entry(TestStep::Check3v3, reading3v3, elapsed_ms)),
            ).update(
                TestStep::Check12v.index_spec(),
                Some(rail_entry(TestStep::Check12v, reading12v, elapsed_ms)),
            ) && final(self).state == TestState::Testing(
                TestStep::AnalogShortCircuit,
                StepState::Waiting,
            ) && acts@ =~= seq![
                SequencerAction::SendCommand(ControllerMessage::Test(TestStep::AnalogShortCircuit)),
            ],
    {
        let base = is_base_variant(&self.report.barcode);

        if !self.check_rail(TestStep::Check3v3, reading3v3, elapsed_ms) {
            return Vec::new();
        }
        if !base {
            if !self.check_rail(TestStep::Check5v, reading5v, elapsed_ms) {
                return Vec::new();
            }
        }
        if !self.check_rail(TestStep::Check12v, reading12v, elapsed_ms) {
            return Vec::new();
        }

        self.state = TestState::Testing(TestStep::AnalogShortCircuit, StepState::Waiting);
        let mut acts: Vec<SequencerAction> = Vec::new();
        acts.push(
            SequencerAction::SendCommand(ControllerMessage::Test(TestStep::AnalogShortCircuit)),
        );
        acts
    }

    /// Scales, records and judges one rail sample; an out-of-tolerance or
    /// failed reading halts the run on the rail.
    fn check_rail(&mut self, step: TestStep, reading: Option<u16>, elapsed_ms: u64) -> (pass: bool)
        requires
            old(self).wf(),
        ensures
            final(self).wf(),
            pass == rail_pass(step, reading),
            final(self).report.tests@ == old(self).report.tests@.update(
                step.index_spec(),
                Some(rail_entry(step, reading, elapsed_ms)),
            ),
            final(self).report.start == old(self).report.start,
            final(self).report.barcode == old(self).report.barcode,
            final(self).state == if rail_pass(step, reading) {
                old(self).state
            } else {
                TestState::Testing(step, StepState::Failed)
            },
            final(self).light == old(self).light,
            final(self).digiblock_state == old(self).digiblock_state,
            final(self).config == old(self).config,
            final(self).vbat == old(self).vbat,
            final(self).firmware_version == old(self).firmware_version,
    {
        match reading {
            Some(raw) => {
                let value: u32 = rail_centivolts(step, raw);
                let pass: bool = step.check_limits(value);
                self.report.add_test(TestStepResult::new(step, pass, Some(value), elapsed_ms));
                if !pass {
                    self.state = TestState::Testing(step, StepState::Failed);
                }
                pass
            },
            None => {
                self.report.add_test(TestStepResult::new(step, false, None, elapsed_ms));
                self.state = TestState::Testing(step, StepState::Failed);
                false
            },
        }
    }

    /// The operator confirmed what the device shows: on the display stage
    /// the display step is recorded as passed and the backlight stage
    /// begins; anywhere else the confirmation is taken for the backlight
    /// stage, which is recorded as passed and hands over to the rail
    /// checks.
    pub fn ui_ok(&mut self, elapsed_ms: u64) -> (acts: Vec<SequencerAction>)
        requires
            old(self).wf(),
        ensures
            final(self).wf(),
            final(self).report.start == old(self).report.start,
            final(self).report.barcode == old(self).report.barcode,
            final(self).digiblock_state == old(self).digiblock_state,
            final(self).config == old(self).config,
            final(self).vbat == old(self).vbat,
            final(self).firmware_version == old(self).firmware_version,
            old(self).state matches TestState::Testing(TestStep::UiLCD, _) ==> final(self).report.tests@ == old(self).report.tests@.update(
                TestStep::UiLCD.index_spec(),
                Some(
                    TestStepResult {
                        step: TestStep::UiLCD,
                        success: true,
                        value: None,
                        duration_ms: elapsed_ms,
                    },
                ),
            ) && final(self).state == TestState::Testing(TestStep::UiRgb, StepState::Waiting)
                && final(self).light == RgbLight::White && acts@ =~= Seq::<
                SequencerAction,
            >::empty(),
            !(old(self).state matches TestState::Testing(TestStep::UiLCD, _)) ==> final(self).report.tests@ == old(self).report.tests@.update(
                TestStep::UiRgb.index_spec(),
                Some(
                    TestStepResult {
                        step: TestStep::UiRgb,
                        success: true,
                        value: None,
                        duration_ms: elapsed_ms,
                    },
                ),
            ) && final(self).state == old(self).state && final(self).light == old(self).light
                && acts@ =~= seq![SequencerAction::PerformRailChecks],
    {
        match self.state {
            TestState::Testing(TestStep::UiLCD, _) => {
                self.report.add_test(TestStepResult::new(TestStep::UiLCD, true, None, elapsed_ms));
                self.next_step(TestStep::UiLCD)
            },
            _ => {
                self.report.add_test(TestStepResult::new(TestStep::UiRgb, true, None, elapsed_ms));
                self.next_step(TestStep::UiRgb)
            },
        }
    }

    /// The operator declared the current step's behaviour wrong: the step
    /// is recorded as failed terminally and the run is forced to its end.
    /// Outside a running step nothing happens.
    pub fn ui_fail(&mut self, elapsed_ms: u64)
        requires
            old(self).wf(),
        ensures
            final(self).wf(),
            final(self).report.start == old(self).report.start,
            final(self).report.barcode == old(self).report.barcode,
            final(self).light == old(self).light,
            final(self).digiblock_state == old(self).digiblock_state,
            final(self).config == old(self).config,
            final(self).vbat == old(self).vbat,
            final(self).firmware_version == old(self).firmware_version,
            old(self).state matches TestState::Testing(step, _) ==> final(self).report.tests@
                == old(self).report.tests@.update(
                step.index_spec(),
                Some(
                    TestStepResult {
                        step,
                        success: false,
                        value: None,
                        duration_ms: elapsed_ms,
                    },
                ),
            ) && final(self).state == TestState::Done,
            !(old(self).state matches TestState::Testing(_, _)) ==> final(self).report.tests@
                == old(self).report.tests@ && final(self).state == old(self).state,
    {
        match self.state {
            TestState::Testing(step, _) => {
                self.report.add_test(TestStepResult::new(step, false, None, elapsed_ms));
                self.state = TestState::Done;
            },
            _ => {},
        }
    }

    /// Closes the run once its report has been taken: the ledger and the
    /// barcode are cleared for the next unit, the run returns to ready, the
    /// bus link is shut and every relay released.
    pub fn conclude(&mut self, now: Timestamp) -> (acts: Vec<SequencerAction>)
        requires
            old(self).wf(),
        ensures
            final(self).wf(),
            final(self).state == TestState::Ready,
            forall|i: int| 0 <= i < STEP_COUNT ==> final(self).report.tests@[i] is None,
            final(self).report.start == now,
            final(self).report.barcode.rif_ordine@ == Seq::<char>::empty(),
            final(self).report.barcode.rif_fornitore@ == Seq::<char>::empty(),
            final(self).report.barcode.lotto_produzione@ == Seq::<char>::empty(),
            final(self).report.barcode.rev_hw@ == Seq::<char>::empty(),
            final(self).report.barcode.matricola@ == Seq::<char>::empty(),
            final(self).report.barcode.variante@ == Seq::<char>::empty(),
            final(self).light == old(self).light,
            final(self).digiblock_state == old(self).digiblock_state,
            final(self).config == old(self).config,
            final(self).vbat == old(self).vbat,
            final(self).firmware_version == old(self).firmware_version,
            acts@.len() == 2,
            acts@[0] == SequencerAction::SendCommand(ControllerMessage::Disconnect),
            acts@[1] == SequencerAction::AllRelaysOff,
    {
        self.report.reset_results(now);
        self.report.barcode = Barcode::default();
        self.state = TestState::Ready;
        let mut acts: Vec<SequencerAction> = Vec::new();
        acts.push(SequencerAction::SendCommand(ControllerMessage::Disconnect));
        acts.push(SequencerAction::AllRelaysOff);
        acts
    }

    /// Changes the operator identifier, which must lie strictly between
    /// zero and one hundred; the report says whether the configuration
    /// changed and must be persisted.
    pub fn update_operator(&mut self, val: u8) -> (changed: bool)
        ensures
            final(self).config.operatore == if 0 < val < 100 {
                val
            } else {
                old(self).config.operatore
            },
            changed == (0 < val < 100),
            final(self).state == old(self).state,
            final(self).report == old(self).report,
            final(self).light == old(self).light,
            final(self).digiblock_state == old(self).digiblock_state,
            final(self).vbat == old(self).vbat,
            final(self).firmware_version == old(self).firmware_version,
    {
        if val > 0 && val < 100 {
            self.config.operatore = val;
            true
        } else {
            false
        }
    }
}

/// The scanned variant field marks the base model, which has no 5 V rail.
fn is_base_variant(barcode: &Barcode) -> (r: bool)
    ensures
        r == base_variant(barcode.variante@),
{
    let v: &str = barcode.variante.as_str();
    if v.unicode_len() == 1 {
        let c = v.get_char(0);
        if c == '1' {
            proof {
                assert(barcode.variante@ =~= seq!['1']);
            }
            true
        } else {
            false
        }
    } else {
        false
    }
}

} // verus!
