//! The device actor: sole owner of the bus link to the device under test,
//! modelled as a two-state machine. Each turn of its loop observes one
//! input — a command together with the raw readings its bus work produced,
//! an idle poll, or nothing — and the transition function here decides,
//! deterministically, the next connection state and the events reported
//! back to the sequencer. The bus and bench work itself (serial open,
//! register transactions, relay and PWM driving, the bounded waits) stays
//! outside; whatever came back, the decision is taken here.

use vstd::prelude::*;

use crate::checks::check_value_within;
use crate::checks::frequency_centihz;
use crate::checks::frequency_centihz_spec;
use crate::checks::output_check_passed;
use crate::checks::short_circuit_detected;
use crate::checks::OUTPUT_LEVEL_THRESHOLD;
use crate::model::DigiblockState;
use crate::model::RgbLight;
use crate::model::TestStep;
use crate::protocol::telemetry_from_registers;
use crate::protocol::telemetry_spec;
use crate::protocol::NUM_INPUT_REGISTERS;

verus! {

/// A command for the device actor.
#[derive(Clone, Debug, PartialEq, Eq)]
pub enum ControllerMessage {
    /// Open the named serial port and perform the protocol handshake.
    Connect(String),
    /// Show a backlight colour on the device.
    SetLight(RgbLight),
    /// Close the bus link.
    Disconnect,
    /// Run the check routine of a step and report its outcome.
    Test(TestStep),
}

/// An event the device actor reports back.
#[derive(Clone, Debug, PartialEq, Eq)]
pub enum ControllerEvent {
    /// The actor is up and listening for commands.
    Ready,
    /// A line for the run log.
    Log(String),
    /// A fresh telemetry snapshot from an idle poll.
    Update(DigiblockState),
    /// The outcome of one step's check: the step, the measured value in
    /// hundredths of its unit where one was read, and whether it passed.
    TestResult(TestStep, Option<u32>, bool),
}

/// Connection state of the actor: it either holds a live bus link or none.
#[derive(Clone, Copy, Debug, PartialEq, Eq, Structural)]
pub enum ActorState {
    Disconnected,
    Connected,
}

/// The raw readings a check routine's bus and bench work handed back;
/// `None` anywhere stands for a transaction that failed or timed out.
#[derive(Clone, Copy, Debug, PartialEq, Eq)]
pub enum TestReadings {
    /// Fault flag read twice for a short-circuit check: with the forcing
    /// relay released, then asserted.
    FaultPair(Option<(bool, bool)>),
    /// The device's measured-current register, in hundredths of a
    /// milliampere.
    AnalogSample(Option<u16>),
    /// The device's measured-period register, in microseconds.
    PeriodSample(Option<u16>),
    /// Bench ADC counts read back with the output commanded high, then low.
    OutputLevels(Option<(u16, u16)>),
    /// The command needed no readings.
    NoReadings,
}

/// One observation of the actor's loop: a command with the raw outcome of
/// the bus work it required, a due idle poll with the register block it
/// read (or `None` on a bus failure), or an uneventful wait.
#[derive(Clone, Debug)]
pub enum ActorInput {
    /// A connect command, with the outcome of the open-and-handshake
    /// attempt; while already connected the command is ignored.
    Connect(bool),
    /// A disconnect command.
    Disconnect,
    /// A backlight command.
    SetLight(RgbLight),
    /// A test command for a step, with the readings its routine produced.
    Test(TestStep, TestReadings),
    /// The idle-poll period elapsed and the telemetry block was read.
    Poll(Option<Vec<u16>>),
    /// Nothing arrived within the wait and no poll was due.
    Tick,
}

/// An idle poll succeeded: a block arrived and carries the full telemetry
/// arity.
pub open spec fn poll_ok(r: Option<Vec<u16>>) -> bool {
    r matches Some(regs) && regs@.len() >= NUM_INPUT_REGISTERS
}

/// A measured value lies within a step's declared acceptance interval; a
/// step with no interval never evaluates here.
pub open spec fn within_limits(step: TestStep, value: u32) -> bool {
    match step.limits_spec() {
        Some((min, max)) => min <= value && value <= max,
        None => false,
    }
}

/// The result event of a test command served while connected: the steps
/// the actor can check are evaluated from their readings, any other step —
/// and any readings that do not fit the step — fails with no value.
pub open spec fn test_event_spec(step: TestStep, readings: TestReadings) -> ControllerEvent {
    match (step, readings) {
        (TestStep::AnalogShortCircuit, TestReadings::FaultPair(o)) => match o {
            Some((idle, forced)) => ControllerEvent::TestResult(step, None, !idle && forced),
            None => ControllerEvent::TestResult(step, None, false),
        },
        (TestStep::OutputShortCircuit, TestReadings::FaultPair(o)) => match o {
            Some((idle, forced)) => ControllerEvent::TestResult(step, None, !idle && forced),
            None => ControllerEvent::TestResult(step, None, false),
        },
        (TestStep::Analog, TestReadings::AnalogSample(o)) => match o {
            Some(raw) => ControllerEvent::TestResult(
                step,
                Some(raw as u32),
                within_limits(step, raw as u32),
            ),
            None => ControllerEvent::TestResult(step, None, false),
        },
        (TestStep::Frequency, TestReadings::PeriodSample(o)) => match o {
            Some(period) => ControllerEvent::TestResult(
                step,
                Some(frequency_centihz_spec(period) as u32),
                within_limits(step, frequency_centihz_spec(period) as u32),
            ),
            None => ControllerEvent::TestResult(step, None, false),
        },
        (TestStep::Output, TestReadings::OutputLevels(o)) => match o {
            Some((high, low)) => ControllerEvent::TestResult(
                step,
                None,
                high >= OUTPUT_LEVEL_THRESHOLD && low <= OUTPUT_LEVEL_THRESHOLD,
            ),
            None => ControllerEvent::TestResult(step, None, false),
        },
        (_, _) => ControllerEvent::TestResult(step, None, false),
    }
}

/// The connection state after one observation.
pub open spec fn next_state_spec(s: ActorState, input: ActorInput) -> ActorState {
    match s {
        ActorState::Disconnected => match input {
            ActorInput::Connect(opened) => if opened {
                ActorState::Connected
            } else {
                ActorState::Disconnected
            },
            _ => ActorState::Disconnected,
        },
        ActorState::Connected => match input {
            ActorInput::Disconnect => ActorState::Disconnected,
            ActorInput::Poll(r) => if poll_ok(r) {
                ActorState::Connected
            } else {
                ActorState::Disconnected
            },
            _ => ActorState::Connected,
        },
    }
}

/// The events one observation makes the actor report.
pub open spec fn events_spec(s: ActorState, input: ActorInput) -> Seq<ControllerEvent> {
    match s {
        ActorState::Disconnected => match input {
            ActorInput::Connect(opened) => seq![
                ControllerEvent::TestResult(TestStep::Connecting, None, opened),
            ],
            ActorInput::Test(step, _) => seq![ControllerEvent::TestResult(step, None, false)],
            _ => Seq::<ControllerEvent>::empty(),
        },
        ActorState::Connected => match input {
            ActorInput::Test(step, readings) => seq![test_event_spec(step, readings)],
            ActorInput::Poll(r) => if poll_ok(r) {
                seq![ControllerEvent::Update(telemetry_spec(r->Some_0@))]
            } else {
                seq![ControllerEvent::TestResult(TestStep::Connecting, None, false)]
            },
            _ => Seq::<ControllerEvent>::empty(),
        },
    }
}

/// The device actor's state machine.
#[derive(Clone, Copy, Debug, PartialEq, Eq, Structural)]
pub struct DeviceActor {
    pub state: ActorState,
}

impl DeviceActor {
    /// A fresh actor, holding no bus link.
    pub fn new() -> (r: Self)
        ensures
            r.state == ActorState::Disconnected,
    {
        DeviceActor { state: ActorState::Disconnected }
    }

    /// Serves one observation of the loop: moves to the next connection
    /// state and reports the events it produced, in order.
    ///
    /// While disconnected, a connect attempt's outcome decides the state
    /// and is reported as the connecting step's result; any test command is
    /// rejected at once with a failure for its step. While connected, a
    /// further connect command is ignored, a disconnect closes the link,
    /// test commands are evaluated from their readings, and a failed or
    /// short idle poll drops the link and reports a connecting failure.
    pub fn step(&mut self, input: ActorInput) -> (events: Vec<ControllerEvent>)
        ensures
            final(self).state == next_state_spec(old(self).state, input),
            events@ == events_spec(old(self).state, input),
    {
        let ghost pre = old(self).state;
        let ghost inp = input;
        let mut events: Vec<ControllerEvent> = Vec::new();
        match self.state {
            ActorState::Disconnected => {
                match input {
                    ActorInput::Connect(opened) => {
                        if opened {
                            self.state = ActorState::Connected;
                        }
                        events.push(
                            ControllerEvent::TestResult(TestStep::Connecting, None, opened),
                        );
                    },
                    ActorInput::Test(step, _) => {
                        events.push(ControllerEvent::TestResult(step, None, false));
                    },
                    _ => {},
                }
            },
            ActorState::Connected => {
                match input {
                    ActorInput::Disconnect => {
                        self.state = ActorState::Disconnected;
                    },
                    ActorInput::Test(step, readings) => {
                        events.push(Self::evaluate_test(step, readings));
                    },
                    ActorInput::Poll(reply) => {
                        let mut ok: bool = false;
                        match reply {
                            Some(regs) => {
                                match telemetry_from_registers(regs.as_slice()) {
                                    Ok(snapshot) => {
                                        events.push(ControllerEvent::Update(snapshot));
                                        ok = true;
                                    },
                                    Err(()) => {},
                                }
                            },
                            None => {},
                        }
                        if !ok {
                            events.push(
                                ControllerEvent::TestResult(TestStep::Connecting, None, false),
                            );
                            self.state = ActorState::Disconnected;
                        }
                    },
                    _ => {},
                }
            },
        }
        proof {
            assert(events@ =~= events_spec(pre, inp));
        }
        events
    }

    /// Evaluates the readings a test command's routine produced.
    fn evaluate_test(step: TestStep, readings: TestReadings) -> (ev: ControllerEvent)
        ensures
            ev == test_event_spec(step, readings),
    {
        match (step, readings) {
            (TestStep::AnalogShortCircuit, TestReadings::FaultPair(o)) => match o {
                Some((idle, forced)) => ControllerEvent::TestResult(
                    step,
                    None,
                    short_circuit_detected(idle, forced),
                ),
                None => ControllerEvent::TestResult(step, None, false),
            },
            (TestStep::OutputShortCircuit, TestReadings::FaultPair(o)) => match o {
                Some((idle, forced)) => ControllerEvent::TestResult(
                    step,
                    None,
                    short_circuit_detected(idle, forced),
                ),
                None => ControllerEvent::TestResult(step, None, false),
            },
            (TestStep::Analog, TestReadings::AnalogSample(o)) => match o {
                Some(raw) => {
                    let value: u32 = raw as u32;
                    ControllerEvent::TestResult(
                        step,
                        Some(value),
                        check_value_within(value, step.limits()),
                    )
                },
                None => ControllerEvent::TestResult(step, None, false),
            },
            (TestStep::Frequency, TestReadings::PeriodSample(o)) => match o {
                Some(period) => {
                    let value: u32 = frequency_centihz(period);
                    ControllerEvent::TestResult(
                        step,
                        Some(value),
                        check_value_within(value, step.limits()),
                    )
                },
                None => ControllerEvent::TestResult(step, None, false),
            },
            (TestStep::Output, TestReadings::OutputLevels(o)) => match o {
                Some((high, low)) => ControllerEvent::TestResult(
                    step,
                    None,
                    output_check_passed(high, low),
                ),
                None => ControllerEvent::TestResult(step, None, false),
            },
            (other, _) => ControllerEvent::TestResult(other, None, false),
        }
    }

    /// A connect command served while the actor already holds a live link
    /// neither moves the state nor reports anything: the existing
    /// connection stays untouched whatever the attempt flag says.
    pub proof fn lemma_connect_while_connected_is_noop(opened: bool)
        ensures
            next_state_spec(ActorState::Connected, ActorInput::Connect(opened))
                == ActorState::Connected,
            events_spec(ActorState::Connected, ActorInput::Connect(opened))
                =~= Seq::<ControllerEvent>::empty(),
    {
    }

    /// A failed or short idle poll while connected always drops the link
    /// and reports a connecting failure — the transition depends on nothing
    /// but the connected state and the poll's outcome.
    pub proof fn lemma_poll_failure_disconnects(reply: Option<Vec<u16>>)
        requires
            !poll_ok(reply),
        ensures
            next_state_spec(ActorState::Connected, ActorInput::Poll(reply))
                == ActorState::Disconnected,
            events_spec(ActorState::Connected, ActorInput::Poll(reply)) =~= seq![
                ControllerEvent::TestResult(TestStep::Connecting, None, false),
            ],
    {
    }
}

} // verus!
