//! Data model of the test procedure: the ordered steps, their static
//! metadata and acceptance intervals, the run state, and the live telemetry
//! snapshot reported by the device under test.

use vstd::prelude::*;

use crate::checks::rounded_div;
use crate::report::Report;

verus! {

/// Number of steps in the test procedure.
pub const STEP_COUNT: usize = 16;

/// Backlight colour cycled while the operator checks the RGB stage.
#[derive(Clone, Copy, Debug, PartialEq, Eq, Structural)]
pub enum RgbLight {
    White,
    Red,
    Green,
    Blue,
}

/// State of the step currently under test: still waiting for its outcome,
/// or failed and awaiting an operator decision.
#[derive(Clone, Copy, Debug, PartialEq, Eq, Structural)]
pub enum StepState {
    Waiting,
    Failed,
}

/// Telemetry snapshot read from the device's input-register block.
#[derive(Clone, Copy, Debug, PartialEq, Eq, Structural)]
pub struct DigiblockState {
    pub left_button: bool,
    pub right_button: bool,
    pub period_us: u16,
    pub pulses: u16,
    pub ma420: u16,
    pub short_circuit_adc: bool,
    pub short_circuit_out: bool,
}

/// The stages of the procedure, in the order they are carried out.
#[derive(Clone, Copy, Debug, PartialEq, Eq, Structural)]
pub enum TestStep {
    InvertPower,
    FlashingTest,
    Connecting,
    UiLeftButton,
    UiRightButton,
    UiLCD,
    UiRgb,
    Check3v3,
    Check5v,
    Check12v,
    AnalogShortCircuit,
    Analog,
    Frequency,
    OutputShortCircuit,
    Output,
    FlashingProduction,
}

/// State of the whole run: not started, on one step, or finished.
#[derive(Clone, Copy, Debug, PartialEq, Eq, Structural)]
pub enum TestState {
    Ready,
    Testing(TestStep, StepState),
    Done,
}

/// Bench configuration kept across runs: the operator's identifier.
#[derive(Clone, Copy, Debug, PartialEq, Eq, Structural)]
pub struct Configuration {
    pub operatore: u8,
}

impl Default for Configuration {
    fn default() -> (r: Self)
        ensures
            r.operatore == 1,
    {
        Configuration { operatore: 1 }
    }
}

impl Default for RgbLight {
    fn default() -> (r: Self)
        ensures
            r == RgbLight::White,
    {
        RgbLight::White
    }
}

impl Default for StepState {
    fn default() -> (r: Self)
        ensures
            r == StepState::Waiting,
    {
        StepState::Waiting
    }
}

impl Default for TestState {
    fn default() -> (r: Self)
        ensures
            r == TestState::Ready,
    {
        TestState::Ready
    }
}

impl Default for DigiblockState {
    fn default() -> (r: Self)
        ensures
            r == (DigiblockState {
                left_button: false,
                right_button: false,
                period_us: 0,
                pulses: 0,
                ma420: 0,
                short_circuit_adc: false,
                short_circuit_out: false,
            }),
    {
        DigiblockState {
            left_button: false,
            right_button: false,
            period_us: 0,
            pulses: 0,
            ma420: 0,
            short_circuit_adc: false,
            short_circuit_out: false,
        }
    }
}

impl TestStep {
    /// Position of the step in the canonical order of the procedure.
    pub open spec fn index_spec(self) -> int {
        match self {
            TestStep::InvertPower => 0,
            TestStep::FlashingTest => 1,
            TestStep::Connecting => 2,
            TestStep::UiLeftButton => 3,
            TestStep::UiRightButton => 4,
            TestStep::UiLCD => 5,
            TestStep::UiRgb => 6,
            TestStep::Check3v3 => 7,
            TestStep::Check5v => 8,
            TestStep::Check12v => 9,
            TestStep::AnalogShortCircuit => 10,
            TestStep::Analog => 11,
            TestStep::Frequency => 12,
            TestStep::OutputShortCircuit => 13,
            TestStep::Output => 14,
            TestStep::FlashingProduction => 15,
        }
    }

    /// Position of the step in the canonical order of the procedure.
    pub fn index(&self) -> (i: usize)
        ensures
            i == self.index_spec(),
            i < STEP_COUNT,
    {
        match self {
            TestStep::InvertPower => 0,
            TestStep::FlashingTest => 1,
            TestStep::Connecting => 2,
            TestStep::UiLeftButton => 3,
            TestStep::UiRightButton => 4,
            TestStep::UiLCD => 5,
            TestStep::UiRgb => 6,
            TestStep::Check3v3 => 7,
            TestStep::Check5v => 8,
            TestStep::Check12v => 9,
            TestStep::AnalogShortCircuit => 10,
            TestStep::Analog => 11,
            TestStep::Frequency => 12,
            TestStep::OutputShortCircuit => 13,
            TestStep::Output => 14,
            TestStep::FlashingProduction => 15,
        }
    }

    /// The step standing at a given position of the canonical order.
    pub open spec fn of_index_spec(i: int) -> TestStep {
        if i == 0 {
            TestStep::InvertPower
        } else if i == 1 {
            TestStep::FlashingTest
        } else if i == 2 {
            TestStep::Connecting
        } else if i == 3 {
            TestStep::UiLeftButton
        } else if i == 4 {
            TestStep::UiRightButton
        } else if i == 5 {
            TestStep::UiLCD
        } else if i == 6 {
            TestStep::UiRgb
        } else if i == 7 {
            TestStep::Check3v3
        } else if i == 8 {
            TestStep::Check5v
        } else if i == 9 {
            TestStep::Check12v
        } else if i == 10 {
            TestStep::AnalogShortCircuit
        } else if i == 11 {
            TestStep::Analog
        } else if i == 12 {
            TestStep::Frequency
        } else if i == 13 {
            TestStep::OutputShortCircuit
        } else if i == 14 {
            TestStep::Output
        } else {
            TestStep::FlashingProduction
        }
    }

    /// The step standing at a given position of the canonical order.
    pub fn of_index(i: usize) -> (s: TestStep)
        requires
            i < STEP_COUNT,
        ensures
            s == TestStep::of_index_spec(i as int),
            s.index_spec() == i,
    {
        if i == 0 {
            TestStep::InvertPower
        } else if i == 1 {
            TestStep::FlashingTest
        } else if i == 2 {
            TestStep::Connecting
        } else if i == 3 {
            TestStep::UiLeftButton
        } else if i == 4 {
            TestStep::UiRightButton
        } else if i == 5 {
            TestStep::UiLCD
        } else if i == 6 {
            TestStep::UiRgb
        } else if i == 7 {
            TestStep::Check3v3
        } else if i == 8 {
            TestStep::Check5v
        } else if i == 9 {
            TestStep::Check12v
        } else if i == 10 {
            TestStep::AnalogShortCircuit
        } else if i == 11 {
            TestStep::Analog
        } else if i == 12 {
            TestStep::Frequency
        } else if i == 13 {
            TestStep::OutputShortCircuit
        } else if i == 14 {
            TestStep::Output
        } else {
            TestStep::FlashingProduction
        }
    }

    /// The step order is a bijection: indices determine steps.
    pub proof fn lemma_index_injective(a: TestStep, b: TestStep)
        requires
            a.index_spec() == b.index_spec(),
        ensures
            a == b,
    {
    }

    /// Identifier code of the step, as printed in the persisted report.
    pub open spec fn code_spec(self) -> Seq<char> {
        match self {
            TestStep::InvertPower => "A001"@,
            TestStep::FlashingTest => "A002"@,
            TestStep::Connecting => "A003"@,
            TestStep::UiLeftButton => "M001"@,
            TestStep::UiRightButton => "M002"@,
            TestStep::UiLCD => "M003"@,
            TestStep::UiRgb => "M004"@,
            TestStep::Check3v3 => "A004"@,
            TestStep::Check5v => "A005"@,
            TestStep::Check12v => "A006"@,
            TestStep::AnalogShortCircuit => "A007"@,
            TestStep::Analog => "A008"@,
            TestStep::Frequency => "A009"@,
            TestStep::OutputShortCircuit => "A010"@,
            TestStep::Output => "A0011"@,
            TestStep::FlashingProduction => "A0012"@,
        }
    }

    /// Human description of the step, as shown to the operator and printed
    /// in the persisted report.
    pub open spec fn desc_spec(self) -> Seq<char> {
        match self {
            TestStep::InvertPower => "Inversione della tensione"@,
            TestStep::FlashingTest => "Caricamento firmware di collaudo"@,
            TestStep::Connecting => "Connessione USB"@,
            TestStep::UiLeftButton => "Verifica del funzionamento del tasto sinistro"@,
            TestStep::UiRightButton => "Verifica del funzionamento del tasto destro"@,
            TestStep::UiLCD => "Verifica del funzionamento dei segmenti"@,
            TestStep::UiRgb => "Verifica del funzionamento della retroilluminazione"@,
            TestStep::Check3v3 => "Verifica del corretto livello della linea 3v3"@,
            TestStep::Check5v => "Verifica del corretto livello della linea 5v"@,
            TestStep::Check12v => "Verifica del corretto livello della linea 12v"@,
            TestStep::AnalogShortCircuit => "Verifica della rilevazione di un cortocircuito sulla linea analogica"@,
            TestStep::Analog => "Lettura di 420mA e verifica del valore (10mA)"@,
            TestStep::Frequency => "Lettura di una frequenza e verifica del valore"@,
            TestStep::OutputShortCircuit => "Verifica della rilevazione di un cortocircuito sulla uscita digitale"@,
            TestStep::Output => "Verifica del funzionamento della uscita digitale"@,
            TestStep::FlashingProduction => "Caricamento del firmware finale"@,
        }
    }

    /// Unit of measure of the step's recorded value, empty for binary checks.
    pub open spec fn unit_spec(self) -> Seq<char> {
        match self {
            TestStep::Check3v3 => "V"@,
            TestStep::Check5v => "V"@,
            TestStep::Check12v => "V"@,
            TestStep::Analog => "mA"@,
            TestStep::Frequency => "Hz"@,
            _ => ""@,
        }
    }

    /// Static metadata of the step: identifier code, human description, and
    /// unit of measure.
    pub fn metadata(self: &Self) -> (r: (&'static str, &'static str, &'static str))
        ensures
            r.0@ == self.code_spec(),
            r.1@ == self.desc_spec(),
            r.2@ == self.unit_spec(),
    {
        match self {
            TestStep::InvertPower => ("A001", "Inversione della tensione", ""),
            TestStep::FlashingTest => ("A002", "Caricamento firmware di collaudo", ""),
            TestStep::Connecting => ("A003", "Connessione USB", ""),
            TestStep::UiLeftButton => (
                "M001",
                "Verifica del funzionamento del tasto sinistro",
                "",
            ),
            TestStep::UiRightButton => (
                "M002",
                "Verifica del funzionamento del tasto destro",
                "",
            ),
            TestStep::UiLCD => ("M003", "Verifica del funzionamento dei segmenti", ""),
            TestStep::UiRgb => (
                "M004",
                "Verifica del funzionamento della retroilluminazione",
                "",
            ),
            TestStep::Check3v3 => (
                "A004",
                "Verifica del corretto livello della linea 3v3",
                "V",
            ),
            TestStep::Check5v => (
                "A005",
                "Verifica del corretto livello della linea 5v",
                "V",
            ),
            TestStep::Check12v => (
                "A006",
                "Verifica del corretto livello della linea 12v",
                "V",
            ),
            TestStep::AnalogShortCircuit => (
                "A007",
                "Verifica della rilevazione di un cortocircuito sulla linea analogica",
                "",
            ),
            TestStep::Analog => ("A008", "Lettura di 420mA e verifica del valore (10mA)", "mA"),
            TestStep::Frequency => (
                "A009",
                "Lettura di una frequenza e verifica del valore",
                "Hz",
            ),
            TestStep::OutputShortCircuit => (
                "A010",
                "Verifica della rilevazione di un cortocircuito sulla uscita digitale",
                "",
            ),
            TestStep::Output => (
                "A0011",
                "Verifica del funzionamento della uscita digitale",
                "",
            ),
            TestStep::FlashingProduction => ("A0012", "Caricamento del firmware finale", ""),
        }
    }

    /// Acceptance interval of the step, in hundredths of its unit of
    /// measure, or `None` for the checks that pass on communication success
    /// alone.
    pub open spec fn limits_spec(self) -> Option<(u32, u32)> {
        match self {
            TestStep::InvertPower => Some((0u32, 0u32)),
            TestStep::Frequency => Some((199500u32, 200500u32)),
            TestStep::Analog => Some((975u32, 1025u32)),
            TestStep::Check3v3 => Some((325u32, 355u32)),
            TestStep::Check5v => Some((490u32, 510u32)),
            TestStep::Check12v => Some((1190u32, 1280u32)),
            _ => None,
        }
    }

    /// Acceptance interval of the step, in hundredths of its unit of
    /// measure.
    pub fn limits(self: &Self) -> (r: Option<(u32, u32)>)
        ensures
            r == self.limits_spec(),
    {
        match self {
            TestStep::InvertPower => Some((0, 0)),
            TestStep::Frequency => Some((199500, 200500)),
            TestStep::Analog => Some((975, 1025)),
            TestStep::Check3v3 => Some((325, 355)),
            TestStep::Check5v => Some((490, 510)),
            TestStep::Check12v => Some((1190, 1280)),
            _ => None,
        }
    }

    /// A measured value is accepted by a step.
    pub open spec fn accepts(self, value: u32) -> bool {
        match self.limits_spec() {
            Some((min, max)) => min <= value && value <= max,
            None => true,
        }
    }

    /// A measured value, in hundredths of the step's unit, is within the
    /// step's acceptance interval; a step with no declared interval accepts
    /// every value.
    pub fn check_limits(self: &Self, value: u32) -> (r: bool)
        ensures
            r == self.accepts(value),
    {
        if let Some((min, max)) = self.limits() {
            value >= min && value <= max
        } else {
            true
        }
    }

    /// A value on either boundary of a declared acceptance interval passes
    /// the step's check.
    pub proof fn lemma_interval_boundaries_pass(self, min: u32, max: u32)
        requires
            self.limits_spec() == Some((min, max)),
        ensures
            self.accepts(min),
            self.accepts(max),
    {
    }
}

/// Sum of a sequence of raw ADC counts.
pub open spec fn adc_sum(s: Seq<u16>) -> int
    decreases s.len(),
{
    if s.len() == 0 {
        0
    } else {
        adc_sum(s.drop_last()) + s.last()
    }
}

/// The supply voltage, in hundredths of a volt, that a window of raw ADC
/// counts averages to: the mean count scaled by the 13.6 V per 2790 counts
/// calibration, rounded to the nearest hundredth.
pub open spec fn vbat_centivolts(s: Seq<u16>) -> int
    recommends
        s.len() > 0,
{
    rounded_div(adc_sum(s) * 1360, 2790 * s.len() as int)
}

/// The authoritative state of the bench application: the run state, the
/// last telemetry snapshot, the backlight colour under test, the ledger,
/// the configuration, the supply-voltage sample window, and the production
/// firmware version to stamp into the report.
#[derive(Clone, Debug)]
pub struct Model {
    pub state: TestState,
    pub digiblock_state: DigiblockState,
    pub light: RgbLight,
    pub report: Report,
    pub config: Configuration,
    pub vbat: Option<Vec<u16>>,
    pub firmware_version: String,
}

impl Default for Model {
    fn default() -> (r: Self)
        ensures
            r.wf(),
            r.state == TestState::Ready,
            r.digiblock_state == (DigiblockState {
                left_button: false,
                right_button: false,
                period_us: 0,
                pulses: 0,
                ma420: 0,
                short_circuit_adc: false,
                short_circuit_out: false,
            }),
            r.light == RgbLight::White,
            forall|i: int| 0 <= i < STEP_COUNT ==> r.report.tests@[i] is None,
            r.config.operatore == 1,
            r.vbat is None,
            r.firmware_version@ == Seq::<char>::empty(),
    {
        Model {
            state: TestState::Ready,
            digiblock_state: DigiblockState::default(),
            light: RgbLight::White,
            report: Report::default(),
            config: Configuration::default(),
            vbat: None,
            firmware_version: String::new(),
        }
    }
}

impl Model {
    /// The model is well formed when its ledger is.
    pub open spec fn wf(self) -> bool {
        self.report.wf()
    }

    /// Stores the latest telemetry snapshot.
    pub fn digiblock_update(&mut self, state: DigiblockState)
        ensures
            *final(self) == (Model { digiblock_state: state, ..*old(self) }),
    {
        self.digiblock_state = state;
    }

    /// Advances the backlight to the next colour of the cycle and reports
    /// the colour now shown.
    pub fn next_light(&mut self) -> (r: RgbLight)
        ensures
            final(self).light == match old(self).light {
                RgbLight::White => RgbLight::Red,
                RgbLight::Red => RgbLight::Green,
                RgbLight::Green => RgbLight::Blue,
                RgbLight::Blue => RgbLight::White,
            },
            r == final(self).light,
            *final(self) == (Model { light: final(self).light, ..*old(self) }),
    {
        self.light = match self.light {
            RgbLight::White => RgbLight::Red,
            RgbLight::Red => RgbLight::Green,
            RgbLight::Green => RgbLight::Blue,
            RgbLight::Blue => RgbLight::White,
        };
        self.light
    }

    /// Feeds one supply-voltage sample into the averaging window: a missing
    /// sample clears the window, a fresh one joins it, and the window keeps
    /// at most the last eleven samples.
    pub fn add_vbat(&mut self, value: Option<u16>)
        ensures
            *final(self) == (Model { vbat: final(self).vbat, ..*old(self) }),
            match value {
                None => final(self).vbat is None,
                Some(v) => final(self).vbat matches Some(nv) && nv@ == match old(self).vbat {
                    Some(vals) => if vals@.len() > 10 {
                        vals@.subrange(1, vals@.len() as int).push(v)
                    } else {
                        vals@.push(v)
                    },
                    None => seq![v],
                },
            },
    {
        match value {
            Some(v) => {
                let vbat = self.vbat.take();
                match vbat {
                    Some(mut values) => {
                        let ghost orig = values@;
                        if values.len() > 10 {
                            values.remove(0);
                            assert(values@ =~= orig.subrange(1, orig.len() as int));
                        }
                        values.push(v);
                        self.vbat = Some(values);
                    },
                    None => {
                        let mut values: Vec<u16> = Vec::new();
                        values.push(v);
                        assert(values@ =~= seq![v]);
                        self.vbat = Some(values);
                    },
                }
            },
            None => {
                self.vbat = None;
            },
        }
    }

    /// The averaged supply voltage of the current window, in hundredths of
    /// a volt, or nothing while no sample is held.
    pub fn get_vbat(&self) -> (r: Option<u64>)
        requires
            self.vbat matches Some(vals) ==> 0 < vals@.len() <= 0x10000,
        ensures
            r == match self.vbat {
                Some(vals) => Some(vbat_centivolts(vals@) as u64),
                None => None::<u64>,
            },
    {
        match &self.vbat {
            Some(values) => {
                assert(self.vbat == Some(*values));
                assert(0 < values@.len() <= 0x10000);
                let n: usize = values.len();
                let mut total: u64 = 0;
                let mut i: usize = 0;
                while i < n
                    invariant
                        0 <= i <= n,
                        n == values@.len(),
                        0 < n <= 0x10000,
                        values@ == (match self.vbat {
                            Some(vals) => vals@,
                            None => Seq::<u16>::empty(),
                        }),
                        total == adc_sum(values@.take(i as int)),
                        total <= i * 0xffff,
                    decreases n - i,
                {
                    assert(values@.take(i + 1).drop_last() =~= values@.take(i as int));
                    total = total + values[i] as u64;
                    i = i + 1;
                }
                assert(values@.take(n as int) =~= values@);
                let num: u64 = 2 * total * 1360 + 2790 * (n as u64);
                let den: u64 = 2 * (2790 * (n as u64));
                Some(num / den)
            },
            None => None,
        }
    }
}

} // verus!
