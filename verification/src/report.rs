//! The per-run ledger of step results and the assembly of the persisted
//! report: one entry per defined step, executed or not, run metadata, the
//! overall outcome, and the code of the first failing step.

use vstd::map::*;
use vstd::prelude::*;
use vstd::string::StrSliceExecFns;
use vstd::string::StringExecFns;
use vstd::string::StringSliceAdditionalSpecFns;

use crate::model::Configuration;
use crate::model::STEP_COUNT;
use crate::model::TestStep;
use crate::strfmt::dec_seq;
use crate::strfmt::dec_string;
use crate::strfmt::pad2_seq;
use crate::strfmt::pad2_string;
use crate::strfmt::parse_u64_or_zero;
use crate::strfmt::parsed_or_zero;

verus! {

/// A wall-clock instant, split into calendar fields for rendering and
/// carried with its epoch second for duration arithmetic.
#[derive(Clone, Copy, Debug, PartialEq, Eq, Structural)]
pub struct Timestamp {
    pub year: u16,
    pub month: u8,
    pub day: u8,
    pub hour: u8,
    pub minute: u8,
    pub second: u8,
    pub epoch_s: u64,
}

impl Default for Timestamp {
    fn default() -> (r: Self)
        ensures
            r == (Timestamp { year: 0, month: 0, day: 0, hour: 0, minute: 0, second: 0, epoch_s: 0 }),
    {
        Timestamp { year: 0, month: 0, day: 0, hour: 0, minute: 0, second: 0, epoch_s: 0 }
    }
}

/// A device serial number: one letter followed by six numeric fields.
#[derive(Clone, Copy, Debug)]
pub struct SerialNumber {
    pub character: char,
    pub numbers: [u8; 6],
}

impl SerialNumber {
    pub fn new(character: char, numbers: [u8; 6]) -> (r: Self)
        ensures
            r.character == character,
            r.numbers == numbers,
    {
        SerialNumber { character, numbers }
    }

    /// The leading letter of the serial number.
    pub fn character(&self) -> (r: char)
        ensures
            r == self.character,
    {
        self.character
    }

    /// The six numeric fields rendered in decimal, one after the other.
    pub fn digits_text(&self) -> (r: String)
        ensures
            r@ == dec_seq(self.numbers[0] as int) + dec_seq(self.numbers[1] as int) + dec_seq(
                self.numbers[2] as int,
            ) + dec_seq(self.numbers[3] as int) + dec_seq(self.numbers[4] as int) + dec_seq(
                self.numbers[5] as int,
            ),
    {
        let mut s = dec_string(self.numbers[0] as u64);
        s.append(dec_string(self.numbers[1] as u64).as_str());
        s.append(dec_string(self.numbers[2] as u64).as_str());
        s.append(dec_string(self.numbers[3] as u64).as_str());
        s.append(dec_string(self.numbers[4] as u64).as_str());
        s.append(dec_string(self.numbers[5] as u64).as_str());
        s
    }
}

/// The six barcode fields scanned before a run, identifying the unit.
#[derive(Clone, Debug)]
pub struct Barcode {
    pub rif_ordine: String,
    pub rif_fornitore: String,
    pub lotto_produzione: String,
    pub rev_hw: String,
    pub matricola: String,
    pub variante: String,
}

impl Default for Barcode {
    fn default() -> (r: Self)
        ensures
            r.rif_ordine@ == Seq::<char>::empty(),
            r.rif_fornitore@ == Seq::<char>::empty(),
            r.lotto_produzione@ == Seq::<char>::empty(),
            r.rev_hw@ == Seq::<char>::empty(),
            r.matricola@ == Seq::<char>::empty(),
            r.variante@ == Seq::<char>::empty(),
    {
        Barcode {
            rif_ordine: String::new(),
            rif_fornitore: String::new(),
            lotto_produzione: String::new(),
            rev_hw: String::new(),
            matricola: String::new(),
            variante: String::new(),
        }
    }
}

impl Barcode {
    /// Stores a scanned value into the field standing at the given position;
    /// positions past the last field are ignored.
    pub fn change_field_num(self: &mut Self, index: usize, field: String)
        ensures
            final(self).rif_ordine == if index == 0 {
                field
            } else {
                old(self).rif_ordine
            },
            final(self).rif_fornitore == if index == 1 {
                field
            } else {
                old(self).rif_fornitore
            },
            final(self).lotto_produzione == if index == 2 {
                field
            } else {
                old(self).lotto_produzione
            },
            final(self).rev_hw == if index == 3 {
                field
            } else {
                old(self).rev_hw
            },
            final(self).matricola == if index == 4 {
                field
            } else {
                old(self).matricola
            },
            final(self).variante == if index == 5 {
                field
            } else {
                old(self).variante
            },
    {
        match index {
            0 => self.rif_ordine = field,
            1 => self.rif_fornitore = field,
            2 => self.lotto_produzione = field,
            3 => self.rev_hw = field,
            4 => self.matricola = field,
            5 => self.variante = field,
            _ => (),
        }
    }

    /// All six fields have been scanned.
    pub fn valid(self: &Self) -> (r: bool)
        ensures
            r == (self.rif_ordine@.len() > 0 && self.rif_fornitore@.len() > 0
                && self.lotto_produzione@.len() > 0 && self.rev_hw@.len() > 0
                && self.matricola@.len() > 0 && self.variante@.len() > 0),
    {
        !(self.rif_ordine.as_str().unicode_len() == 0 || self.rif_fornitore.as_str().unicode_len()
            == 0 || self.lotto_produzione.as_str().unicode_len() == 0
            || self.rev_hw.as_str().unicode_len() == 0 || self.matricola.as_str().unicode_len()
            == 0 || self.variante.as_str().unicode_len() == 0)
    }
}

/// The recorded outcome of one step: pass or fail, the measured value in
/// hundredths of the step's unit where one was read, and how long the step
/// took, in milliseconds.
#[derive(Clone, Copy, Debug, PartialEq, Eq, Structural)]
pub struct TestStepResult {
    pub step: TestStep,
    pub success: bool,
    pub value: Option<u32>,
    pub duration_ms: u64,
}

impl TestStepResult {
    pub fn new(step: TestStep, success: bool, value: Option<u32>, duration_ms: u64) -> (r: Self)
        ensures
            r == (TestStepResult { step, success, value, duration_ms }),
    {
        TestStepResult { step, success, value, duration_ms }
    }
}

/// The ledger of a run: its start instant, one result slot per defined
/// step in canonical order, and the scanned barcode.
#[derive(Clone, Debug)]
pub struct Report {
    pub start: Timestamp,
    pub tests: Vec<Option<TestStepResult>>,
    pub barcode: Barcode,
}

/// Number of results recorded in a sequence of ledger slots.
pub open spec fn recorded_count(s: Seq<Option<TestStepResult>>) -> nat
    decreases s.len(),
{
    if s.len() == 0 {
        0nat
    } else {
        recorded_count(s.drop_last()) + (if s.last() is Some {
            1nat
        } else {
            0nat
        })
    }
}

/// No sequence of slots records more results than it has slots.
pub proof fn lemma_recorded_count_le_len(s: Seq<Option<TestStepResult>>)
    ensures
        recorded_count(s) <= s.len(),
    decreases s.len(),
{
    if s.len() > 0 {
        lemma_recorded_count_le_len(s.drop_last());
    }
}

/// The canonical position of the first recorded failure at or after a given
/// slot, if any.
pub open spec fn first_fail_from(s: Seq<Option<TestStepResult>>, i: int) -> Option<TestStep>
    recommends
        0 <= i <= s.len(),
    decreases s.len() - i,
        when 0 <= i <= s.len()
{
    if i >= s.len() {
        None
    } else {
        match s[i] {
            Some(r) => if !r.success {
                Some(r.step)
            } else {
                first_fail_from(s, i + 1)
            },
            None => first_fail_from(s, i + 1),
        }
    }
}

impl Default for Report {
    fn default() -> (r: Self)
        ensures
            r.wf(),
            r.start == (Timestamp {
                year: 0,
                month: 0,
                day: 0,
                hour: 0,
                minute: 0,
                second: 0,
                epoch_s: 0,
            }),
            forall|i: int| 0 <= i < STEP_COUNT ==> r.tests@[i] is None,
            r.barcode.rif_ordine@ == Seq::<char>::empty(),
            r.barcode.rif_fornitore@ == Seq::<char>::empty(),
            r.barcode.lotto_produzione@ == Seq::<char>::empty(),
            r.barcode.rev_hw@ == Seq::<char>::empty(),
            r.barcode.matricola@ == Seq::<char>::empty(),
            r.barcode.variante@ == Seq::<char>::empty(),
    {
        Report::new(Timestamp { year: 0, month: 0, day: 0, hour: 0, minute: 0, second: 0, epoch_s: 0 })
    }
}

impl Report {
    /// The ledger is well formed: one slot per defined step, each recorded
    /// result sitting in the slot of its own step.
    pub open spec fn wf(self) -> bool {
        &&& self.tests@.len() == STEP_COUNT
        &&& forall|i: int|
            0 <= i < STEP_COUNT ==> (#[trigger] self.tests@[i] matches Some(r)
                ==> r.step.index_spec() == i)
    }

    /// The result recorded for a step, if any.
    pub open spec fn entry(self, step: TestStep) -> Option<TestStepResult>
        recommends
            self.wf(),
    {
        self.tests@[step.index_spec()]
    }

    /// The ledger as a map from step to recorded result.
    pub open spec fn ledger(self) -> Map<TestStep, TestStepResult> {
        Map::new(
            |s: TestStep| self.tests@[s.index_spec()] is Some,
            |s: TestStep| self.tests@[s.index_spec()]->Some_0,
        )
    }

    /// At least one result has been recorded.
    pub open spec fn any_recorded(self) -> bool {
        exists|i: int| 0 <= i < self.tests@.len() && self.tests@[i] is Some
    }

    /// Every recorded result is a pass.
    pub open spec fn all_recorded_pass(self) -> bool {
        forall|i: int|
            0 <= i < self.tests@.len() ==> (#[trigger] self.tests@[i] matches Some(r) ==> r.success)
    }

    /// A fresh, empty ledger for a run starting at the given instant.
    pub fn new(start: Timestamp) -> (r: Report)
        ensures
            r.wf(),
            r.start == start,
            forall|i: int| 0 <= i < STEP_COUNT ==> r.tests@[i] is None,
            r.barcode.rif_ordine@ == Seq::<char>::empty(),
            r.barcode.rif_fornitore@ == Seq::<char>::empty(),
            r.barcode.lotto_produzione@ == Seq::<char>::empty(),
            r.barcode.rev_hw@ == Seq::<char>::empty(),
            r.barcode.matricola@ == Seq::<char>::empty(),
            r.barcode.variante@ == Seq::<char>::empty(),
    {
        let mut tests: Vec<Option<TestStepResult>> = Vec::new();
        let mut i: usize = 0;
        while i < STEP_COUNT
            invariant
                tests@.len() == i,
                i <= STEP_COUNT,
                forall|j: int| 0 <= j < i ==> tests@[j] is None,
            decreases STEP_COUNT - i,
        {
            tests.push(None);
            i = i + 1;
        }
        Report { start, tests, barcode: Barcode::default() }
    }

    /// Clears every recorded result and restamps the run start, keeping the
    /// scanned barcode: the ledger of a run about to begin.
    pub fn reset_results(self: &mut Self, start: Timestamp)
        requires
            old(self).wf(),
        ensures
            final(self).wf(),
            forall|i: int| 0 <= i < STEP_COUNT ==> final(self).tests@[i] is None,
            final(self).start == start,
            final(self).barcode == old(self).barcode,
    {
        let mut i: usize = 0;
        while i < STEP_COUNT
        invariant
            old(self).wf(),
            self.wf(),
            0 <= i <= STEP_COUNT,
            forall|j: int| 0 <= j < i ==> self.tests@[j] is None,
            self.start == old(self).start,
            self.barcode == old(self).barcode,
        decreases STEP_COUNT - i,
        {
            self.tests[i] = None;
            i = i + 1;
        }
        self.start = start;
    }

    /// Records a result in the slot of its step, overwriting any earlier
    /// result for that step and touching no other slot.
    pub fn add_test(self: &mut Self, test: TestStepResult)
        requires
            old(self).wf(),
        ensures
            final(self).wf(),
            final(self).tests@ == old(self).tests@.update(
                test.step.index_spec(),
                Some(test),
            ),
            final(self).ledger() == old(self).ledger().insert(test.step, test),
            final(self).start == old(self).start,
            final(self).barcode == old(self).barcode,
    {
        let i: usize = test.step.index();
        self.tests[i] = Some(test);
        proof {
            assert forall|s: TestStep|
                self.ledger().dom().contains(s) == old(self).ledger().insert(
                    test.step,
                    test,
                ).dom().contains(s) && (self.ledger().dom().contains(s)
                ==> self.ledger()[s] == old(self).ledger().insert(test.step, test)[s]) by {
                if s.index_spec() == test.step.index_spec() {
                    TestStep::lemma_index_injective(s, test.step);
                }
            }
            assert(self.ledger() =~= old(self).ledger().insert(test.step, test));
        }
    }

    /// The run passed: at least one step was recorded and every recorded
    /// step passed. An empty ledger is never successful.
    pub fn successful(self: &Self) -> (r: bool)
        ensures
            r == (self.any_recorded() && self.all_recorded_pass()),
    {
        let n: usize = self.tests.len();
        let mut any: bool = false;
        let mut all: bool = true;
        let mut i: usize = 0;
        while i < n
            invariant
                0 <= i <= n,
                n == self.tests@.len(),
                any == exists|j: int| 0 <= j < i && self.tests@[j] is Some,
                all == forall|j: int|
                    0 <= j < i ==> (#[trigger] self.tests@[j] matches Some(r) ==> r.success),
            decreases n - i,
        {
            match &self.tests[i] {
                Some(r) => {
                    any = true;
                    if !r.success {
                        all = false;
                    }
                },
                None => {},
            }
            i = i + 1;
        }
        any && all
    }

    /// An empty ledger is reported as not passed, never as successful.
    pub proof fn lemma_empty_ledger_not_successful(self)
        requires
            forall|i: int| 0 <= i < self.tests@.len() ==> self.tests@[i] is None,
        ensures
            !self.any_recorded(),
    {
    }

    /// The ledger never holds more results than there are defined steps.
    pub proof fn lemma_ledger_size_bounded(self)
        requires
            self.wf(),
        ensures
            recorded_count(self.tests@) <= STEP_COUNT,
    {
        lemma_recorded_count_le_len(self.tests@);
    }
}

/// One entry of the persisted report, ready for rendering: step code,
/// description, outcome, duration in tenths of a second, unit of measure,
/// and the measured value and acceptance bounds in hundredths of the unit.
#[derive(Clone, Debug)]
pub struct SerializableTestStepResult {
    pub prova: String,
    pub descrizione: String,
    pub esito: String,
    pub durata: u64,
    pub udm: String,
    pub valore: Option<u32>,
    pub minimo: Option<u32>,
    pub massimo: Option<u32>,
}

/// A step duration in milliseconds, rounded to tenths of a second.
pub open spec fn duration_tenths(ms: u64) -> int {
    (ms + 50) / 100
}

/// Rounds a duration in milliseconds to tenths of a second.
fn round_to_tenths(ms: u64) -> (r: u64)
    ensures
        r == duration_tenths(ms),
{
    let q: u64 = ms / 100;
    let rem: u64 = ms % 100;
    proof {
        let m = ms as int;
        assert(m == 100 * (m / 100) + m % 100);
        if rem >= 50 {
            assert((m + 50) / 100 == m / 100 + 1) by (nonlinear_arith)
                requires
                    m == 100 * (m / 100) + m % 100 && 50 <= m % 100 < 100,
            ;
        } else {
            assert((m + 50) / 100 == m / 100) by (nonlinear_arith)
                requires
                    m == 100 * (m / 100) + m % 100 && 0 <= m % 100 < 50,
            ;
        }
    }
    if rem >= 50 {
        q + 1
    } else {
        q
    }
}

/// The report entry a step and its ledger slot must render to.
pub open spec fn row_matches(
    row: SerializableTestStepResult,
    step: TestStep,
    entry: Option<TestStepResult>,
) -> bool {
    &&& row.prova@ == step.code_spec()
    &&& row.descrizione@ == step.desc_spec()
    &&& row.udm@ == step.unit_spec()
    &&& row.minimo == match step.limits_spec() {
        Some((min, max)) => Some(min),
        None => None::<u32>,
    }
    &&& row.massimo == match step.limits_spec() {
        Some((min, max)) => Some(max),
        None => None::<u32>,
    }
    &&& match entry {
        Some(r) => {
            &&& row.esito@ == if r.success {
                "Pass"@
            } else {
                "Fail"@
            }
            &&& row.durata == duration_tenths(r.duration_ms)
            &&& row.valore == r.value
        },
        None => {
            &&& row.esito@ == "Unexecuted"@
            &&& row.durata == 0
            &&& row.valore is None
        },
    }
}

impl TestStepResult {
    /// Renders the recorded result as one report entry.
    pub fn serializable(&self) -> (row: SerializableTestStepResult)
        ensures
            row_matches(row, self.step, Some(*self)),
    {
        let (name, description, udm) = self.step.metadata();
        let (minimo, massimo) = match self.step.limits() {
            Some((min, max)) => (Some(min), Some(max)),
            None => (None, None),
        };
        SerializableTestStepResult {
            prova: String::from_str(name),
            descrizione: String::from_str(description),
            esito: String::from_str(
                if self.success {
                    "Pass"
                } else {
                    "Fail"
                },
            ),
            durata: round_to_tenths(self.duration_ms),
            udm: String::from_str(udm),
            valore: self.value,
            minimo,
            massimo,
        }
    }
}

impl SerializableTestStepResult {
    /// The report entry of a step the run never reached.
    pub fn unexecuted(step: TestStep) -> (row: Self)
        ensures
            row_matches(row, step, None::<TestStepResult>),
    {
        let (name, description, udm) = step.metadata();
        let (minimo, massimo) = match step.limits() {
            Some((min, max)) => (Some(min), Some(max)),
            None => (None, None),
        };
        SerializableTestStepResult {
            prova: String::from_str(name),
            descrizione: String::from_str(description),
            esito: String::from_str("Unexecuted"),
            durata: 0,
            udm: String::from_str(udm),
            valore: None,
            minimo,
            massimo,
        }
    }
}

/// Run metadata of the persisted report: the bench identity, the software
/// that ran the test, the unit identification, the start date and time, the
/// run duration in seconds, and the overall outcome.
#[derive(Clone, Debug)]
pub struct TestStation {
    pub attrezzatura: String,
    pub istanza: u16,
    pub stazione: u16,
    pub applicazione: String,
    pub versione: String,
    pub codice_dut: String,
    pub firmware: String,
    pub pmont: String,
    pub ordine_forn: u64,
    pub fornitore: u64,
    pub identificativo: String,
    pub data: String,
    pub ora: String,
    pub durata: u64,
    pub operatore: String,
    pub variante: String,
    pub esito: String,
    pub codice_di_errore: String,
    pub note: String,
}

/// The whole persisted report: format tag, run metadata, and one entry per
/// defined step in canonical order.
#[derive(Clone, Debug)]
pub struct SerializableReport {
    pub formato: u8,
    pub collaudo: TestStation,
    pub prove: Vec<SerializableTestStepResult>,
}

impl Report {
    /// The report entries of every defined step, in canonical order:
    /// recorded results rendered as pass or fail, unreached steps as
    /// unexecuted.
    pub fn step_rows(&self) -> (rows: Vec<SerializableTestStepResult>)
        requires
            self.wf(),
        ensures
            rows@.len() == STEP_COUNT,
            forall|i: int|
                0 <= i < STEP_COUNT ==> row_matches(
                    #[trigger] rows@[i],
                    TestStep::of_index_spec(i),
                    self.tests@[i],
                ),
    {
        let mut rows: Vec<SerializableTestStepResult> = Vec::new();
        let mut i: usize = 0;
        while i < STEP_COUNT
            invariant
                self.wf(),
                0 <= i <= STEP_COUNT,
                rows@.len() == i,
                forall|j: int|
                    0 <= j < i ==> row_matches(
                        #[trigger] rows@[j],
                        TestStep::of_index_spec(j),
                        self.tests@[j],
                    ),
            decreases STEP_COUNT - i,
        {
            let step = TestStep::of_index(i);
            match &self.tests[i] {
                Some(result) => {
                    proof {
                        TestStep::lemma_index_injective(result.step, step);
                    }
                    rows.push(result.serializable());
                },
                None => {
                    rows.push(SerializableTestStepResult::unexecuted(step));
                },
            }
            i = i + 1;
        }
        rows
    }

    /// The code of the first failing step in canonical order, or the empty
    /// string when no recorded step failed.
    pub fn first_error_code(&self) -> (r: String)
        requires
            self.wf(),
        ensures
            match first_fail_from(self.tests@, 0) {
                Some(step) => r@ == step.code_spec(),
                None => r@ == Seq::<char>::empty(),
            },
    {
        let n: usize = self.tests.len();
        let mut i: usize = 0;
        while i < n
            invariant
                0 <= i <= n,
                n == self.tests@.len(),
                self.wf(),
                first_fail_from(self.tests@, 0) == first_fail_from(self.tests@, i as int),
            decreases n - i,
        {
            match &self.tests[i] {
                Some(r) => {
                    if !r.success {
                        let (code, _, _) = r.step.metadata();
                        return String::from_str(code);
                    }
                },
                None => {},
            }
            i = i + 1;
        }
        String::new()
    }

    /// Assembles the persisted report from the frozen ledger: the station
    /// and unit metadata, the start date and time, the run duration up to
    /// the given instant, the overall outcome (an empty ledger is never a
    /// pass), the first failing step's code, and one entry per defined step.
    pub fn serializable(
        self: &Self,
        config: &Configuration,
        version: String,
        app_name: &str,
        app_version: &str,
        istanza: u16,
        now_epoch_s: u64,
    ) -> (r: SerializableReport)
        requires
            self.wf(),
        ensures
            r.formato == 2,
            r.collaudo.attrezzatura@ == "BC033"@,
            r.collaudo.istanza == istanza,
            r.collaudo.stazione == 1,
            r.collaudo.applicazione@ == app_name@,
            r.collaudo.versione@ == app_version@,
            r.collaudo.codice_dut@ == "digiblock2"@,
            r.collaudo.firmware@ == version@,
            r.collaudo.pmont@ == self.barcode.rev_hw@,
            r.collaudo.ordine_forn == parsed_or_zero(self.barcode.rif_ordine@),
            r.collaudo.fornitore == parsed_or_zero(self.barcode.rif_fornitore@),
            r.collaudo.identificativo@ == self.barcode.matricola@,
            r.collaudo.variante@ == self.barcode.variante@,
            r.collaudo.data@ == pad2_seq(self.start.year as int) + seq!['-'] + pad2_seq(
                self.start.month as int,
            ) + seq!['-'] + pad2_seq(self.start.day as int),
            r.collaudo.ora@ == pad2_seq(self.start.hour as int) + seq![':'] + pad2_seq(
                self.start.minute as int,
            ) + seq![':'] + pad2_seq(self.start.second as int),
            r.collaudo.durata == if now_epoch_s >= self.start.epoch_s {
                now_epoch_s - self.start.epoch_s
            } else {
                0
            },
            r.collaudo.operatore@ == "MB_OP"@ + pad2_seq(config.operatore as int),
            r.collaudo.esito@ == if self.any_recorded() && self.all_recorded_pass() {
                "Pass"@
            } else {
                "Fail"@
            },
            r.collaudo.codice_di_errore@ == match first_fail_from(self.tests@, 0) {
                Some(step) => step.code_spec(),
                None => Seq::<char>::empty(),
            },
            r.collaudo.note@ == Seq::<char>::empty(),
            r.prove@.len() == STEP_COUNT,
            forall|i: int|
                0 <= i < STEP_COUNT ==> row_matches(
                    #[trigger] r.prove@[i],
                    TestStep::of_index_spec(i),
                    self.tests@[i],
                ),
    {
        let prove = self.step_rows();
        let codice_di_errore = self.first_error_code();

        let mut data = pad2_string(self.start.year as u64);
        data.append("-");
        data.append(pad2_string(self.start.month as u64).as_str());
        data.append("-");
        data.append(pad2_string(self.start.day as u64).as_str());
        proof {
            reveal_strlit("-");
            assert(data@ =~= pad2_seq(self.start.year as int) + seq!['-'] + pad2_seq(
                self.start.month as int,
            ) + seq!['-'] + pad2_seq(self.start.day as int));
        }

        let mut ora = pad2_string(self.start.hour as u64);
        ora.append(":");
        ora.append(pad2_string(self.start.minute as u64).as_str());
        ora.append(":");
        ora.append(pad2_string(self.start.second as u64).as_str());
        proof {
            reveal_strlit(":");
            assert(ora@ =~= pad2_seq(self.start.hour as int) + seq![':'] + pad2_seq(
                self.start.minute as int,
            ) + seq![':'] + pad2_seq(self.start.second as int));
        }

        let mut operatore = String::from_str("MB_OP");
        operatore.append(pad2_string(config.operatore as u64).as_str());

        let durata: u64 = if now_epoch_s >= self.start.epoch_s {
            now_epoch_s - self.start.epoch_s
        } else {
            0
        };

        let esito = String::from_str(
            if self.successful() {
                "Pass"
            } else {
                "Fail"
            },
        );

        SerializableReport {
            formato: 2,
            collaudo: TestStation {
                attrezzatura: String::from_str("BC033"),
                istanza,
                stazione: 1,
                applicazione: String::from_str(app_name),
                versione: String::from_str(app_version),
                codice_dut: String::from_str("digiblock2"),
                firmware: version,
                pmont: self.barcode.rev_hw.clone(),
                ordine_forn: parse_u64_or_zero(self.barcode.rif_ordine.as_str()),
                fornitore: parse_u64_or_zero(self.barcode.rif_fornitore.as_str()),
                identificativo: self.barcode.matricola.clone(),
                variante: self.barcode.variante.clone(),
                data,
                ora,
                durata,
                operatore,
                esito,
                codice_di_errore,
                note: String::new(),
            },
            prove,
        }
    }
}

} // verus!
