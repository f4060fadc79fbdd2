//! Test-bench controller core for the Digiblock device under test.
//!
//! The crate holds the verified heart of a production test bench: the data
//! model of the test procedure, the ledger of per-step results, the test
//! sequencer's transition logic, the device actor's two-state machine, the
//! register-level protocol adapter, and the numeric evaluation of each bench
//! check. Hardware access (serial bus, relays, PWM, ADC) and presentation
//! stay outside; the functions here decide, on plain values, what every
//! reading means and where the procedure goes next.
//!
//! Measured values are carried as integers in hundredths of the step's unit
//! of measure (centivolts, hundredths of a milliampere, centihertz), so that
//! acceptance intervals and scalings are exact.

pub mod actor;
pub mod checks;
pub mod model;
pub mod protocol;
pub mod report;
pub mod sequencer;
pub mod strfmt;
