//! Errors of the library.
use vstd::prelude::*;

verus! {

#[verifier::external_type_specification]
#[verifier::external_body]
pub struct ExCronError(cron_clock::error::Error);

/// Error enumeration for the analysis of a task's frequency.
#[derive(Debug)]
pub enum FrequencyAnalyzeError {
    /// Irregular cron expressions that cause parsing failures.
    DisParse(cron_clock::error::Error),
    /// The initialization time is wrong (a period of zero seconds).
    DisInitTime,
}

/// Error enumeration for Command parsing & Child Execute.
#[derive(Debug)]
pub enum CommandChildError {
    /// Process execution conditions are not met.
    DisCondition(String),
}

} // verus!
