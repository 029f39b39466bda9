//! How much the program logs.

use vstd::prelude::*;

verus! {

/// How much is logged.
#[derive(Debug, Clone, Copy, PartialEq, Eq, Structural)]
pub enum LogLevel {
    /// Nothing.
    Off,
    /// What a user wants to know.
    Info,
    /// Every step.
    Trace,
}

/// Chooses the log level from the command line's switches: a quiet run and
/// one that writes JSON log nothing, whatever else is asked for; otherwise
/// a verbose run logs every step; all others log what a user wants to know.
pub fn log_level(verbose: bool, quiet: bool, json_output: bool) -> (level: LogLevel)
    ensures
        quiet || json_output ==> level == LogLevel::Off,
        !quiet && !json_output && verbose ==> level == LogLevel::Trace,
        !quiet && !json_output && !verbose ==> level == LogLevel::Info,
{
    if quiet || json_output {
        LogLevel::Off
    } else if verbose {
        LogLevel::Trace
    } else {
        LogLevel::Info
    }
}

} // verus!
