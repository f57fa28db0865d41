//! What the command line decides before anything is read or written.

use vstd::prelude::*;

verus! {

/// How much the tool reports while it works, from nothing to everything.
#[derive(Debug, PartialEq, Eq, Clone, Copy)]
pub enum LogLevel {
    Off,
    Error,
    Info,
    Debug,
    Trace,
}

impl LogLevel {
    /// The place of the level in the order from `Off` to `Trace`.
    pub open spec fn rank(self) -> nat {
        match self {
            LogLevel::Off => 0,
            LogLevel::Error => 1,
            LogLevel::Info => 2,
            LogLevel::Debug => 3,
            LogLevel::Trace => 4,
        }
    }
}

/// The level that the flags ask for: nothing when told to be quiet,
/// otherwise errors only, and one level more for each time that the verbose
/// flag was given, up to everything.
pub open spec fn level_for(quiet: bool, verbose: nat) -> LogLevel {
    if quiet {
        LogLevel::Off
    } else if verbose == 0 {
        LogLevel::Error
    } else if verbose == 1 {
        LogLevel::Info
    } else if verbose == 2 {
        LogLevel::Debug
    } else {
        LogLevel::Trace
    }
}

/// Chooses the level of reporting from the flags of the command line.
pub fn log_level(quiet: bool, verbose: u64) -> (r: LogLevel)
    ensures
        r == level_for(quiet, verbose as nat),
{
    if quiet {
        LogLevel::Off
    } else if verbose == 0 {
        LogLevel::Error
    } else if verbose == 1 {
        LogLevel::Info
    } else if verbose == 2 {
        LogLevel::Debug
    } else {
        LogLevel::Trace
    }
}

/// Being told to be quiet wins over any number of verbose flags, and
/// without it more verbose flags never mean less reporting.
pub proof fn lemma_levels(verbose: nat, more: nat)
    requires
        verbose <= more,
    ensures
        level_for(true, verbose) == LogLevel::Off,
        level_for(false, verbose).rank() <= level_for(false, more).rank(),
        level_for(false, verbose) != LogLevel::Off,
{
}

} // verus!
