use crate::types::LogLevel;
use vstd::prelude::*;

verus! {

/// The level of an event as the logging and tracing frameworks grade it,
/// from the most severe to the most verbose.
#[derive(Debug, Clone, Copy, PartialEq, Eq, Structural)]
pub enum Severity {
    Error,
    Warn,
    Info,
    Debug,
    Trace,
}

impl Severity {
    /// The level under which such an event is shipped: trace events travel
    /// as debug entries.
    pub open spec fn level_spec(self) -> LogLevel {
        match self {
            Severity::Error => LogLevel::ERROR,
            Severity::Warn => LogLevel::WARNING,
            Severity::Info => LogLevel::INFO,
            Severity::Debug => LogLevel::DEBUG,
            Severity::Trace => LogLevel::DEBUG,
        }
    }

    pub fn level(&self) -> (l: LogLevel)
        ensures
            l == self.level_spec(),
    {
        match self {
            Severity::Error => LogLevel::ERROR,
            Severity::Warn => LogLevel::WARNING,
            Severity::Info => LogLevel::INFO,
            Severity::Debug | Severity::Trace => LogLevel::DEBUG,
        }
    }

    /// How verbose the level is: 1 for errors up to 5 for traces.
    pub open spec fn verbosity_spec(self) -> nat {
        match self {
            Severity::Error => 1,
            Severity::Warn => 2,
            Severity::Info => 3,
            Severity::Debug => 4,
            Severity::Trace => 5,
        }
    }

    pub fn verbosity(&self) -> (v: u8)
        ensures
            v == self.verbosity_spec(),
    {
        match self {
            Severity::Error => 1,
            Severity::Warn => 2,
            Severity::Info => 3,
            Severity::Debug => 4,
            Severity::Trace => 5,
        }
    }
}

/// The most verbose level that is still forwarded, or nothing at all.
#[derive(Debug, Clone, Copy, PartialEq, Eq, Structural)]
pub enum LevelFilter {
    Off,
    Error,
    Warn,
    Info,
    Debug,
    Trace,
}

impl LevelFilter {
    /// The verbosity up to which events pass: 0 lets nothing through.
    pub open spec fn bound_spec(self) -> nat {
        match self {
            LevelFilter::Off => 0,
            LevelFilter::Error => 1,
            LevelFilter::Warn => 2,
            LevelFilter::Info => 3,
            LevelFilter::Debug => 4,
            LevelFilter::Trace => 5,
        }
    }

    pub fn bound(&self) -> (v: u8)
        ensures
            v == self.bound_spec(),
    {
        match self {
            LevelFilter::Off => 0,
            LevelFilter::Error => 1,
            LevelFilter::Warn => 2,
            LevelFilter::Info => 3,
            LevelFilter::Debug => 4,
            LevelFilter::Trace => 5,
        }
    }

    /// An event passes if it is at least as severe as the filter's level.
    pub open spec fn admits(self, severity: Severity) -> bool {
        severity.verbosity_spec() <= self.bound_spec()
    }

    pub fn enabled(&self, severity: Severity) -> (r: bool)
        ensures
            r == self.admits(severity),
    {
        severity.verbosity() <= self.bound()
    }
}

} // verus!
