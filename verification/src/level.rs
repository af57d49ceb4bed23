//! Log severities, their order, their labels, and the build mode that picks
//! the minimum severity a logger retains.
use vstd::prelude::*;

verus! {

/// A log record's severity.
#[derive(Clone, Copy, Debug, PartialEq, Eq, Structural)]
pub enum LogLevel {
    Debug,
    Info,
    Warn,
    Error,
}

/// The build mode, fixed per binary: development or production.
#[derive(Clone, Copy, Debug, PartialEq, Eq, Structural)]
pub enum LogMode {
    Development,
    Production,
}

/// The position of a severity in the order `Debug < Info < Warn < Error`.
pub open spec fn rank(l: LogLevel) -> int {
    match l {
        LogLevel::Debug => 0,
        LogLevel::Info => 1,
        LogLevel::Warn => 2,
        LogLevel::Error => 3,
    }
}

/// The upper-case label of a severity, as it appears in a formatted line.
pub open spec fn label_of(l: LogLevel) -> Seq<char> {
    match l {
        LogLevel::Debug => "DEBUG"@,
        LogLevel::Info => "INFO"@,
        LogLevel::Warn => "WARN"@,
        LogLevel::Error => "ERROR"@,
    }
}

/// The minimum severity retained in each build mode: everything in
/// development, `Info` and above in production.
pub open spec fn min_level_for(mode: LogMode) -> LogLevel {
    match mode {
        LogMode::Development => LogLevel::Debug,
        LogMode::Production => LogLevel::Info,
    }
}

impl LogLevel {
    /// The numeric rank of this severity.
    pub fn rank_val(self) -> (n: u8)
        ensures
            n as int == rank(self),
    {
        match self {
            LogLevel::Debug => 0,
            LogLevel::Info => 1,
            LogLevel::Warn => 2,
            LogLevel::Error => 3,
        }
    }

    /// Whether this severity is at least `min` in the order
    /// `Debug < Info < Warn < Error`.
    pub fn at_least(self, min: LogLevel) -> (r: bool)
        ensures
            r == (rank(self) >= rank(min)),
    {
        self.rank_val() >= min.rank_val()
    }

    /// The upper-case label of this severity.
    pub fn label(self) -> (s: &'static str)
        ensures
            s@ == label_of(self),
    {
        match self {
            LogLevel::Debug => "DEBUG",
            LogLevel::Info => "INFO",
            LogLevel::Warn => "WARN",
            LogLevel::Error => "ERROR",
        }
    }
}

} // verus!
