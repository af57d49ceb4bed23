//! Structured log records, their one textual rendering, and the logger that
//! filters them by severity.
use crate::level::{label_of, min_level_for, rank, LogLevel, LogMode};
use crate::text::{pad2, pad2_digits, pad4, pad4_digits};
use crate::time::Timestamp;
use vstd::prelude::*;
use vstd::string::StringExecFns;

verus! {

/// One log event: a severity, the name of the originating operation, a
/// message, and the moment it happened. Immutable once created; only its
/// formatted rendering is ever written.
#[derive(Debug, Clone)]
pub struct LogRecord {
    pub level: LogLevel,
    pub target: String,
    pub message: String,
    pub stamp: Timestamp,
}

impl LogRecord {
    /// A record is well formed when its timestamp is.
    pub open spec fn wf(self) -> bool {
        self.stamp.wf()
    }
}

/// The one textual rendering of a record, written identically to every sink:
/// `[YYYY-MM-DD][HH:MM:SS][LEVEL][TARGET] MESSAGE`.
pub open spec fn line_of(r: LogRecord) -> Seq<char> {
    "["@ + pad4_digits(r.stamp.year as nat) + "-"@ + pad2_digits(r.stamp.month as nat) + "-"@
        + pad2_digits(r.stamp.day as nat) + "]["@ + pad2_digits(r.stamp.hour as nat) + ":"@
        + pad2_digits(r.stamp.minute as nat) + ":"@ + pad2_digits(r.stamp.second as nat) + "]["@
        + label_of(r.level) + "]["@ + r.target@ + "] "@ + r.message@
}

/// The formatted line of a record.
pub fn format_line(r: &LogRecord) -> (s: String)
    requires
        r.wf(),
    ensures
        s@ == line_of(*r),
{
    let mut s = String::from_str("[");
    s.append(pad4(r.stamp.year).as_str());
    s.append("-");
    s.append(pad2(r.stamp.month).as_str());
    s.append("-");
    s.append(pad2(r.stamp.day).as_str());
    s.append("][");
    s.append(pad2(r.stamp.hour).as_str());
    s.append(":");
    s.append(pad2(r.stamp.minute).as_str());
    s.append(":");
    s.append(pad2(r.stamp.second).as_str());
    s.append("][");
    s.append(r.level.label());
    s.append("][");
    s.append(r.target.as_str());
    s.append("] ");
    s.append(r.message.as_str());
    proof {
        assert(s@ =~= line_of(*r));
    }
    s
}

/// The process-wide logging facility, resolved once at startup: it keeps the
/// minimum severity of the active build mode and turns each retained record
/// into the one line every sink writes.
pub struct Logger {
    pub min_level: LogLevel,
}

impl Logger {
    /// A logger for the given build mode: it retains everything in
    /// development and `Info` and above in production.
    pub fn new(mode: LogMode) -> (l: Logger)
        ensures
            l.min_level == min_level_for(mode),
    {
        match mode {
            LogMode::Development => Logger { min_level: LogLevel::Debug },
            LogMode::Production => Logger { min_level: LogLevel::Info },
        }
    }

    /// The line to write for a record: its formatted rendering when the
    /// record reaches the minimum severity, and nothing otherwise — a
    /// dropped record is never formatted.
    pub fn emit(&self, r: &LogRecord) -> (o: Option<String>)
        requires
            r.wf(),
        ensures
            rank(r.level) >= rank(self.min_level) ==> (o matches Some(line) && line@ == line_of(
                *r,
            )),
            rank(r.level) < rank(self.min_level) ==> o is None,
    {
        if r.level.at_least(self.min_level) {
            Some(format_line(r))
        } else {
            None
        }
    }
}

} // verus!
