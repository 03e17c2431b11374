//! Console log sink: formats one record per line and writes it to the
//! process's standard streams. Warnings and errors go to stderr, the rest
//! to stdout.

use std::io::Write;
use vstd::prelude::*;
use crate::logger::{LogLevel, LogRecord, LogSink};

verus! {

/// The fixed label printed for each severity level.
pub open spec fn level_label(level: LogLevel) -> Seq<char> {
    match level {
        LogLevel::Error => "ERROR"@,
        LogLevel::Warn => "WARN"@,
        LogLevel::Info => "INFO"@,
        LogLevel::Debug => "DEBUG"@,
    }
}

/// Relies on std::io::stderr (with the writeln macro): prints one
/// formatted record line to the standard error stream. Output only; a
/// failed write is discarded, as a sink must not fail.
#[verifier::external_body]
fn emit_stderr_line(level: &String, component: u16, message: &str) {
    let _ = writeln!(std::io::stderr(), "[{}] comp={}: {}", level, component, message);
}

/// Relies on std::io::stdout (with the writeln macro): prints one
/// formatted record line to the standard output stream. Output only; a
/// failed write is discarded, as a sink must not fail.
#[verifier::external_body]
fn emit_stdout_line(level: &String, component: u16, message: &str) {
    let _ = writeln!(std::io::stdout(), "[{}] comp={}: {}", level, component, message);
}

/// A `LogSink` writing to the process's standard streams.
pub struct StdoutLogSink {
    history: Ghost<Seq<LogRecord>>,
}

impl StdoutLogSink {
    /// Given a severity level, returns its string representation.
    pub fn format_level(&mut self, level: LogLevel) -> (r: String)
        ensures
            *final(self) == *old(self),
            r@ == level_label(level),
    {
        let base = match level {
            LogLevel::Error => "ERROR",
            LogLevel::Warn => "WARN",
            LogLevel::Info => "INFO",
            LogLevel::Debug => "DEBUG",
        };
        base.to_owned()
    }
}

impl LogSink for StdoutLogSink {
    closed spec fn seen(&self) -> Seq<LogRecord> {
        self.history@
    }

    /// Prints the record to stderr for warnings and errors, stdout
    /// otherwise.
    fn write(&mut self, record: &LogRecord) {
        let level_str = self.format_level(record.level);
        match record.level {
            LogLevel::Error | LogLevel::Warn => {
                emit_stderr_line(&level_str, record.component.0, record.message);
            },
            LogLevel::Info | LogLevel::Debug => {
                emit_stdout_line(&level_str, record.component.0, record.message);
            },
        }
        self.history = Ghost(self.history@.push(*record));
    }
}

/// The stdout sink as the default `LogSink`, with an empty history.
pub fn make_default_log_sink() -> (r: StdoutLogSink)
    ensures
        r.seen() == Seq::<LogRecord>::empty(),
{
    StdoutLogSink { history: Ghost(Seq::empty()) }
}

} // verus!
