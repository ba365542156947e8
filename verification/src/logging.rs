//! Logging: a leveled sink that workers and the controller can be given,
//! with a console-backed implementation and a per-thread wrapper.

use vstd::prelude::*;
use vstd::string::StringExecFns;
use std::io::Write;

verus! {

/// Severity of a single log message, most severe first.
#[derive(Debug, Clone, Copy, PartialEq, Eq, Structural)]
pub enum LogLevel {
    /// A failure
    Error,
    /// A hazard
    Warn,
    /// Routine information
    Info,
    /// Diagnostic detail
    Debug,
    /// Finest-grained detail
    Trace,
}

/// Upper severity bound for what a logger lets through.
#[derive(Debug, Clone, Copy, PartialEq, Eq, Structural)]
pub enum LevelFilter {
    /// Let nothing through
    Off,
    /// Let only errors through
    Error,
    /// Let warnings and errors through
    Warn,
    /// Let info, warnings and errors through
    Info,
    /// Let debug and above through
    Debug,
    /// Let everything through
    Trace,
}

/// The rank of a message severity: lower is more severe.
pub open spec fn level_rank(level: LogLevel) -> int {
    match level {
        LogLevel::Error => 1,
        LogLevel::Warn => 2,
        LogLevel::Info => 3,
        LogLevel::Debug => 4,
        LogLevel::Trace => 5,
    }
}

/// The rank of a filter: messages with a rank up to it pass.
pub open spec fn filter_rank(filter: LevelFilter) -> int {
    match filter {
        LevelFilter::Off => 0,
        LevelFilter::Error => 1,
        LevelFilter::Warn => 2,
        LevelFilter::Info => 3,
        LevelFilter::Debug => 4,
        LevelFilter::Trace => 5,
    }
}

/// Whether a message of the given severity passes the filter.
pub fn level_passes(level: LogLevel, filter: LevelFilter) -> (r: bool)
    ensures
        r == (level_rank(level) <= filter_rank(filter)),
{
    let lr: u8 = match level {
        LogLevel::Error => 1,
        LogLevel::Warn => 2,
        LogLevel::Info => 3,
        LogLevel::Debug => 4,
        LogLevel::Trace => 5,
    };
    let fr: u8 = match filter {
        LevelFilter::Off => 0,
        LevelFilter::Error => 1,
        LevelFilter::Warn => 2,
        LevelFilter::Info => 3,
        LevelFilter::Debug => 4,
        LevelFilter::Trace => 5,
    };
    lr <= fr
}

/// The display name of a severity.
fn level_name(level: LogLevel) -> (r: &'static str) {
    match level {
        LogLevel::Error => "ERROR",
        LogLevel::Warn => "WARN",
        LogLevel::Info => "INFO",
        LogLevel::Debug => "DEBUG",
        LogLevel::Trace => "TRACE",
    }
}

/// Relies on std::io::Stdout and the writeln macro: prints one line to
/// standard output; nothing is claimed of the console.
#[verifier::external_body]
fn emit_line(line: &str) {
    let _ = writeln!(std::io::stdout(), "{}", line);
}

/// Logger trait for configurable logging.
pub trait Logger: Sized {
    /// The configured filter, for contracts.
    spec fn level_spec(&self) -> LevelFilter;

    /// Log a message.
    fn log(&self, level: LogLevel, target: &str, message: &str);

    /// Set the log level.
    fn set_level(&mut self, level: LevelFilter)
        ensures
            final(self).level_spec() == level,
    ;

    /// Get the log level.
    fn level(&self) -> (r: LevelFilter)
        ensures
            r == self.level_spec(),
    ;
}

/// Simple logger implementation: messages within the configured level
/// are printed to standard output as `[LEVEL] target: message`.
pub struct SimpleLogger {
    /// Log level
    level: LevelFilter,
}

impl SimpleLogger {
    /// Create a new simple logger with the given filter.
    pub fn new(level: LevelFilter) -> (r: Self)
        ensures
            r.level_spec() == level,
    {
        SimpleLogger { level }
    }

    /// Field-for-field copy.
    pub fn duplicate(&self) -> (r: Self)
        ensures
            r.level_spec() == self.level_spec(),
    {
        SimpleLogger { level: self.level }
    }
}

impl Logger for SimpleLogger {
    closed spec fn level_spec(&self) -> LevelFilter {
        self.level
    }

    fn log(&self, level: LogLevel, target: &str, message: &str) {
        if level_passes(level, self.level) {
            let line = "[".to_owned().concat(level_name(level)).concat("] ").concat(
                target,
            ).concat(": ").concat(message);
            emit_line(line.as_str());
        }
    }

    fn set_level(&mut self, level: LevelFilter)
        ensures
            final(self).level_spec() == level,
    {
        self.level = level;
    }

    fn level(&self) -> (r: LevelFilter)
        ensures
            r == self.level_spec(),
    {
        self.level
    }
}

/// Thread-specific logger: prefixes every message's target with the
/// owning thread's identifier.
pub struct ThreadLogger {
    /// Inner logger
    inner: SimpleLogger,
    /// Thread ID
    thread_id: u32,
}

impl ThreadLogger {
    /// Create a new thread logger around a base logger.
    pub fn new(thread_id: u32, inner: SimpleLogger) -> (r: Self)
        ensures
            r.thread_id_spec() == thread_id,
    {
        ThreadLogger { inner, thread_id }
    }

    /// The owning thread's identifier, for contracts.
    pub closed spec fn thread_id_spec(self) -> u32 {
        self.thread_id
    }

    /// The target text for this thread's messages.
    fn target(&self) -> String {
        "Thread ".to_owned().concat(crate::error::u64_to_dec(self.thread_id as u64).as_str())
    }

    /// Log an error message.
    pub fn error(&self, message: &str) {
        self.inner.log(LogLevel::Error, self.target().as_str(), message);
    }

    /// Log a warning message.
    pub fn warn(&self, message: &str) {
        self.inner.log(LogLevel::Warn, self.target().as_str(), message);
    }

    /// Log an info message.
    pub fn info(&self, message: &str) {
        self.inner.log(LogLevel::Info, self.target().as_str(), message);
    }

    /// Log a debug message.
    pub fn debug(&self, message: &str) {
        self.inner.log(LogLevel::Debug, self.target().as_str(), message);
    }

    /// Log a trace message.
    pub fn trace(&self, message: &str) {
        self.inner.log(LogLevel::Trace, self.target().as_str(), message);
    }
}

} // verus!
