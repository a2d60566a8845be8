use vstd::prelude::*;

use crate::utils::output::Output;

verus! {

/// A service unit as the init system lists it.
pub struct SystemCtlProcess {
    pub unit: String,
    pub description: String,
    pub sub: String,
}

/// A service and whether it runs.
pub struct Process {
    pub name: String,
    pub description: Option<String>,
    pub running: bool,
}

/// How many log lines to fetch, and from which level on.
pub struct LogQuery {
    pub max: Option<u32>,
    pub level: Option<LogLevel>,
}

/// A journal message: text, or raw bytes where it is not text.
pub enum JournalCtlLogMessage {
    String(String),
    Raw(Vec<u8>),
}

/// A journal entry as the journal prints it.
pub struct JournalCtlLog {
    pub realtime_timestamp: String,
    pub message: JournalCtlLogMessage,
    pub priority: String,
}

/// A log line: when it was written, in microseconds since the epoch, its
/// message and its level.
pub struct Log {
    pub timestamp: u64,
    pub message: Output,
    pub level: LogLevel,
}

/// How severe a log line is.
#[derive(PartialEq, Eq, Structural, Clone, Copy, Debug)]
pub enum LogLevel {
    Error,
    Warn,
    Info,
    Unknown,
}

/// What to do to a service.
#[derive(PartialEq, Eq, Structural, Clone, Copy, Debug)]
pub enum ProcessCommand {
    Start,
    Stop,
    Restart,
}

} // verus!
