use vstd::prelude::*;

verus! {

/// A service unit as the init system lists it.
pub struct SystemCtlProcess {
    pub unit: String,
    pub description: String,
    pub sub: String,
}

/// A service and whether it runs.
pub struct Process {
    pub name: String,
    pub description: Option<String>,
    pub running: bool,
}

/// A journal message: text, or raw bytes where it is not text.
pub enum JournalCtlLogMessage {
    String(String),
    Raw(Vec<u8>),
}

/// A journal entry as the journal prints it.
pub struct JournalCtlLog {
    pub realtime_timestamp: String,
    pub message: JournalCtlLogMessage,
}

/// A log message: text, or raw bytes.
pub enum LogMessage {
    UTF8 { string: String },
    Raw { bytes: Vec<u8> },
}

/// A log line: when it was written, in microseconds since the epoch, and
/// its message.
pub struct Log {
    pub timestamp: u64,
    pub message: LogMessage,
}

} // verus!
