//! Log entries and outcomes of a purchased-apps synchronisation.

use vstd::prelude::*;

use crate::ipatool::response_parser::NormalizedText;

verus! {

/// The severity, or source, of a log entry.
#[derive(Clone, Copy, Debug, PartialEq, Eq, Structural)]
pub enum LogLevel {
    Info,
    Tip,
    Success,
    Error,
    Ipatool,
}

/// One log entry for the host.
pub struct LogMessage {
    pub level: LogLevel,
    pub message: NormalizedText,
}

impl LogMessage {
    /// An entry whose text is shown as it is.
    pub fn raw(level: LogLevel, text: String) -> (res: LogMessage)
        ensures
            res.level == level,
            res.message == NormalizedText::Raw(text),
    {
        LogMessage { level, message: NormalizedText::Raw(text) }
    }
}

/// How a synchronisation ended.
pub enum SyncOutcome {
    Completed { synced: i64, total: i64 },
    AlreadyRunning,
    Canceled,
    InvalidAccount,
    Failed { message: String },
}

} // verus!
