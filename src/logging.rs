use vstd::prelude::*;
use vstd::string::StringExecFns;

verus! {

/// Errors of the diagnostic sink.
#[derive(Clone, Copy, Debug, PartialEq, Eq, Structural)]
pub enum LogError {
    /// The previous log file could not be deleted.
    FailedToDeleteOldLog,
    /// The log file could not be written to.
    FailedToWriteToLog,
    /// The base path could not be determined.
    FailedToGetBasePath,
    /// A byte that stands for no log level.
    InvalidLevel(u8),
}

/// Severity of a diagnostic.
#[derive(Clone, Copy, Debug, PartialEq, Eq, Structural)]
pub enum LogLevel {
    Info,
    Warning,
    Error,
}

impl LogLevel {
    /// The level that a byte stands for: 0, 1 and 2 in order of severity.
    pub fn try_from(value: u8) -> (r: Result<LogLevel, LogError>)
        ensures
            r == (if value == 0 {
                Ok(LogLevel::Info)
            } else if value == 1 {
                Ok(LogLevel::Warning)
            } else if value == 2 {
                Ok(LogLevel::Error)
            } else {
                Err(LogError::InvalidLevel(value))
            }),
    {
        if value == 0 {
            Ok(LogLevel::Info)
        } else if value == 1 {
            Ok(LogLevel::Warning)
        } else if value == 2 {
            Ok(LogLevel::Error)
        } else {
            Err(LogError::InvalidLevel(value))
        }
    }

    pub open spec fn spec_tag(self) -> Seq<char> {
        match self {
            LogLevel::Info => ""@,
            LogLevel::Warning => "[WARNING] "@,
            LogLevel::Error => "[ERROR] "@,
        }
    }

    /// The marker written after the timestamp.
    pub fn tag(&self) -> (r: &'static str)
        ensures
            r@ == self.spec_tag(),
    {
        match self {
            LogLevel::Info => "",
            LogLevel::Warning => "[WARNING] ",
            LogLevel::Error => "[ERROR] ",
        }
    }
}

/// One line of the log: `[<timestamp>] <tag><message>`.
pub fn log_line(level: LogLevel, timestamp: &str, message: &str) -> (r: String)
    ensures
        r@ == "["@ + timestamp@ + "] "@ + level.spec_tag() + message@,
{
    String::from_str("[").concat(timestamp).concat("] ").concat(level.tag()).concat(message)
}

} // verus!
