//! Severity levels for the engine's diagnostic messages.
//!
//! The engine itself never prints; an outer layer formats and emits
//! messages at these levels.

use vstd::prelude::*;

verus! {

/// Severity of a diagnostic message.
#[derive(Clone, Copy, Debug, PartialEq, Eq, Structural)]
pub enum LogLevel {
    INFO,
    ERROR,
    WARN,
}

impl LogLevel {
    /// The level's display name.
    pub fn to_str(&self) -> (r: &str)
        ensures
            r@ == match self {
                LogLevel::INFO => "INFO"@,
                LogLevel::ERROR => "ERROR"@,
                LogLevel::WARN => "WARN"@,
            },
    {
        match self {
            LogLevel::INFO => "INFO",
            LogLevel::ERROR => "ERROR",
            LogLevel::WARN => "WARN",
        }
    }
}

} // verus!
