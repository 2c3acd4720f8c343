//! The debug logger's settings and line format.
use vstd::prelude::*;
use crate::text::concat3;

verus! {

/// Where debug messages go: nowhere when disabled, else to standard error
/// and, when a path is set, appended to that file.
pub struct DebugLogger {
    enabled: bool,
    log_file_path: Option<String>,
}

impl DebugLogger {
    /// A logger that is on when `enabled`, writing also to `log_file_path`.
    pub fn new(enabled: bool, log_file_path: Option<String>) -> (r: Self)
        ensures
            r.is_enabled_spec() == enabled,
            r.log_file_spec() == log_file_path,
    {
        DebugLogger { enabled, log_file_path }
    }

    /// Whether the logger is on.
    pub closed spec fn is_enabled_spec(&self) -> bool {
        self.enabled
    }

    /// The file the logger appends to, if any.
    pub closed spec fn log_file_spec(&self) -> Option<String> {
        self.log_file_path
    }

    /// Whether the logger is on.
    pub fn is_enabled(&self) -> (r: bool)
        ensures
            r == self.is_enabled_spec(),
    {
        self.enabled
    }

    /// The file the logger appends to, if any.
    pub fn log_file(&self) -> (r: &Option<String>)
        ensures
            *r == self.log_file_spec(),
    {
        &self.log_file_path
    }
}

/// One debug line: `[DEBUG] <timestamp> <message>`.
pub fn debug_line(timestamp: &str, message: &str) -> (r: String)
    ensures
        r@ == "[DEBUG] "@ + timestamp@ + " "@ + message@,
{
    let mut r = concat3("[DEBUG] ", timestamp, " ");
    r.append(message);
    r
}

} // verus!
