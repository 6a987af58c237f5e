//! The error taxonomy of the coordinator and its file-management helpers.
//!
//! Every failure is returned synchronously to the immediate caller as one of
//! these values; background pumps and the watcher never surface an error.

use vstd::prelude::*;

verus! {

/// What can go wrong in a foreground call.
#[derive(Clone, Copy, PartialEq, Eq, Structural, Debug)]
pub enum ToolError {
    /// The external tool binary is missing from its cached location, or an
    /// import was handed an unusable source file.
    ConfigurationError,
    /// A process is already running; at most one runs at a time.
    ConcurrencyError,
    /// The operating system failed to create the child process.
    SpawnError,
    /// The registry's mutual-exclusion guard is unavailable.
    LockError,
    /// A copy, read, write or download failed.
    IoError,
    /// The operating system failed to terminate the process tree.
    TerminationError,
}

impl ToolError {
    /// A human-readable description of the failure.
    pub fn message(&self) -> (r: &'static str)
        ensures
            *self is ConfigurationError ==> r@ == "backend not found"@,
            *self is ConcurrencyError ==> r@ == "A process is already running"@,
            *self is SpawnError ==> r@ == "Failed to start the backend process"@,
            *self is LockError ==> r@ == "Failed to lock runner state"@,
            *self is IoError ==> r@ == "File operation failed"@,
            *self is TerminationError ==> r@ == "Failed to stop running process"@,
    {
        match self {
            ToolError::ConfigurationError => "backend not found",
            ToolError::ConcurrencyError => "A process is already running",
            ToolError::SpawnError => "Failed to start the backend process",
            ToolError::LockError => "Failed to lock runner state",
            ToolError::IoError => "File operation failed",
            ToolError::TerminationError => "Failed to stop running process",
        }
    }
}

} // verus!
