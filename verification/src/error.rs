//! What can go wrong apart from a malformed name.

use vstd::prelude::*;

verus! {

/// A broken instrumentation contract. None of these can be recovered from:
/// the timing data of the thread is no longer sound, and the caller is
/// expected to stop with the message of the error.
#[derive(Clone, Copy, Debug, PartialEq, Eq, Structural)]
pub enum UsageError {
    /// A scope was entered again before it was left.
    Reentered,
    /// A scope was left that had not been entered.
    NotEntered,
    /// The profiler was asked for after it had shut down.
    ShutDown,
}

impl UsageError {
    /// The diagnostic that names the broken rule.
    pub open spec fn text(self) -> Seq<char> {
        match self {
            UsageError::Reentered => "Unable to re-enter scope"@,
            UsageError::NotEntered => "Must enter the scope before leaving"@,
            UsageError::ShutDown => "The profiler has shut down"@,
        }
    }

    /// The diagnostic that names the broken rule.
    pub fn message(&self) -> (message: &'static str)
        ensures
            message@ == self.text(),
    {
        match self {
            UsageError::Reentered => "Unable to re-enter scope",
            UsageError::NotEntered => "Must enter the scope before leaving",
            UsageError::ShutDown => "The profiler has shut down",
        }
    }
}

/// A failure inside the timing backend, as far as its answers show one.
#[derive(Clone, Copy, Debug, PartialEq, Eq, Structural)]
pub enum BackendError {
    /// The backend had no GPU thread log to give: it answered with a null
    /// handle.
    LogAllocation,
}

} // verus!
