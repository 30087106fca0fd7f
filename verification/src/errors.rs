use vstd::prelude::*;

verus! {

/// Why an operation could not be carried out.
#[derive(Clone, PartialEq, Eq, Debug)]
pub enum OpError {
    /// A required prompt default was absent while input was required.
    MissingArgument,
    /// A repository query failed to resolve a reference or branch.
    NoSuchRef,
    /// The external tool exited unsuccessfully; carries its captured
    /// diagnostic text.
    ExternalToolFailure { detail: String },
    /// The operation exists in the catalogue but is not realised yet; it
    /// fails loudly at dispatch instead of silently doing nothing.
    NotImplemented,
    /// Entering or restoring the terminal mode failed.
    TerminalModeError,
}

/// How an external process ended.
#[derive(Clone, Copy, PartialEq, Eq, Structural, Debug)]
pub enum ExitStatus {
    /// The process exited on its own with this code.
    Exited(u64),
    /// The process was forcibly terminated before it could exit.
    Terminated,
}

impl ExitStatus {
    /// A run succeeded exactly when the process exited with code zero.
    pub open spec fn is_success(self) -> bool {
        self == ExitStatus::Exited(0u64)
    }

    /// Whether this status reports a successful run.
    pub fn success(&self) -> (r: bool)
        ensures
            r == self.is_success(),
    {
        match self {
            ExitStatus::Exited(code) => *code == 0,
            ExitStatus::Terminated => false,
        }
    }
}

} // verus!
