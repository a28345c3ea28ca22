//! How a child process ended.

use vstd::prelude::*;

verus! {

/// The exit status of a reaped child process.
///
/// `code` is the exit code the process returned, or `None` when it ended
/// abnormally (killed by a signal, or its status could not be obtained).
#[derive(Clone, Copy, Debug, PartialEq, Eq)]
pub struct ExitReport {
    pub code: Option<i32>,
}

impl ExitReport {
    /// A process counts as successful exactly when it returned exit code zero.
    pub open spec fn succeeded(self) -> bool {
        self.code == Some(0i32)
    }

    /// The report of a process that returned `code`.
    pub fn exited(code: i32) -> (report: ExitReport)
        ensures
            report.code == Some(code),
    {
        ExitReport { code: Some(code) }
    }

    /// The report of a process that ended without an exit code.
    pub fn abnormal() -> (report: ExitReport)
        ensures
            report.code.is_none(),
    {
        ExitReport { code: None }
    }

    /// Whether the process returned exit code zero.
    pub fn success(&self) -> (ok: bool)
        ensures
            ok == self.succeeded(),
    {
        match self.code {
            Some(code) => code == 0,
            None => false,
        }
    }
}

} // verus!
