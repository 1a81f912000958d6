//! The failure taxonomy of the capture layer.

use vstd::prelude::*;

verus! {

/// Why a monitoring session could not be started or continued.
///
/// `PermissionDenied` and `RunLoopSourceCreationFailed` are failures of the
/// host system that a supervisor may retry; `AlreadyRunning` is a caller
/// error (double start) and is returned immediately, never retried.
#[derive(Debug, Clone, Copy, PartialEq, Eq, Structural)]
pub enum MonitorError {
    /// The host refused to create the tap; the user must grant
    /// input-monitoring / accessibility authorization out of band.
    PermissionDenied,
    /// A start was requested while a session was already active.
    AlreadyRunning,
    /// The tap was created but the run-loop source for it could not be.
    RunLoopSourceCreationFailed,
}

impl MonitorError {
    /// Whether a supervisor may retry after this failure.
    pub open spec fn spec_is_retryable(self) -> bool {
        match self {
            MonitorError::PermissionDenied => true,
            MonitorError::AlreadyRunning => false,
            MonitorError::RunLoopSourceCreationFailed => true,
        }
    }

    /// Whether a supervisor may retry after this failure: a caller error
    /// (double start) is not retried, the two host-level failures are.
    pub fn is_retryable(&self) -> (r: bool)
        ensures
            r == self.spec_is_retryable(),
    {
        match self {
            MonitorError::PermissionDenied => true,
            MonitorError::AlreadyRunning => false,
            MonitorError::RunLoopSourceCreationFailed => true,
        }
    }

    /// A user-facing account of the failure; the permission message points
    /// at the host's privacy settings, the only place a fix can come from.
    pub fn description(&self) -> (d: &'static str)
        ensures
            self is PermissionDenied ==> d@ == (
            "event tap refused: grant this process accessibility and input monitoring rights in the system privacy settings")@,
            self is AlreadyRunning ==> d@ == ("keyboard monitoring is already running")@,
            self is RunLoopSourceCreationFailed ==> d@ == (
            "the run-loop source for the event tap could not be created")@,
    {
        match self {
            MonitorError::PermissionDenied => "event tap refused: grant this process accessibility and input monitoring rights in the system privacy settings",
            MonitorError::AlreadyRunning => "keyboard monitoring is already running",
            MonitorError::RunLoopSourceCreationFailed => "the run-loop source for the event tap could not be created",
        }
    }
}

} // verus!
