//! Results of steps and terminal outcomes of jobs.

use vstd::prelude::*;

verus! {

/// How a single step's child process ended: with an exit code, or the
/// process could not be launched at all.
#[derive(Clone, Copy, Debug, PartialEq, Eq)]
pub enum StepStatus {
    Exited { code: i32 },
    LaunchFailed,
}

/// The record of one executed step: its exit status, its captured output
/// streams, and how long it ran.
#[derive(Clone, Debug)]
pub struct StepResult {
    pub status: StepStatus,
    pub stdout: String,
    pub stderr: String,
    pub duration_ms: u64,
}

/// Why a step counts as failed: its process exited non-zero, or it never
/// launched.
#[derive(Clone, Copy, Debug, PartialEq, Eq)]
pub enum FailReason {
    NonZeroExit { code: i32 },
    LaunchError,
}

/// Why a job could not be set up: a step referenced a variable the job does
/// not define, or no workspace could be provided.
#[derive(Clone, Debug, PartialEq, Eq)]
pub enum SetupFault {
    MissingVariable { name: String },
    WorkspaceUnavailable,
}

/// The terminal outcome of one job, immutable once computed.
#[derive(Clone, Debug, PartialEq, Eq)]
pub enum ExecutionOutcome {
    /// Every step of the script ran and exited zero.
    Success,
    /// Step `index` failed for `reason`; no later step was started.
    Failed { index: usize, reason: FailReason },
    /// The job was cancelled before its script completed.
    Canceled,
    /// A prerequisite was missing; no step was ever started.
    SetupError { fault: SetupFault },
}

/// A step passed exactly when its process exited with code zero.
pub open spec fn status_ok(s: StepStatus) -> bool {
    match s {
        StepStatus::Exited { code } => code == 0,
        StepStatus::LaunchFailed => false,
    }
}

/// A step result counts as a pass exactly when its status does.
pub open spec fn step_ok(r: StepResult) -> bool {
    status_ok(r.status)
}

/// The failure reason recorded for a step with status `s`.
pub open spec fn spec_fail_reason(s: StepStatus) -> FailReason {
    match s {
        StepStatus::Exited { code } => FailReason::NonZeroExit { code },
        StepStatus::LaunchFailed => FailReason::LaunchError,
    }
}

/// Decides whether a step's status is a pass.
pub fn status_passes(s: &StepStatus) -> (r: bool)
    ensures
        r == status_ok(*s),
{
    match s {
        StepStatus::Exited { code } => *code == 0,
        StepStatus::LaunchFailed => false,
    }
}

/// Builds the failure reason for a step's status.
pub fn fail_reason_for(s: &StepStatus) -> (r: FailReason)
    ensures
        r == spec_fail_reason(*s),
{
    match s {
        StepStatus::Exited { code } => FailReason::NonZeroExit { code: *code },
        StepStatus::LaunchFailed => FailReason::LaunchError,
    }
}

} // verus!
