use vstd::prelude::*;

use crate::handle::Handle;
use crate::poller::PollOutcome;
use crate::status::Phase;

verus! {

/// Read-mostly data carried for one workload across phase transitions:
/// the package descriptor and the directories the installer works in.
/// This core never modifies it; it is forwarded verbatim into the
/// `Installing` payload when a reinstall is requested.
#[derive(Debug)]
pub struct WorkloadContext {
    /// Descriptor of the package the workload runs.
    pub package: String,
    /// Directory downloaded package archives are placed in.
    pub download_directory: String,
    /// Directory packages are unpacked into.
    pub parcel_directory: String,
}

/// Why the `Running` phase failed, preserved in the transition payload so
/// downstream diagnostics can tell "the workload crashed" from "we lost the
/// ability to observe it".
#[derive(Clone, Copy, Debug, PartialEq, Eq, Structural)]
pub enum FailureCause {
    /// The process exited with the given code.
    ProcessExited(i32),
    /// The liveness probe itself failed.
    ProbeFailure,
}

/// A directive produced by a phase's advance operation: move to the named
/// phase with the given payload. A transition is total (the driver always
/// ends up with a next active state) and carries any resource the next phase
/// still needs by move.
#[derive(Debug)]
pub enum Transition {
    /// The process died or became unobservable.
    ToFailed {
        /// The distinguishing cause of the failure.
        cause: FailureCause,
        /// A fixed, cause-specific human-readable description.
        message: String,
    },
    /// Supervision was interrupted by an external stop request; graceful
    /// termination still needs the process, so the handle moves along.
    ToStopping {
        /// The process handle, moved out of the vacated phase.
        process_handle: Handle,
    },
    /// A reinstall was requested from outside; the workload context is
    /// forwarded verbatim.
    ToInstalling {
        /// Package descriptor, forwarded unchanged.
        package: String,
        /// Download directory, forwarded unchanged.
        download_directory: String,
        /// Parcel directory, forwarded unchanged.
        parcel_directory: String,
    },
}

/// The phase a transition moves the workload into.
pub open spec fn target_phase(t: Transition) -> Phase {
    match t {
        Transition::ToFailed { .. } => Phase::Failed,
        Transition::ToStopping { .. } => Phase::Stopping,
        Transition::ToInstalling { .. } => Phase::Installing,
    }
}

/// Executable counterpart of [`target_phase`], for the driver that applies
/// the transition.
pub fn transition_target(t: &Transition) -> (p: Phase)
    ensures
        p == target_phase(*t),
{
    match t {
        Transition::ToFailed { .. } => Phase::Failed,
        Transition::ToStopping { .. } => Phase::Stopping,
        Transition::ToInstalling { .. } => Phase::Installing,
    }
}

/// Fixed diagnostic message for an observed process exit.
pub open spec fn exited_message() -> Seq<char> {
    "process exited"@
}

/// Fixed diagnostic message for a failed liveness probe.
pub open spec fn probe_failure_message() -> Seq<char> {
    "process liveness probe failed"@
}

/// The transition `Running` must emit for a terminal poll outcome, given the
/// handle it owned: an observed exit or a probe failure becomes `Failed` with
/// a cause-specific message, and an interruption becomes `Stopping`, carrying
/// exactly the vacated phase's handle.
pub open spec fn transition_for(h: Handle, outcome: PollOutcome, t: Transition) -> bool {
    match outcome {
        PollOutcome::ProcessExited(code) => {
            &&& t matches Transition::ToFailed { cause, message }
            &&& cause == FailureCause::ProcessExited(code)
            &&& message@ == exited_message()
        },
        PollOutcome::ProbeFailure => {
            &&& t matches Transition::ToFailed { cause, message }
            &&& cause == FailureCause::ProbeFailure
            &&& message@ == probe_failure_message()
        },
        PollOutcome::Interrupted => t == (Transition::ToStopping { process_handle: h }),
    }
}

/// LAW: a probe-error outcome and a clean-exit outcome both yield a `Failed`
/// transition, with distinguishable causes preserved in the payload.
pub proof fn lemma_failure_causes_distinguished(
    h: Handle,
    code: i32,
    t_exit: Transition,
    t_err: Transition,
)
    requires
        transition_for(h, PollOutcome::ProcessExited(code), t_exit),
        transition_for(h, PollOutcome::ProbeFailure, t_err),
    ensures
        target_phase(t_exit) == Phase::Failed,
        target_phase(t_err) == Phase::Failed,
        t_exit->ToFailed_cause != t_err->ToFailed_cause,
{
}

/// LAW: the poll loop never reinstalls or re-enters `Running` on its own.
/// A terminal outcome maps only to `Failed` or `Stopping`; `Installing` is
/// reached solely through an external reinstall request.
pub proof fn lemma_advance_targets(h: Handle, outcome: PollOutcome, t: Transition)
    requires
        transition_for(h, outcome, t),
    ensures
        target_phase(t) == Phase::Failed || target_phase(t) == Phase::Stopping,
{
}

/// LAW: an interruption yields a `Stopping` transition, not `Failed`, and its
/// payload is exactly the handle the vacated `Running` phase owned: moved,
/// never duplicated.
pub proof fn lemma_interruption_stops_gracefully(h: Handle, t: Transition)
    requires
        transition_for(h, PollOutcome::Interrupted, t),
    ensures
        target_phase(t) == Phase::Stopping,
        t == (Transition::ToStopping { process_handle: h }),
{
}

} // verus!
