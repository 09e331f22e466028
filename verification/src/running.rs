use vstd::prelude::*;

use crate::handle::Handle;
use crate::poller::{is_terminal, outcome_of, LivenessPoller, PollOutcome, TickEvent};
use crate::status::{Phase, StatusReport};
use crate::transition::{transition_for, FailureCause, Transition, WorkloadContext};

verus! {

/// Fixed message reported while the workload process is expected to be alive.
pub open spec fn running_status_message() -> Seq<char> {
    "status:running"@
}

/// The `Running` phase state: the workload process is expected to be alive.
///
/// It is the sole owner of the process handle while active. Advancing the
/// phase consumes the state, so once a transition away from `Running` has
/// been produced the vacated state can never probe the handle again.
#[derive(Debug)]
pub struct Running {
    /// The owned process handle; `None` is the explicit "no handle" state.
    pub process_handle: Option<Handle>,
}

/// The result of driving one full poller lifecycle from `Running`.
#[derive(Debug)]
pub enum SuperviseResult {
    /// No terminal event was observed: the workload stays `Running`,
    /// unchanged and still owning its handle.
    StillRunning(Running),
    /// A terminal outcome occurred: `Running` was vacated and emitted
    /// exactly one transition.
    Transitioned {
        /// Number of non-terminal ticks completed before the terminal
        /// outcome.
        ticks: usize,
        /// The single transition produced for the terminal outcome.
        transition: Transition,
    },
}

/// What `supervise` must produce on a given event trace: if no event is
/// terminal the state is returned unchanged; otherwise exactly one transition
/// is emitted, for the outcome of the first terminal event, after exactly as
/// many non-terminal ticks as precede it.
pub open spec fn supervise_post(pre: Running, events: Seq<TickEvent>, r: SuperviseResult) -> bool {
    match r {
        SuperviseResult::StillRunning(s) => {
            &&& s == pre
            &&& forall|j: int| 0 <= j < events.len() ==> !is_terminal(events[j])
        },
        SuperviseResult::Transitioned { ticks, transition } => {
            &&& ticks < events.len()
            &&& is_terminal(events[ticks as int])
            &&& forall|j: int| 0 <= j < ticks ==> !is_terminal(events[j])
            &&& transition_for(pre.process_handle->0, outcome_of(events[ticks as int]), transition)
        },
    }
}

/// LAW: the transition away from `Running` is produced exactly once. Any two
/// results that the contract of `supervise` admits on the same event trace
/// agree: either both leave the workload running, or both transition after
/// the same number of non-terminal ticks.
pub proof fn lemma_supervise_exactly_once(
    pre: Running,
    events: Seq<TickEvent>,
    r1: SuperviseResult,
    r2: SuperviseResult,
)
    requires
        supervise_post(pre, events, r1),
        supervise_post(pre, events, r2),
    ensures
        r1 is StillRunning <==> r2 is StillRunning,
        (r1 matches SuperviseResult::Transitioned { ticks: n1, .. } ==> (r2 matches
            SuperviseResult::Transitioned { ticks: n2, .. } && n1 == n2)),
{
    match (r1, r2) {
        (
            SuperviseResult::Transitioned { ticks: n1, .. },
            SuperviseResult::Transitioned { ticks: n2, .. },
        ) => {
            if n1 < n2 {
                assert(!is_terminal(events[n1 as int]));
            } else if n2 < n1 {
                assert(!is_terminal(events[n2 as int]));
            }
        },
        (SuperviseResult::Transitioned { ticks, .. }, SuperviseResult::StillRunning(_)) => {
            assert(!is_terminal(events[ticks as int]));
        },
        (SuperviseResult::StillRunning(_), SuperviseResult::Transitioned { ticks, .. }) => {
            assert(!is_terminal(events[ticks as int]));
        },
        (SuperviseResult::StillRunning(_), SuperviseResult::StillRunning(_)) => {},
    }
}

impl Running {
    /// Enters the `Running` phase as the sole owner of the given handle.
    pub fn new(handle: Handle) -> (s: Self)
        ensures
            s.process_handle == Some(handle),
    {
        Running { process_handle: Some(handle) }
    }

    /// Whether the state owns the handle it needs to supervise.
    pub open spec fn wf(self) -> bool {
        self.process_handle is Some
    }

    /// Maps the poller's terminal outcome to the single transition away from
    /// `Running`, consuming the state. On an interruption the handle moves
    /// into the `Stopping` payload; on a failure the dead process's handle is
    /// released with the vacated state.
    pub fn advance(self, outcome: PollOutcome) -> (t: Transition)
        requires
            self.wf(),
        ensures
            transition_for(self.process_handle->0, outcome, t),
    {
        match outcome {
            PollOutcome::ProcessExited(code) => Transition::ToFailed {
                cause: FailureCause::ProcessExited(code),
                message: String::from_str("process exited"),
            },
            PollOutcome::ProbeFailure => Transition::ToFailed {
                cause: FailureCause::ProbeFailure,
                message: String::from_str("process liveness probe failed"),
            },
            PollOutcome::Interrupted => {
                let handle = self.process_handle.unwrap();
                Transition::ToStopping { process_handle: handle }
            },
        }
    }

    /// Read-only status report: phase `Running` with a fixed, non-empty
    /// message. Callable at any point while the phase is active; it takes the
    /// state by shared reference, so it can mutate neither the handle nor any
    /// poll cadence.
    pub fn report_status(&self) -> (s: StatusReport)
        ensures
            s.phase == Phase::Running,
            s.message@ == running_status_message(),
            s.message@.len() > 0,
    {
        proof {
            reveal_strlit("status:running");
        }
        StatusReport { phase: Phase::Running, message: String::from_str("status:running") }
    }

    /// Drives one full poller lifecycle over a deterministic event trace:
    /// the poller skips and counts the non-terminal ticks, and the first
    /// terminal event vacates the phase through [`Running::advance`]. Events
    /// past the first terminal one are never examined, so at most one
    /// terminal outcome is ever acted on.
    pub fn supervise(
        self,
        poller: &LivenessPoller,
        events: &Vec<TickEvent>,
    ) -> (r: SuperviseResult)
        requires
            self.wf(),
        ensures
            supervise_post(self, events@, r),
    {
        match poller.run(events) {
            None => SuperviseResult::StillRunning(self),
            Some((ticks, outcome)) => {
                let transition = self.advance(outcome);
                SuperviseResult::Transitioned { ticks, transition }
            },
        }
    }

    /// Vacates `Running` on an externally requested reinstall, forwarding the
    /// workload context verbatim into the `Installing` payload. The handle of
    /// the superseded process is released with the vacated state.
    pub fn reinstall(self, ctx: &WorkloadContext) -> (t: Transition)
        ensures
            (t matches Transition::ToInstalling { package, download_directory, parcel_directory }
                && package@ == ctx.package@
                && download_directory@ == ctx.download_directory@
                && parcel_directory@ == ctx.parcel_directory@),
    {
        Transition::ToInstalling {
            package: ctx.package.clone(),
            download_directory: ctx.download_directory.clone(),
            parcel_directory: ctx.parcel_directory.clone(),
        }
    }
}

} // verus!
