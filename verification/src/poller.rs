use vstd::prelude::*;

use crate::handle::ProbeResult;

verus! {

/// Default poll cadence: one probe per second.
pub const DEFAULT_TICK_INTERVAL_MS: u64 = 1000;

/// What one iteration of the poll loop observed.
///
/// Each iteration bounds its own wait: the tick timer races fairly against a
/// cooperative cancellation signal. If the tick elapses first the handle is
/// probed; if the signal arrives first the iteration ends at once, without
/// probing and without waiting out the remaining tick.
#[derive(Clone, Copy, Debug, PartialEq, Eq, Structural)]
pub enum TickEvent {
    /// The tick elapsed and the handle was probed, with this result.
    Probe(ProbeResult),
    /// The cancellation signal won the race; no probe was performed.
    Cancelled,
}

/// The terminal outcome of one full poller lifecycle.
///
/// Exactly one terminal outcome is produced per invocation: never two, and
/// never zero once a terminal event has been observed.
#[derive(Clone, Copy, Debug, PartialEq, Eq, Structural)]
pub enum PollOutcome {
    /// The process exited with the given code.
    ProcessExited(i32),
    /// The liveness probe itself failed: the process can no longer be
    /// observed, which is reported distinctly from an observed exit.
    ProbeFailure,
    /// The cancellation signal ended the loop before the next probe.
    Interrupted,
}

/// The decision the poller takes after one iteration: keep polling, or stop
/// with a terminal outcome.
#[derive(Clone, Copy, Debug, PartialEq, Eq, Structural)]
pub enum PollDecision {
    /// The process is still alive: the loop continues.
    Continue,
    /// The loop ends with this terminal outcome.
    Terminal(PollOutcome),
}

/// The decision taken on a single tick event: a live probe continues the
/// loop, an observed exit or a probe failure is fatal, and cancellation
/// interrupts the loop without consulting any probe.
pub open spec fn decision_of(ev: TickEvent) -> PollDecision {
    match ev {
        TickEvent::Probe(ProbeResult::Alive) => PollDecision::Continue,
        TickEvent::Probe(ProbeResult::Exited(code)) => PollDecision::Terminal(
            PollOutcome::ProcessExited(code),
        ),
        TickEvent::Probe(ProbeResult::ProbeError) => PollDecision::Terminal(
            PollOutcome::ProbeFailure,
        ),
        TickEvent::Cancelled => PollDecision::Terminal(PollOutcome::Interrupted),
    }
}

/// Whether the event ends the poll loop.
pub open spec fn is_terminal(ev: TickEvent) -> bool {
    decision_of(ev) is Terminal
}

/// The outcome carried by a terminal event.
pub open spec fn outcome_of(ev: TickEvent) -> PollOutcome
    recommends
        is_terminal(ev),
{
    decision_of(ev)->0
}

/// Executable decision for one iteration of the poll loop.
///
/// The embedding loop performs the cancellable timed wait and the probe, and
/// hands the observed event here; every decision is made by this function.
pub fn poll_step(ev: TickEvent) -> (d: PollDecision)
    ensures
        d == decision_of(ev),
{
    match ev {
        TickEvent::Probe(ProbeResult::Alive) => PollDecision::Continue,
        TickEvent::Probe(ProbeResult::Exited(code)) => PollDecision::Terminal(
            PollOutcome::ProcessExited(code),
        ),
        TickEvent::Probe(ProbeResult::ProbeError) => PollDecision::Terminal(
            PollOutcome::ProbeFailure,
        ),
        TickEvent::Cancelled => PollDecision::Terminal(PollOutcome::Interrupted),
    }
}

/// The result the poller must produce on a given event trace: `None` when no
/// event is terminal, otherwise the index of the first terminal event
/// together with its outcome. The index equals the number of non-terminal
/// ticks performed before the terminal outcome.
pub open spec fn poller_run_post(events: Seq<TickEvent>, r: Option<(usize, PollOutcome)>) -> bool {
    match r {
        Some(io) => {
            &&& io.0 < events.len()
            &&& is_terminal(events[io.0 as int])
            &&& io.1 == outcome_of(events[io.0 as int])
            &&& forall|j: int| 0 <= j < io.0 ==> !is_terminal(events[j])
        },
        None => forall|j: int| 0 <= j < events.len() ==> !is_terminal(events[j]),
    }
}

/// Drives a fixed-cadence, cancellable poll loop over an owned handle.
///
/// The poller holds only the cadence. Probing and waiting are the embedding
/// loop's work; the poller decides, on each observed event, whether the loop
/// continues or ends, and with which terminal outcome.
#[derive(Clone, Copy, Debug, PartialEq, Eq, Structural)]
pub struct LivenessPoller {
    /// Fixed interval between consecutive probes, in milliseconds.
    pub interval_ms: u64,
}

impl LivenessPoller {
    /// A poller is well-formed when its cadence is a real interval.
    pub open spec fn wf(self) -> bool {
        self.interval_ms >= 1
    }

    /// A poller with the default one-second cadence.
    pub fn new() -> (p: Self)
        ensures
            p.interval_ms == DEFAULT_TICK_INTERVAL_MS,
            p.wf(),
    {
        LivenessPoller { interval_ms: DEFAULT_TICK_INTERVAL_MS }
    }

    /// A poller with the given cadence.
    pub fn with_interval(interval_ms: u64) -> (p: Self)
        requires
            interval_ms >= 1,
        ensures
            p.interval_ms == interval_ms,
            p.wf(),
    {
        LivenessPoller { interval_ms }
    }

    /// The instant, relative to a supervision start of `start_ms`, at which
    /// probe number `k` (counted from zero) fires: the cadence is fixed and
    /// independent of how long supervision has already run.
    pub open spec fn probe_instant(self, start_ms: int, k: int) -> int {
        start_ms + (k + 1) * self.interval_ms
    }

    /// Deadline of probe number `k`, in milliseconds, or `None` when that
    /// instant does not fit in the counter.
    pub fn probe_deadline_ms(&self, start_ms: u64, k: u64) -> (d: Option<u64>)
        requires
            self.wf(),
        ensures
            d is Some ==> d->0 == self.probe_instant(start_ms as int, k as int),
            d is None ==> self.probe_instant(start_ms as int, k as int) > u64::MAX,
    {
        match k.checked_add(1) {
            Some(kp1) => match kp1.checked_mul(self.interval_ms) {
                Some(off) => start_ms.checked_add(off),
                None => None,
            },
            None => {
                proof {
                    let ghost iv = self.interval_ms as int;
                    assert((k as int + 1) * iv >= k as int + 1) by (nonlinear_arith)
                        requires iv >= 1 && k as int >= 0;
                }
                None
            },
        }
    }

    /// Replays the poll loop over a deterministic event trace.
    ///
    /// Returns the index of the first terminal event and its outcome, or
    /// `None` when every event lets the loop continue. Events past the first
    /// terminal one are never examined: one invocation produces at most one
    /// terminal outcome.
    pub fn run(&self, events: &Vec<TickEvent>) -> (r: Option<(usize, PollOutcome)>)
        ensures
            poller_run_post(events@, r),
    {
        let mut i: usize = 0;
        while i < events.len()
            invariant
                i <= events@.len(),
                forall|j: int| 0 <= j < i ==> !is_terminal(events@[j]),
            decreases events@.len() - i,
        {
            match poll_step(events[i]) {
                PollDecision::Continue => {
                    i = i + 1;
                },
                PollDecision::Terminal(o) => {
                    return Some((i, o));
                },
            }
        }
        None
    }
}

/// LAW: the tick cadence is fixed. Consecutive probe instants are exactly one
/// interval apart, whatever the supervision start and however many ticks have
/// already elapsed; with a well-formed poller the instants are strictly
/// increasing.
pub proof fn lemma_fixed_cadence(p: LivenessPoller, start_ms: int, k: int)
    ensures
        p.probe_instant(start_ms, k + 1) - p.probe_instant(start_ms, k) == p.interval_ms,
        p.wf() ==> p.probe_instant(start_ms, k + 1) > p.probe_instant(start_ms, k),
{
    assert((k + 2) * p.interval_ms - (k + 1) * p.interval_ms == p.interval_ms)
        by (nonlinear_arith);
}

/// LAW: one poller invocation yields at most one terminal outcome. Any two
/// results that the poller's contract admits on the same event trace are
/// equal: the terminal index and its outcome are uniquely determined.
pub proof fn lemma_poller_outcome_unique(
    events: Seq<TickEvent>,
    r1: Option<(usize, PollOutcome)>,
    r2: Option<(usize, PollOutcome)>,
)
    requires
        poller_run_post(events, r1),
        poller_run_post(events, r2),
    ensures
        r1 == r2,
{
    match (r1, r2) {
        (Some(a), Some(b)) => {
            if a.0 < b.0 {
                assert(!is_terminal(events[a.0 as int]));
            } else if b.0 < a.0 {
                assert(!is_terminal(events[b.0 as int]));
            }
        },
        (Some(a), None) => {
            assert(!is_terminal(events[a.0 as int]));
        },
        (None, Some(b)) => {
            assert(!is_terminal(events[b.0 as int]));
        },
        (None, None) => {},
    }
}

/// LAW: for a trace of `n` still-alive probes followed by one exited probe,
/// the poller performs exactly `n` non-terminal ticks and then exactly one
/// terminal outcome, carrying the observed exit code.
pub proof fn lemma_alive_streak_then_exit(
    events: Seq<TickEvent>,
    n: usize,
    code: i32,
    r: Option<(usize, PollOutcome)>,
)
    requires
        events.len() == n + 1,
        forall|j: int| 0 <= j < n ==> events[j] == TickEvent::Probe(ProbeResult::Alive),
        events[n as int] == TickEvent::Probe(ProbeResult::Exited(code)),
        poller_run_post(events, r),
    ensures
        r == Some((n, PollOutcome::ProcessExited(code))),
{
    assert(is_terminal(events[n as int]));
    assert(forall|j: int| 0 <= j < n ==> !is_terminal(events[j]));
    lemma_poller_outcome_unique(events, r, Some((n, PollOutcome::ProcessExited(code))));
}

} // verus!
