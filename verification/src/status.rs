use vstd::prelude::*;

verus! {

/// The closed set of lifecycle phases of a supervised workload.
///
/// Exactly one phase is active per workload at any instant: never zero once
/// supervision has started, never more than one.
#[derive(Clone, Copy, Debug, PartialEq, Eq, Structural)]
pub enum Phase {
    /// The workload's package is being (re)installed.
    Installing,
    /// The workload process is expected to be alive.
    Running,
    /// The workload is being terminated gracefully.
    Stopping,
    /// The workload process died or became unobservable.
    Failed,
}

/// The label under which a phase is reported upward.
pub open spec fn phase_label(p: Phase) -> Seq<char> {
    match p {
        Phase::Installing => "Installing"@,
        Phase::Running => "Running"@,
        Phase::Stopping => "Stopping"@,
        Phase::Failed => "Failed"@,
    }
}

impl Phase {
    /// The externally reported label, decoupled from the internal phase
    /// identity so internal states can be refactored without breaking the
    /// reporting contract.
    pub fn label(&self) -> (s: String)
        ensures
            s@ == phase_label(*self),
    {
        match self {
            Phase::Installing => String::from_str("Installing"),
            Phase::Running => String::from_str("Running"),
            Phase::Stopping => String::from_str("Stopping"),
            Phase::Failed => String::from_str("Failed"),
        }
    }
}

/// A status report handed upward on demand: the active phase's label together
/// with a human-readable message. Derived read-only from the active phase;
/// producing it never mutates the handle or the poll cadence.
#[derive(Debug)]
pub struct StatusReport {
    /// The currently active lifecycle phase.
    pub phase: Phase,
    /// A non-empty human-readable description of the phase.
    pub message: String,
}

} // verus!
