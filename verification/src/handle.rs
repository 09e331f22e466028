use vstd::prelude::*;

verus! {

/// A move-only reference to a spawned host process.
///
/// Exactly one phase state owns the handle at any instant; ownership is
/// transferred by move on a transition that still needs the process, and the
/// absence of a handle is always the explicit `Option::None`, never a
/// sentinel value. The type deliberately has no `Clone` or `Copy` impl, so a
/// vacated phase cannot retain a duplicate and probe it again.
#[derive(Debug, PartialEq, Eq, Structural)]
pub struct Handle {
    /// Process id recorded when the process was spawned.
    pub pid: u32,
}

/// What one non-blocking liveness probe of a [`Handle`] observed.
#[derive(Clone, Copy, Debug, PartialEq, Eq, Structural)]
pub enum ProbeResult {
    /// The process is still running.
    Alive,
    /// The process terminated with the given exit code.
    Exited(i32),
    /// Inspecting the process itself failed: liveness can no longer be
    /// observed, which is distinct from an observed exit.
    ProbeError,
}

} // verus!
