//! Core of a node-level process lifecycle supervisor.
//!
//! The library maps a supervised host process onto a small, closed set of
//! lifecycle phases. Once a process is running, a fixed-cadence, cancellable
//! poller turns liveness probes into a single terminal outcome, and the
//! `Running` phase state maps that outcome to exactly one transition:
//! to `Failed` when the process died or became unobservable, to `Stopping`
//! (handing the process handle over by move) when supervision is interrupted,
//! or to `Installing` when a reinstall is requested from outside.
//!
//! The embedding program owns the clock and the cancellation signal: each
//! iteration it races the tick timer against the signal and hands the
//! resulting event to this library, which makes every decision.

pub mod handle;
pub mod poller;
pub mod running;
pub mod status;
pub mod transition;
