use process_supervisor::handle::{Handle, ProbeResult};
use process_supervisor::poller::{
    poll_step, LivenessPoller, PollDecision, PollOutcome, TickEvent, DEFAULT_TICK_INTERVAL_MS,
};
use process_supervisor::running::{Running, SuperviseResult};
use process_supervisor::status::Phase;
use process_supervisor::transition::{
    transition_target, FailureCause, Transition, WorkloadContext,
};

#[test]
fn alive_probe_continues() {
    let d = poll_step(TickEvent::Probe(ProbeResult::Alive));
    assert_eq!(d, PollDecision::Continue);
}

#[test]
fn exited_probe_is_terminal() {
    let d = poll_step(TickEvent::Probe(ProbeResult::Exited(1)));
    assert_eq!(d, PollDecision::Terminal(PollOutcome::ProcessExited(1)));
}

#[test]
fn probe_error_is_terminal() {
    let d = poll_step(TickEvent::Probe(ProbeResult::ProbeError));
    assert_eq!(d, PollDecision::Terminal(PollOutcome::ProbeFailure));
}

#[test]
fn cancellation_is_terminal_without_probe() {
    let d = poll_step(TickEvent::Cancelled);
    assert_eq!(d, PollDecision::Terminal(PollOutcome::Interrupted));
}

#[test]
fn poller_counts_alive_ticks_then_one_terminal() {
    let poller = LivenessPoller::new();
    let events = vec![
        TickEvent::Probe(ProbeResult::Alive),
        TickEvent::Probe(ProbeResult::Alive),
        TickEvent::Probe(ProbeResult::Alive),
        TickEvent::Probe(ProbeResult::Exited(1)),
    ];
    let r = poller.run(&events);
    assert_eq!(r, Some((3, PollOutcome::ProcessExited(1))));
}

#[test]
fn poller_stops_at_first_terminal_event() {
    let poller = LivenessPoller::new();
    let events = vec![
        TickEvent::Probe(ProbeResult::ProbeError),
        TickEvent::Probe(ProbeResult::Exited(0)),
    ];
    let r = poller.run(&events);
    assert_eq!(r, Some((0, PollOutcome::ProbeFailure)));
}

#[test]
fn poller_continues_while_alive() {
    let poller = LivenessPoller::new();
    let events = vec![
        TickEvent::Probe(ProbeResult::Alive),
        TickEvent::Probe(ProbeResult::Alive),
    ];
    let r = poller.run(&events);
    assert_eq!(r, None);
}

#[test]
fn cancellation_ends_loop_before_next_probe() {
    let poller = LivenessPoller::new();
    let events = vec![
        TickEvent::Probe(ProbeResult::Alive),
        TickEvent::Cancelled,
        TickEvent::Probe(ProbeResult::Exited(1)),
    ];
    let r = poller.run(&events);
    assert_eq!(r, Some((1, PollOutcome::Interrupted)));
}

#[test]
fn exit_outcome_fails_with_exited_message() {
    let running = Running::new(Handle { pid: 10 });
    let t = running.advance(PollOutcome::ProcessExited(1));
    match t {
        Transition::ToFailed { cause, message } => {
            assert_eq!(cause, FailureCause::ProcessExited(1));
            assert_eq!(message, "process exited");
            assert!(message.contains("exited"));
        }
        other => panic!("expected ToFailed, got {:?}", other),
    }
}

#[test]
fn probe_failure_outcome_fails_with_distinct_cause() {
    let running = Running::new(Handle { pid: 10 });
    let t = running.advance(PollOutcome::ProbeFailure);
    match t {
        Transition::ToFailed { cause, message } => {
            assert_eq!(cause, FailureCause::ProbeFailure);
            assert_eq!(message, "process liveness probe failed");
            assert_ne!(message, "process exited");
        }
        other => panic!("expected ToFailed, got {:?}", other),
    }
}

#[test]
fn interruption_moves_handle_into_stopping() {
    let running = Running::new(Handle { pid: 4242 });
    let t = running.advance(PollOutcome::Interrupted);
    match t {
        Transition::ToStopping { process_handle } => {
            assert_eq!(process_handle.pid, 4242);
        }
        other => panic!("expected ToStopping, got {:?}", other),
    }
}

#[test]
fn report_status_is_running_with_nonempty_message() {
    let running = Running::new(Handle { pid: 1 });
    let s = running.report_status();
    assert_eq!(s.phase, Phase::Running);
    assert!(!s.message.is_empty());
    assert_eq!(s.message, "status:running");
    // The state is untouched: the handle is still owned afterwards.
    assert_eq!(running.process_handle.as_ref().map(|h| h.pid), Some(1));
}

#[test]
fn supervise_end_to_end_exit_after_three_alive_ticks() {
    let running = Running::new(Handle { pid: 77 });
    // Status can be queried at any point while Running is active.
    let s = running.report_status();
    assert_eq!(s.phase, Phase::Running);
    assert!(!s.message.is_empty());
    let events = vec![
        TickEvent::Probe(ProbeResult::Alive),
        TickEvent::Probe(ProbeResult::Alive),
        TickEvent::Probe(ProbeResult::Alive),
        TickEvent::Probe(ProbeResult::Exited(1)),
    ];
    match running.supervise(&LivenessPoller::new(), &events) {
        SuperviseResult::Transitioned { ticks, transition } => {
            assert_eq!(ticks, 3);
            match transition {
                Transition::ToFailed { cause, message } => {
                    assert_eq!(cause, FailureCause::ProcessExited(1));
                    assert!(message.contains("exited"));
                }
                other => panic!("expected ToFailed, got {:?}", other),
            }
        }
        SuperviseResult::StillRunning(_) => panic!("expected a transition"),
    }
}

#[test]
fn supervise_cancellation_yields_stopping_with_moved_handle() {
    let running = Running::new(Handle { pid: 900 });
    let events = vec![
        TickEvent::Probe(ProbeResult::Alive),
        TickEvent::Cancelled,
        TickEvent::Probe(ProbeResult::Exited(0)),
    ];
    match running.supervise(&LivenessPoller::new(), &events) {
        SuperviseResult::Transitioned { ticks, transition } => {
            // The loop ended at the cancellation, before the later probe.
            assert_eq!(ticks, 1);
            match transition {
                Transition::ToStopping { process_handle } => {
                    assert_eq!(process_handle.pid, 900);
                }
                other => panic!("expected ToStopping, got {:?}", other),
            }
        }
        SuperviseResult::StillRunning(_) => panic!("expected a transition"),
    }
}

#[test]
fn supervise_without_terminal_event_stays_running() {
    let running = Running::new(Handle { pid: 5 });
    let events = vec![
        TickEvent::Probe(ProbeResult::Alive),
        TickEvent::Probe(ProbeResult::Alive),
    ];
    match running.supervise(&LivenessPoller::new(), &events) {
        SuperviseResult::StillRunning(state) => {
            assert_eq!(state.process_handle.as_ref().map(|h| h.pid), Some(5));
        }
        SuperviseResult::Transitioned { .. } => panic!("expected no transition"),
    }
}

#[test]
fn supervise_with_no_events_stays_running() {
    let running = Running::new(Handle { pid: 5 });
    let events: Vec<TickEvent> = vec![];
    assert!(matches!(
        running.supervise(&LivenessPoller::new(), &events),
        SuperviseResult::StillRunning(_)
    ));
}

#[test]
fn default_cadence_is_one_second() {
    let poller = LivenessPoller::new();
    assert_eq!(poller.interval_ms, DEFAULT_TICK_INTERVAL_MS);
    assert_eq!(poller.interval_ms, 1000);
}

#[test]
fn probe_deadlines_are_one_interval_apart_for_five_ticks() {
    let poller = LivenessPoller::new();
    let start: u64 = 250;
    let mut previous: u64 = start;
    let mut k: u64 = 0;
    while k < 5 {
        let deadline = poller.probe_deadline_ms(start, k).unwrap();
        assert_eq!(deadline - previous, 1000);
        previous = deadline;
        k += 1;
    }
    assert_eq!(previous, start + 5000);
}

#[test]
fn custom_cadence_deadlines() {
    let poller = LivenessPoller::with_interval(250);
    assert_eq!(poller.probe_deadline_ms(0, 0), Some(250));
    assert_eq!(poller.probe_deadline_ms(0, 3), Some(1000));
    assert_eq!(poller.probe_deadline_ms(100, 0), Some(350));
}

#[test]
fn probe_deadline_reports_overflow() {
    let poller = LivenessPoller::new();
    assert_eq!(poller.probe_deadline_ms(u64::MAX, 0), None);
    assert_eq!(poller.probe_deadline_ms(0, u64::MAX), None);
}

#[test]
fn reinstall_forwards_context_verbatim() {
    let running = Running::new(Handle { pid: 3 });
    let ctx = WorkloadContext {
        package: String::from("demo-package-1.0"),
        download_directory: String::from("/var/download"),
        parcel_directory: String::from("/var/parcels"),
    };
    match running.reinstall(&ctx) {
        Transition::ToInstalling {
            package,
            download_directory,
            parcel_directory,
        } => {
            assert_eq!(package, "demo-package-1.0");
            assert_eq!(download_directory, "/var/download");
            assert_eq!(parcel_directory, "/var/parcels");
        }
        other => panic!("expected ToInstalling, got {:?}", other),
    }
}

#[test]
fn phase_labels() {
    assert_eq!(Phase::Installing.label(), "Installing");
    assert_eq!(Phase::Running.label(), "Running");
    assert_eq!(Phase::Stopping.label(), "Stopping");
    assert_eq!(Phase::Failed.label(), "Failed");
}

#[test]
fn transition_targets() {
    let failed = Transition::ToFailed {
        cause: FailureCause::ProbeFailure,
        message: String::from("process liveness probe failed"),
    };
    assert_eq!(transition_target(&failed), Phase::Failed);
    let stopping = Transition::ToStopping {
        process_handle: Handle { pid: 1 },
    };
    assert_eq!(transition_target(&stopping), Phase::Stopping);
    let installing = Transition::ToInstalling {
        package: String::new(),
        download_directory: String::new(),
        parcel_directory: String::new(),
    };
    assert_eq!(transition_target(&installing), Phase::Installing);
}
