use vmm::event_loop::{event_loop_step, run_event_script, IterationOutcome, LoopAction};

#[test]
fn subscriber_error_keeps_the_loop_running() {
    assert_eq!(event_loop_step(IterationOutcome::Dispatched), LoopAction::KeepRunning);
    assert_eq!(event_loop_step(IterationOutcome::SubscriberError), LoopAction::KeepRunning);
}

#[test]
fn backend_failure_stops_the_loop() {
    assert_eq!(event_loop_step(IterationOutcome::BackendFailure), LoopAction::Stop);
}

#[test]
fn failing_event_does_not_terminate_script() {
    // A single failing event is recovered: the healthy events after it are
    // still processed and the loop never stops.
    let script = vec![
        IterationOutcome::Dispatched,
        IterationOutcome::SubscriberError,
        IterationOutcome::Dispatched,
        IterationOutcome::Dispatched,
    ];
    assert_eq!(run_event_script(&script), (4, false));
}

#[test]
fn fatal_failure_terminates_script() {
    let script = vec![
        IterationOutcome::Dispatched,
        IterationOutcome::BackendFailure,
        IterationOutcome::Dispatched,
    ];
    // The loop runs up to and including the fatal iteration, then stops.
    assert_eq!(run_event_script(&script), (2, true));
}

#[test]
fn empty_script_runs_nothing() {
    assert_eq!(run_event_script(&Vec::new()), (0, false));
}
