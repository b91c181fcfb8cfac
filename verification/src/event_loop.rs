//! Decision rules of the event-driven run loop.
//!
//! The unverified front end blocks on the event-notification primitive and
//! reports each iteration's outcome; these rules decide whether the loop
//! keeps running. A single device's failure is recovered locally, while a
//! failure of the notification primitive itself is fatal.

use vstd::prelude::*;

verus! {

/// Outcome of one event-loop iteration, as reported by the front end.
#[derive(Clone, Copy, Debug, PartialEq, Eq, Structural)]
pub enum IterationOutcome {
    /// A batch of ready events was dispatched successfully.
    Dispatched,
    /// A device's event handling failed; reported and recovered locally.
    SubscriberError,
    /// The event-notification primitive itself failed; unrecoverable.
    BackendFailure,
}

/// What the loop does after an iteration.
#[derive(Clone, Copy, Debug, PartialEq, Eq, Structural)]
pub enum LoopAction {
    /// Block for the next batch of events.
    KeepRunning,
    /// Stop the VMM: the lower layer failed.
    Stop,
}

/// The loop's decision for one iteration outcome.
pub open spec fn spec_loop_action(o: IterationOutcome) -> LoopAction {
    if o == IterationOutcome::BackendFailure {
        LoopAction::Stop
    } else {
        LoopAction::KeepRunning
    }
}

/// How many iterations the loop performs on a script of outcomes: all of
/// them when none is fatal, otherwise up to and including the first fatal one.
pub open spec fn spec_iterations_run(s: Seq<IterationOutcome>) -> int
    decreases s.len(),
{
    if s.len() == 0 {
        0
    } else if s[0] == IterationOutcome::BackendFailure {
        1
    } else {
        1 + spec_iterations_run(s.drop_first())
    }
}

/// Whether the loop stops fatally somewhere in the script.
pub open spec fn spec_loop_stopped(s: Seq<IterationOutcome>) -> bool
    decreases s.len(),
{
    if s.len() == 0 {
        false
    } else if s[0] == IterationOutcome::BackendFailure {
        true
    } else {
        spec_loop_stopped(s.drop_first())
    }
}

/// Decide whether the loop keeps running after one iteration.
///
/// The loop stops exactly on a failure of the notification primitive; a
/// per-iteration subscriber failure never terminates it.
pub fn event_loop_step(outcome: IterationOutcome) -> (r: LoopAction)
    ensures
        r == spec_loop_action(outcome),
        r == LoopAction::Stop <==> outcome == IterationOutcome::BackendFailure,
{
    match outcome {
        IterationOutcome::BackendFailure => LoopAction::Stop,
        _ => LoopAction::KeepRunning,
    }
}

/// Splitting a script after a fatality-free prefix neither loses nor adds
/// iterations.
proof fn lemma_iterations_skip(s: Seq<IterationOutcome>, k: int)
    requires
        0 <= k <= s.len(),
        forall|j: int| 0 <= j < k ==> s[j] != IterationOutcome::BackendFailure,
    ensures
        spec_iterations_run(s) == k + spec_iterations_run(s.skip(k)),
        spec_loop_stopped(s) == spec_loop_stopped(s.skip(k)),
    decreases k,
{
    if k == 0 {
        assert(s.skip(0) =~= s);
    } else {
        assert(s.drop_first() =~= s.skip(1));
        lemma_iterations_skip(s.skip(1), k - 1);
        assert(s.skip(1).skip(k - 1) =~= s.skip(k));
    }
}

/// A script with no backend failure is processed to the end, whatever
/// subscriber errors it holds: a single failing event never terminates the
/// loop.
pub proof fn lemma_loop_survives_subscriber_errors(s: Seq<IterationOutcome>)
    requires
        forall|i: int| 0 <= i < s.len() ==> s[i] != IterationOutcome::BackendFailure,
    ensures
        spec_iterations_run(s) == s.len(),
        !spec_loop_stopped(s),
{
    lemma_iterations_skip(s, s.len() as int);
}

/// A backend failure terminates the loop right where it first occurs.
pub proof fn lemma_loop_stops_at_first_fatal(s: Seq<IterationOutcome>, i: int)
    requires
        0 <= i < s.len(),
        s[i] == IterationOutcome::BackendFailure,
        forall|j: int| 0 <= j < i ==> s[j] != IterationOutcome::BackendFailure,
    ensures
        spec_iterations_run(s) == i + 1,
        spec_loop_stopped(s),
{
    lemma_iterations_skip(s, i);
}

/// Drive the loop over a finite script of iteration outcomes.
///
/// Returns how many iterations ran and whether the loop stopped fatally.
pub fn run_event_script(outcomes: &Vec<IterationOutcome>) -> (r: (usize, bool))
    ensures
        r.0 == spec_iterations_run(outcomes@),
        r.1 == spec_loop_stopped(outcomes@),
{
    let n = outcomes.len();
    let mut count: usize = 0;
    let mut stopped: bool = false;
    loop
        invariant_except_break
            n == outcomes@.len(),
            count <= n,
            !stopped,
            forall|j: int| 0 <= j < count ==> outcomes@[j] != IterationOutcome::BackendFailure,
        ensures
            n == outcomes@.len(),
            count <= n,
            stopped ==> 1 <= count && outcomes@[count - 1] == IterationOutcome::BackendFailure
                && (forall|j: int|
                0 <= j < count - 1 ==> outcomes@[j] != IterationOutcome::BackendFailure),
            !stopped ==> count == n && (forall|j: int|
                0 <= j < count ==> outcomes@[j] != IterationOutcome::BackendFailure),
        decreases n - count,
    {
        if count == n {
            break ;
        }
        let action = event_loop_step(outcomes[count]);
        count = count + 1;
        if let LoopAction::Stop = action {
            stopped = true;
            break ;
        }
    }
    proof {
        if stopped {
            lemma_loop_stops_at_first_fatal(outcomes@, count - 1);
        } else {
            lemma_loop_survives_subscriber_errors(outcomes@);
        }
    }
    (count, stopped)
}

} // verus!
