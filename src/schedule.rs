//! The decisions of the scheduler loop that runs inside a task's spawned
//! execution.
//!
//! Each cycle the loop waits for the interval to elapse or for cancellation,
//! whichever comes first. On cancellation it exits without starting another
//! run; otherwise it runs the job once, synchronously, and waits again. A
//! failed run is reported and does not end the loop. Cancellation is
//! cooperative: it is observed only while waiting, so a run in flight always
//! finishes before the loop exits.
//!
//! The executor performs each [`Action`] and hands the loop the next
//! [`LoopEvent`].

use vstd::prelude::*;

verus! {

/// Where the scheduler loop stands.
#[derive(Debug, Clone, Copy, PartialEq, Eq, Structural)]
pub enum Phase {
    /// Sleeping out the interval, or woken by cancellation.
    Waiting,
    /// A run of the job is in flight.
    Executing,
    /// The loop has ended; it never runs the job again.
    Exited,
}

/// What the executor observed and hands to the loop.
#[derive(Debug, Clone, Copy, PartialEq, Eq, Structural)]
pub enum LoopEvent {
    /// The interval elapsed before any cancellation.
    IntervalElapsed,
    /// The cancellation signal fired.
    Cancelled,
    /// The run in flight finished successfully.
    JobSucceeded,
    /// The run in flight failed.
    JobFailed,
}

/// What the loop asks the executor to do next.
#[derive(Debug, Clone, Copy, PartialEq, Eq, Structural)]
pub enum Action {
    /// Run the job once and report how it ended.
    RunJob,
    /// Wait for the interval or for cancellation.
    Wait,
    /// Report the failure of the last run, then wait for the interval or
    /// for cancellation.
    ReportFailureAndWait,
    /// End the execution.
    Exit,
}

/// The abstract value of a scheduler loop: its phase and how many runs it
/// started and saw fail.
pub struct LoopView {
    pub phase: Phase,
    pub invocations: nat,
    pub failures: nat,
}

/// Whether `e` can happen in `phase`: a wake-up while waiting, the end of
/// the run while executing, anything once exited.
pub open spec fn fits(phase: Phase, e: LoopEvent) -> bool {
    match phase {
        Phase::Waiting => e is IntervalElapsed || e is Cancelled,
        Phase::Executing => e is JobSucceeded || e is JobFailed,
        Phase::Exited => true,
    }
}

/// `n + 1`, held at the largest `u64`.
pub open spec fn count_up(n: nat) -> nat {
    if n < u64::MAX {
        n + 1
    } else {
        n
    }
}

/// The loop after event `e`, and the action it asks for. An event that does
/// not fit the phase changes nothing.
pub open spec fn step_spec(l: LoopView, e: LoopEvent) -> (LoopView, Action) {
    match (l.phase, e) {
        (Phase::Waiting, LoopEvent::IntervalElapsed) => (
            LoopView {
                phase: Phase::Executing,
                invocations: count_up(l.invocations),
                failures: l.failures,
            },
            Action::RunJob,
        ),
        (Phase::Waiting, LoopEvent::Cancelled) => (
            LoopView { phase: Phase::Exited, invocations: l.invocations, failures: l.failures },
            Action::Exit,
        ),
        (Phase::Executing, LoopEvent::JobSucceeded) => (
            LoopView { phase: Phase::Waiting, invocations: l.invocations, failures: l.failures },
            Action::Wait,
        ),
        (Phase::Executing, LoopEvent::JobFailed) => (
            LoopView {
                phase: Phase::Waiting,
                invocations: l.invocations,
                failures: count_up(l.failures),
            },
            Action::ReportFailureAndWait,
        ),
        (Phase::Exited, _) => (l, Action::Exit),
        _ => (l, Action::Wait),
    }
}

/// The loop after the events `es`, one after the other.
pub open spec fn run(l: LoopView, es: Seq<LoopEvent>) -> LoopView
    decreases es.len(),
{
    if es.len() == 0 {
        l
    } else {
        run(step_spec(l, es[0]).0, es.drop_first())
    }
}

/// `n` cycles of a job that always fails: the interval elapses, the run fails.
pub open spec fn failing_cycles(n: nat) -> Seq<LoopEvent>
    decreases n,
{
    if n == 0 {
        Seq::empty()
    } else {
        seq![LoopEvent::IntervalElapsed, LoopEvent::JobFailed] + failing_cycles((n - 1) as nat)
    }
}

/// Once the loop has exited, no event changes it: the count of runs stays
/// where it was, so the job is never run again.
pub proof fn lemma_no_run_after_exit(l: LoopView, es: Seq<LoopEvent>)
    requires
        l.phase is Exited,
    ensures
        run(l, es) == l,
    decreases es.len(),
{
    if es.len() > 0 {
        lemma_no_run_after_exit(step_spec(l, es[0]).0, es.drop_first());
    }
}

/// Cancellation never cuts a run short: a loop with a run in flight exits
/// only after it has been told that the run ended.
pub proof fn lemma_exit_waits_for_run(l: LoopView, es: Seq<LoopEvent>)
    requires
        l.phase is Executing,
        run(l, es).phase is Exited,
    ensures
        exists|i: int| 0 <= i < es.len() && (es[i] is JobSucceeded || es[i] is JobFailed),
    decreases es.len(),
{
    if es.len() > 0 && !(es[0] is JobSucceeded || es[0] is JobFailed) {
        lemma_exit_waits_for_run(l, es.drop_first());
        let i = choose|i: int|
            0 <= i < es.drop_first().len() && (es.drop_first()[i] is JobSucceeded
                || es.drop_first()[i] is JobFailed);
        assert(es[i + 1] == es.drop_first()[i]);
    }
}

/// A job that always fails does not end the loop: after `n` cycles in which
/// the interval elapses and the run fails, the loop is waiting again, having
/// started `n` more runs and seen `n` more failures.
pub proof fn lemma_failing_job_keeps_running(l: LoopView, n: nat)
    requires
        l.phase is Waiting,
        l.invocations + n <= u64::MAX,
        l.failures + n <= u64::MAX,
    ensures
        run(l, failing_cycles(n)) == (LoopView {
            phase: Phase::Waiting,
            invocations: l.invocations + n,
            failures: l.failures + n,
        }),
    decreases n,
{
    if n == 0 {
        assert(failing_cycles(n) == Seq::<LoopEvent>::empty());
    } else {
        let rest = failing_cycles((n - 1) as nat);
        let es = failing_cycles(n);
        let l1 = step_spec(l, LoopEvent::IntervalElapsed).0;
        let l2 = step_spec(l1, LoopEvent::JobFailed).0;
        assert(es[0] == LoopEvent::IntervalElapsed);
        assert(es.drop_first() =~= seq![LoopEvent::JobFailed] + rest);
        assert((seq![LoopEvent::JobFailed] + rest).drop_first() =~= rest);
        assert((seq![LoopEvent::JobFailed] + rest)[0] == LoopEvent::JobFailed);
        assert(run(l, es) == run(l1, seq![LoopEvent::JobFailed] + rest));
        assert(run(l1, seq![LoopEvent::JobFailed] + rest) == run(l2, rest));
        lemma_failing_job_keeps_running(l2, (n - 1) as nat);
    }
}

/// The state of the scheduler loop of one task's execution.
pub struct SchedulerLoop {
    phase: Phase,
    invocations: u64,
    failures: u64,
}

impl View for SchedulerLoop {
    type V = LoopView;

    closed spec fn view(&self) -> LoopView {
        LoopView {
            phase: self.phase,
            invocations: self.invocations as nat,
            failures: self.failures as nat,
        }
    }
}

impl SchedulerLoop {
    /// A loop that has not run the job yet and starts by waiting.
    pub fn new() -> (r: Self)
        ensures
            r@ == (LoopView { phase: Phase::Waiting, invocations: 0, failures: 0 }),
    {
        SchedulerLoop { phase: Phase::Waiting, invocations: 0, failures: 0 }
    }

    /// The loop's phase.
    pub fn phase(&self) -> (r: Phase)
        ensures
            r == self@.phase,
    {
        self.phase
    }

    /// How many runs of the job the loop has started, held at the largest `u64`.
    pub fn invocations(&self) -> (r: u64)
        ensures
            r as nat == self@.invocations,
    {
        self.invocations
    }

    /// How many runs of the job failed, held at the largest `u64`.
    pub fn failures(&self) -> (r: u64)
        ensures
            r as nat == self@.failures,
    {
        self.failures
    }

    /// Takes in what the executor observed and decides what it does next.
    pub fn step(&mut self, event: LoopEvent) -> (r: Action)
        requires
            fits(old(self)@.phase, event),
        ensures
            (final(self)@, r) == step_spec(old(self)@, event),
            r is Exit ==> !(old(self)@.phase is Executing),
            r is RunJob ==> event is IntervalElapsed,
    {
        match (self.phase, event) {
            (Phase::Waiting, LoopEvent::IntervalElapsed) => {
                self.phase = Phase::Executing;
                self.invocations = self.invocations.saturating_add(1);
                Action::RunJob
            },
            (Phase::Waiting, _) => {
                self.phase = Phase::Exited;
                Action::Exit
            },
            (Phase::Executing, LoopEvent::JobSucceeded) => {
                self.phase = Phase::Waiting;
                Action::Wait
            },
            (Phase::Executing, _) => {
                self.phase = Phase::Waiting;
                self.failures = self.failures.saturating_add(1);
                Action::ReportFailureAndWait
            },
            (Phase::Exited, _) => Action::Exit,
        }
    }
}

} // verus!
