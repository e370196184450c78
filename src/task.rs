//! The lifecycle of a repeated task: a name, an interval and a state that
//! moves from not started to running, stopping and stopped.
//!
//! The task does not hold the job, the cancellation signal or the handle of
//! the spawned execution: the caller spawns the scheduler loop exactly when
//! [`RepeatedTask::start`] succeeds, signals cancellation and joins exactly
//! when [`RepeatedTask::request_stop`] succeeds, and reports the join's outcome
//! through [`RepeatedTask::complete_stop`]. A caller that shares the task
//! between threads makes each of these calls under one lock, so that every
//! check-and-set of the state is atomic.
//!
//! Stopping is not idempotent: a `stop` on a task that is stopping or stopped
//! is an illegal state, so that the execution is joined exactly once.

use vstd::prelude::*;

use crate::error::Error;

verus! {

/// Where a repeated task stands in its lifecycle.
#[derive(Debug, Clone, Copy, PartialEq, Eq, Structural)]
pub enum TaskState {
    /// Created; no execution has been spawned.
    NotStarted,
    /// Its scheduler loop has been spawned and no stop was asked for.
    Running,
    /// Cancellation was signalled; the execution is being joined.
    Stopping,
    /// The execution was joined. A stopped task cannot be started again.
    Stopped,
}

/// The state that `start` moves `s` to, or `None` where starting is illegal.
pub open spec fn start_next(s: TaskState) -> Option<TaskState> {
    if s is NotStarted {
        Some(TaskState::Running)
    } else {
        None
    }
}

/// The state that a stop request moves `s` to, or `None` where stopping is
/// illegal.
pub open spec fn stop_next(s: TaskState) -> Option<TaskState> {
    if s is Running {
        Some(TaskState::Stopping)
    } else {
        None
    }
}

/// The number of scheduler loops that belong to a task in state `s`.
pub open spec fn live_loops(s: TaskState) -> nat {
    if s is Running || s is Stopping {
        1
    } else {
        0
    }
}

/// The state after an attempted transition: the new state where it was
/// legal, the old one where it was refused.
pub open spec fn after(s: TaskState, next: Option<TaskState>) -> TaskState {
    match next {
        Some(n) => n,
        None => s,
    }
}

/// `r` is the illegal-state error of the task named `name`.
pub open spec fn is_illegal_state(r: Result<(), Error>, name: Seq<char>) -> bool {
    r matches Err(Error::IllegalState { name: n, .. }) && n@ == name
}

/// Stopping a task that was never started is illegal and leaves it as it was.
pub proof fn lemma_stop_before_start(s: TaskState)
    requires
        s is NotStarted,
    ensures
        stop_next(s) is None,
        after(s, stop_next(s)) == s,
{
}

/// Whatever the state, a second start right after a first is illegal; from a
/// new task the first succeeds, and after both exactly one scheduler loop
/// belongs to the task.
pub proof fn lemma_start_twice(s: TaskState)
    ensures
        start_next(after(s, start_next(s))) is None,
        s is NotStarted ==> start_next(s) is Some,
        s is NotStarted ==> live_loops(
            after(after(s, start_next(s)), start_next(after(s, start_next(s)))),
        ) == 1,
{
}

/// In no state does more than one scheduler loop belong to a task.
pub proof fn lemma_at_most_one_loop(s: TaskState)
    ensures
        live_loops(s) <= 1,
{
}

/// Two stop requests one after the other, as the atomic check-and-set orders
/// two concurrent callers: at most one succeeds, so the execution is joined
/// at most once; on a running task exactly the first succeeds, and the other
/// caller gets `IllegalState`. The caller whose request succeeded then gets
/// the join's outcome from `complete_stop`: success, or `WaitGcTaskStop` where
/// the join failed.
pub proof fn lemma_stop_twice(s: TaskState)
    ensures
        !(stop_next(s) is Some && stop_next(after(s, stop_next(s))) is Some),
        s is Running ==> stop_next(s) is Some,
        s is Running ==> stop_next(after(s, stop_next(s))) is None,
{
}

/// A stopped task is final: it can be neither started nor stopped again, and
/// no scheduler loop belongs to it.
pub proof fn lemma_stopped_is_final(s: TaskState)
    requires
        s is Stopped,
    ensures
        start_next(s) is None,
        stop_next(s) is None,
        live_loops(s) == 0,
{
}

/// The abstract value of a repeated task.
pub struct TaskView {
    pub name: Seq<char>,
    pub interval_ms: nat,
    pub state: TaskState,
}

/// A named job re-run every `interval_ms` milliseconds until it is stopped.
pub struct RepeatedTask {
    name: String,
    interval_ms: u64,
    state: TaskState,
}

impl View for RepeatedTask {
    type V = TaskView;

    closed spec fn view(&self) -> TaskView {
        TaskView { name: self.name@, interval_ms: self.interval_ms as nat, state: self.state }
    }
}

impl RepeatedTask {
    /// A task is well formed when its name is not empty and its interval is
    /// positive.
    pub open spec fn wf(&self) -> bool {
        self@.name.len() > 0 && self@.interval_ms > 0
    }

    /// A task named `name` that runs every `interval_ms` milliseconds, not
    /// started yet.
    pub fn new(name: String, interval_ms: u64) -> (r: Self)
        requires
            name@.len() > 0,
            interval_ms > 0,
        ensures
            r@ == (TaskView { name: name@, interval_ms: interval_ms as nat, state: TaskState::NotStarted }),
            r.wf(),
    {
        RepeatedTask { name, interval_ms, state: TaskState::NotStarted }
    }

    /// The task's name.
    pub fn name(&self) -> (r: &String)
        ensures
            r@ == self@.name,
    {
        &self.name
    }

    /// The interval between two runs of the job, in milliseconds.
    pub fn interval_ms(&self) -> (r: u64)
        ensures
            r as nat == self@.interval_ms,
    {
        self.interval_ms
    }

    /// The task's lifecycle state.
    pub fn state(&self) -> (r: TaskState)
        ensures
            r == self@.state,
    {
        self.state
    }

    /// Whether the task is running: started and not asked to stop. A snapshot
    /// for observation only; a concurrent stop may make it stale at once.
    pub fn is_running(&self) -> (r: bool)
        ensures
            r == (self@.state is Running),
    {
        match self.state {
            TaskState::Running => true,
            _ => false,
        }
    }

    /// Starts the task: legal only from `NotStarted`, and then moves it to
    /// `Running`; the caller spawns the scheduler loop exactly when this
    /// returns `Ok`. Any other state gives `IllegalState` and changes nothing.
    pub fn start(&mut self) -> (r: Result<(), Error>)
        ensures
            final(self)@.name == old(self)@.name,
            final(self)@.interval_ms == old(self)@.interval_ms,
            final(self)@.state == after(old(self)@.state, start_next(old(self)@.state)),
            r is Ok <==> start_next(old(self)@.state) is Some,
            r is Err ==> is_illegal_state(r, old(self)@.name),
    {
        match self.state {
            TaskState::NotStarted => {
                self.state = TaskState::Running;
                Ok(())
            },
            _ => Err(Error::illegal_state(self.name.clone())),
        }
    }

    /// Asks a running task to stop: legal only from `Running`, and then moves
    /// it to `Stopping`; the caller signals cancellation and joins the
    /// execution exactly when this returns `Ok`. Any other state (not started,
    /// already stopping or stopped) gives `IllegalState` and changes nothing.
    pub fn request_stop(&mut self) -> (r: Result<(), Error>)
        ensures
            final(self)@.name == old(self)@.name,
            final(self)@.interval_ms == old(self)@.interval_ms,
            final(self)@.state == after(old(self)@.state, stop_next(old(self)@.state)),
            r is Ok <==> stop_next(old(self)@.state) is Some,
            r is Err ==> is_illegal_state(r, old(self)@.name),
    {
        match self.state {
            TaskState::Running => {
                self.state = TaskState::Stopping;
                Ok(())
            },
            _ => Err(Error::illegal_state(self.name.clone())),
        }
    }

    /// Records the outcome of joining the stopping task's execution. The
    /// handle is consumed either way, so the task ends `Stopped`; a failed
    /// join comes back as `WaitGcTaskStop` with the task's name and the join
    /// error, which is not retried.
    pub fn complete_stop(&mut self, joined: Result<(), tokio::task::JoinError>) -> (r: Result<
        (),
        Error,
    >)
        requires
            old(self)@.state is Stopping,
        ensures
            final(self)@.name == old(self)@.name,
            final(self)@.interval_ms == old(self)@.interval_ms,
            final(self)@.state is Stopped,
            joined is Ok <==> r is Ok,
            joined is Err ==> (r matches Err(Error::WaitGcTaskStop { name, source, .. }) && name@
                == old(self)@.name && source == joined->Err_0),
    {
        self.state = TaskState::Stopped;
        match joined {
            Ok(()) => Ok(()),
            Err(source) => Err(Error::wait_task_stop(self.name.clone(), source)),
        }
    }
}

} // verus!
