//! Errors of the runtime and of repeated tasks.

use std::backtrace::Backtrace;

use vstd::prelude::*;

use crate::external::join_panicked;

verus! {

/// The result of the runtime's and the tasks' operations.
pub type Result<T> = std::result::Result<T, Error>;

/// The machine-checkable kind of an [`Error`], apart from its message.
#[derive(Debug, Clone, Copy, PartialEq, Eq, Structural)]
pub enum ErrorKind {
    /// The execution runtime could not be built.
    RuntimeBuildFailure,
    /// A lifecycle transition was asked for in a state where it is not defined.
    IllegalState,
    /// Waiting for a stopped task's execution to finish failed.
    JoinFailure,
}

/// Why the join of a task's execution failed.
#[derive(Debug, Clone, Copy, PartialEq, Eq, Structural)]
pub enum JoinFailure {
    /// The execution panicked.
    Panicked,
    /// The execution was cancelled by the runtime.
    Cancelled,
}

/// An error of the runtime or of a repeated task, with the backtrace of the
/// place where it was made.
#[derive(Debug)]
#[allow(inconsistent_fields)]
pub enum Error {
    /// Building the runtime failed.
    BuildRuntime { source: std::io::Error, backtrace: Backtrace },
    /// A repeated task was asked for a transition that its state does not allow:
    /// stopping a task that is not running, or starting one a second time.
    IllegalState { name: String, backtrace: Backtrace },
    /// Waiting for the repeated task `name` to stop failed.
    WaitGcTaskStop { name: String, source: tokio::task::JoinError, backtrace: Backtrace },
}

/// The kind of an error value.
pub open spec fn kind_of(e: Error) -> ErrorKind {
    match e {
        Error::BuildRuntime { .. } => ErrorKind::RuntimeBuildFailure,
        Error::IllegalState { .. } => ErrorKind::IllegalState,
        Error::WaitGcTaskStop { .. } => ErrorKind::JoinFailure,
    }
}

impl Error {
    /// A failed runtime build caused by `source`.
    pub fn build_runtime(source: std::io::Error) -> (r: Error)
        ensures
            r matches Error::BuildRuntime { source: s, .. } && s == source,
    {
        Error::BuildRuntime { source, backtrace: Backtrace::capture() }
    }

    /// A transition of the task `name` that its state does not allow.
    pub fn illegal_state(name: String) -> (r: Error)
        ensures
            r matches Error::IllegalState { name: n, .. } && n == name,
    {
        Error::IllegalState { name, backtrace: Backtrace::capture() }
    }

    /// A failed join of the task `name`'s execution, caused by `source`.
    pub fn wait_task_stop(name: String, source: tokio::task::JoinError) -> (r: Error)
        ensures
            r matches Error::WaitGcTaskStop { name: n, source: s, .. } && n == name && s == source,
    {
        Error::WaitGcTaskStop { name, source, backtrace: Backtrace::capture() }
    }

    /// The backtrace captured where the error was made.
    pub fn backtrace_opt(&self) -> (r: Option<&Backtrace>)
        ensures
            match *self {
                Error::BuildRuntime { backtrace, .. } => r == Some(&backtrace),
                Error::IllegalState { backtrace, .. } => r == Some(&backtrace),
                Error::WaitGcTaskStop { backtrace, .. } => r == Some(&backtrace),
            },
    {
        match self {
            Error::BuildRuntime { backtrace, .. } => Some(backtrace),
            Error::IllegalState { backtrace, .. } => Some(backtrace),
            Error::WaitGcTaskStop { backtrace, .. } => Some(backtrace),
        }
    }

    /// The kind of this error.
    pub fn kind(&self) -> (r: ErrorKind)
        ensures
            r == kind_of(*self),
    {
        match self {
            Error::BuildRuntime { .. } => ErrorKind::RuntimeBuildFailure,
            Error::IllegalState { .. } => ErrorKind::IllegalState,
            Error::WaitGcTaskStop { .. } => ErrorKind::JoinFailure,
        }
    }

    /// The name of the task that the error concerns, if it concerns one.
    pub fn task_name(&self) -> (r: Option<&String>)
        ensures
            match *self {
                Error::BuildRuntime { .. } => r is None,
                Error::IllegalState { name, .. } => r == Some(&name),
                Error::WaitGcTaskStop { name, .. } => r == Some(&name),
            },
    {
        match self {
            Error::BuildRuntime { .. } => None,
            Error::IllegalState { name, .. } => Some(name),
            Error::WaitGcTaskStop { name, .. } => Some(name),
        }
    }

    /// For a failed join, whether the execution panicked or was cancelled.
    pub fn join_failure(&self) -> (r: Option<JoinFailure>)
        ensures
            r is Some <==> *self is WaitGcTaskStop,
            *self matches Error::WaitGcTaskStop { source, .. } ==> r == Some(
                if join_panicked(source) {
                    JoinFailure::Panicked
                } else {
                    JoinFailure::Cancelled
                },
            ),
    {
        match self {
            Error::WaitGcTaskStop { source, .. } => {
                if source.is_panic() {
                    Some(JoinFailure::Panicked)
                } else {
                    Some(JoinFailure::Cancelled)
                }
            },
            _ => None,
        }
    }
}

} // verus!
