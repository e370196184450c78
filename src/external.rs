//! Declarations of the outside types that the library carries through, and
//! what it relies on of them.

use vstd::prelude::*;

verus! {

/// `std::io::Error`, carried as the cause of a failed runtime build.
#[verifier::external_type_specification]
#[verifier::external_body]
pub struct ExIoError(std::io::Error);

/// `std::backtrace::Backtrace`, captured where an error is made.
#[verifier::external_type_specification]
#[verifier::external_body]
pub struct ExBacktrace(std::backtrace::Backtrace);

/// tokio's `JoinError`, carried as the cause of a failed join.
#[verifier::external_type_specification]
#[verifier::external_body]
pub struct ExJoinError(tokio::task::JoinError);

/// tokio's multi-thread `Runtime`, on which the tasks are spawned.
#[verifier::external_type_specification]
#[verifier::external_body]
pub struct ExRuntime(tokio::runtime::Runtime);

/// Whether a join error was caused by the joined task panicking; tokio's join
/// error has two causes, a panic and a cancellation, fixed when it is made.
pub uninterp spec fn join_panicked(e: tokio::task::JoinError) -> bool;

/// Relies on `tokio::task::JoinError::is_panic`: true when the joined task
/// panicked, which depends on the join error alone.
pub assume_specification[ tokio::task::JoinError::is_panic ](e: &tokio::task::JoinError) -> (r: bool)
    ensures
        r == join_panicked(*e),
;

/// Relies on `std::backtrace::Backtrace::capture`: a backtrace of the caller,
/// or a disabled one where the environment does not ask for backtraces.
pub assume_specification[ std::backtrace::Backtrace::capture ]() -> std::backtrace::Backtrace;

} // verus!
