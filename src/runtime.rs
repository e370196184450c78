//! Building the multi-worker runtime that repeated tasks run on.

use vstd::prelude::*;
use vstd::string::StrSliceExecFns;

use crate::error::Error;

verus! {

/// Whether `s` holds a NUL character, which no thread name may hold.
pub open spec fn has_nul(s: Seq<char>) -> bool {
    exists|i: int| 0 <= i < s.len() && s[i] == '\0'
}

/// Relies on tokio's `runtime::Builder`: `new_multi_thread`, `worker_threads`
/// (which panics on 0), `thread_name`, `enable_all` and `build`, which reports
/// an I/O error where the runtime cannot be set up. `build` starts the worker
/// threads under the given name, and starting a thread panics on a name that
/// holds a NUL.
#[verifier::external_body]
fn build_multi_thread(worker_threads: usize, thread_name: &str) -> (r: Result<
    tokio::runtime::Runtime,
    std::io::Error,
>)
    requires
        worker_threads > 0,
        !has_nul(thread_name@),
{
    tokio::runtime::Builder::new_multi_thread()
        .worker_threads(worker_threads)
        .thread_name(thread_name)
        .enable_all()
        .build()
}

/// Relies on `std::io::Error::new`: an I/O error of kind `InvalidInput` that
/// carries `message`.
#[verifier::external_body]
fn invalid_input(message: &str) -> std::io::Error {
    std::io::Error::new(std::io::ErrorKind::InvalidInput, message)
}

/// Whether the thread name `s` holds a NUL character.
pub fn contains_nul(s: &str) -> (r: bool)
    ensures
        r == has_nul(s@),
{
    let n = s.unicode_len();
    let mut i: usize = 0;
    while i < n
        invariant
            n == s@.len(),
            i <= n,
            forall|j: int| 0 <= j < i ==> s@[j] != '\0',
        decreases n - i,
    {
        if s.get_char(i) == '\0' {
            return true;
        }
        i += 1;
    }
    false
}

/// Turns the outcome of a runtime build into the library's result: a failure
/// becomes [`Error::BuildRuntime`] with the I/O error as its source.
pub fn runtime_from_build(built: Result<tokio::runtime::Runtime, std::io::Error>) -> (r: Result<
    tokio::runtime::Runtime,
    Error,
>)
    ensures
        built is Ok <==> r is Ok,
        built is Ok ==> r->Ok_0 == built->Ok_0,
        built is Err ==> (r matches Err(Error::BuildRuntime { source, .. }) && source
            == built->Err_0),
{
    match built {
        Ok(rt) => Ok(rt),
        Err(source) => Err(Error::build_runtime(source)),
    }
}

/// Builds a multi-thread runtime with `worker_threads` workers whose threads
/// are named `thread_name`. A failure to build is fatal to that runtime and
/// comes back as [`Error::BuildRuntime`]; no other error is returned. A name
/// that holds a NUL cannot name a thread: it is refused before any thread
/// starts.
pub fn create_runtime(worker_threads: usize, thread_name: &str) -> (r: Result<
    tokio::runtime::Runtime,
    Error,
>)
    requires
        worker_threads > 0,
    ensures
        r is Err ==> r->Err_0 is BuildRuntime,
        has_nul(thread_name@) ==> r is Err,
{
    if contains_nul(thread_name) {
        return Err(Error::build_runtime(invalid_input("thread name contains a NUL character")));
    }
    runtime_from_build(build_multi_thread(worker_threads, thread_name))
}

} // verus!
