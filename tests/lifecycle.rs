use std::time::Duration;

use common_runtime::error::{Error, ErrorKind, JoinFailure};
use common_runtime::runtime::{contains_nul, create_runtime, runtime_from_build};
use common_runtime::task::{RepeatedTask, TaskState};

fn new_task() -> RepeatedTask {
    RepeatedTask::new("gc".to_string(), 50)
}

fn assert_illegal(r: Result<(), Error>, name: &str) {
    match r {
        Err(Error::IllegalState { name: n, .. }) => assert_eq!(n, name),
        other => panic!("expected IllegalState, got {:?}", other),
    }
}

fn join_error(panic_it: bool) -> tokio::task::JoinError {
    let rt = create_runtime(1, "join-test").unwrap();
    let handle = if panic_it {
        rt.spawn(async { panic!("job blew up") })
    } else {
        let h = rt.spawn(async { tokio::time::sleep(Duration::from_secs(60)).await });
        h.abort();
        h
    };
    rt.block_on(handle).unwrap_err()
}

#[test]
fn new_task_is_not_started() {
    let t = new_task();
    assert_eq!(t.name(), "gc");
    assert_eq!(t.interval_ms(), 50);
    assert_eq!(t.state(), TaskState::NotStarted);
    assert!(!t.is_running());
}

#[test]
fn stop_before_start_is_illegal() {
    let mut t = new_task();
    assert_illegal(t.request_stop(), "gc");
    assert_eq!(t.state(), TaskState::NotStarted);
}

#[test]
fn start_twice_is_illegal() {
    let mut t = new_task();
    assert!(t.start().is_ok());
    assert!(t.is_running());
    assert_illegal(t.start(), "gc");
    assert_eq!(t.state(), TaskState::Running);
}

#[test]
fn second_stop_is_illegal() {
    let mut t = new_task();
    t.start().unwrap();
    assert!(t.request_stop().is_ok());
    assert_eq!(t.state(), TaskState::Stopping);
    assert!(!t.is_running());
    assert_illegal(t.request_stop(), "gc");
    assert!(t.complete_stop(Ok(())).is_ok());
    assert_eq!(t.state(), TaskState::Stopped);
    assert_illegal(t.request_stop(), "gc");
}

#[test]
fn stopped_task_cannot_restart() {
    let mut t = new_task();
    t.start().unwrap();
    t.request_stop().unwrap();
    t.complete_stop(Ok(())).unwrap();
    assert_illegal(t.start(), "gc");
    assert_eq!(t.state(), TaskState::Stopped);
}

#[test]
fn failed_join_after_panic() {
    let mut t = new_task();
    t.start().unwrap();
    t.request_stop().unwrap();
    let err = t.complete_stop(Err(join_error(true))).unwrap_err();
    assert_eq!(t.state(), TaskState::Stopped);
    assert_eq!(err.kind(), ErrorKind::JoinFailure);
    assert_eq!(err.task_name().map(|n| n.as_str()), Some("gc"));
    assert_eq!(err.join_failure(), Some(JoinFailure::Panicked));
    assert!(matches!(err, Error::WaitGcTaskStop { .. }));
}

#[test]
fn failed_join_after_cancel() {
    let mut t = new_task();
    t.start().unwrap();
    t.request_stop().unwrap();
    let err = t.complete_stop(Err(join_error(false))).unwrap_err();
    assert_eq!(err.join_failure(), Some(JoinFailure::Cancelled));
}

#[test]
fn illegal_state_kind_and_name() {
    let mut t = RepeatedTask::new("compaction".to_string(), 10);
    let err = t.request_stop().unwrap_err();
    assert_eq!(err.kind(), ErrorKind::IllegalState);
    assert_eq!(err.task_name().map(|n| n.as_str()), Some("compaction"));
    assert_eq!(err.join_failure(), None);
}

#[test]
fn build_failure_maps_to_build_runtime() {
    let built = Err(std::io::Error::new(std::io::ErrorKind::Other, "no threads"));
    let err = runtime_from_build(built).unwrap_err();
    assert_eq!(err.kind(), ErrorKind::RuntimeBuildFailure);
    assert_eq!(err.task_name(), None);
    match err {
        Error::BuildRuntime { source, .. } => assert_eq!(source.to_string(), "no threads"),
        other => panic!("expected BuildRuntime, got {:?}", other),
    }
}

#[test]
fn created_runtime_runs_work() {
    let rt = create_runtime(2, "worker").unwrap();
    let h = rt.spawn(async { 40 + 2 });
    assert_eq!(rt.block_on(h).unwrap(), 42);
}

#[test]
fn thread_name_with_nul_is_refused() {
    assert!(contains_nul("gc\0worker"));
    assert!(!contains_nul("gc-worker"));
    let err = create_runtime(1, "gc\0worker").unwrap_err();
    assert_eq!(err.kind(), ErrorKind::RuntimeBuildFailure);
    match err {
        Error::BuildRuntime { source, .. } => {
            assert_eq!(source.kind(), std::io::ErrorKind::InvalidInput)
        }
        other => panic!("expected BuildRuntime, got {:?}", other),
    }
}

#[test]
fn every_error_carries_a_backtrace() {
    let mut t = new_task();
    let illegal = t.request_stop().unwrap_err();
    assert!(illegal.backtrace_opt().is_some());
    let built = Err(std::io::Error::new(std::io::ErrorKind::Other, "no threads"));
    assert!(runtime_from_build(built).unwrap_err().backtrace_opt().is_some());
    t.start().unwrap();
    t.request_stop().unwrap();
    let joined = t.complete_stop(Err(join_error(true))).unwrap_err();
    assert!(joined.backtrace_opt().is_some());
}

#[test]
fn error_constructors_keep_their_fields() {
    let e = Error::illegal_state("gc".to_string());
    assert_eq!(e.kind(), ErrorKind::IllegalState);
    assert_eq!(e.task_name().map(|n| n.as_str()), Some("gc"));
    let e = Error::wait_task_stop("gc".to_string(), join_error(false));
    assert_eq!(e.join_failure(), Some(JoinFailure::Cancelled));
    let e = Error::build_runtime(std::io::Error::new(std::io::ErrorKind::Other, "x"));
    assert_eq!(e.kind(), ErrorKind::RuntimeBuildFailure);
}
