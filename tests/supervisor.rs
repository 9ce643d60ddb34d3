use jarvis_launcher::{SlotRefusal, Supervisor, WorkerState};

#[test]
fn second_start_refused_while_alive() {
    let mut s = Supervisor::new();
    assert_eq!(s.request_start(false), Ok(()));
    assert_eq!(s.state(), WorkerState::Starting);
    assert_eq!(s.request_start(false), Err(SlotRefusal::AlreadyRunning));
    s.finish_start(true);
    assert_eq!(s.state(), WorkerState::Running);
    assert_eq!(s.request_start(true), Err(SlotRefusal::AlreadyRunning));
    assert_eq!(s.state(), WorkerState::Running);
}

#[test]
fn start_after_worker_exited_succeeds() {
    let mut s = Supervisor::new();
    assert_eq!(s.request_start(true), Ok(()));
    s.finish_start(true);
    assert_eq!(s.request_start(false), Ok(()));
    assert_eq!(s.state(), WorkerState::Starting);
}

#[test]
fn stop_when_idle_is_noop() {
    let mut s = Supervisor::new();
    assert!(!s.request_stop());
    assert_eq!(s.state(), WorkerState::Idle);
}

#[test]
fn stop_during_start_is_noop() {
    let mut s = Supervisor::new();
    assert_eq!(s.request_start(false), Ok(()));
    assert!(!s.request_stop());
    assert_eq!(s.state(), WorkerState::Starting);
    s.finish_start(true);
    assert_eq!(s.state(), WorkerState::Running);
}

#[test]
fn stop_clears_running_worker() {
    let mut s = Supervisor::new();
    assert_eq!(s.request_start(false), Ok(()));
    s.finish_start(true);
    assert!(s.request_stop());
    assert_eq!(s.state(), WorkerState::Idle);
    assert_eq!(s.request_start(true), Ok(()));
}

#[test]
fn failed_start_frees_slot() {
    let mut s = Supervisor::new();
    assert_eq!(s.request_start(false), Ok(()));
    s.finish_start(false);
    assert_eq!(s.state(), WorkerState::Idle);
}
