use managed_command::{plan_workers, CancelSignal, Error, Pipes, Watcher, WatcherState};

#[test]
fn cancellation_kills_the_process() {
    let mut watcher = Watcher::new();
    assert!(watcher.is_armed());
    assert!(watcher.on_signal(CancelSignal::Raised));
    assert_eq!(watcher.state, WatcherState::Fired);
    assert!(!watcher.is_armed());
}

#[test]
fn cancellation_twice_kills_once() {
    let mut watcher = Watcher::new();
    assert!(watcher.on_signal(CancelSignal::Raised));
    let after_one = watcher.state;
    assert!(!watcher.on_signal(CancelSignal::Raised));
    assert_eq!(watcher.state, after_one);
}

#[test]
fn closed_subscription_leaves_process_alone() {
    let mut watcher = Watcher::new();
    assert!(!watcher.on_signal(CancelSignal::Closed));
    assert_eq!(watcher.state, WatcherState::StoodDown);
    assert!(!watcher.on_signal(CancelSignal::Raised));
}

#[test]
fn spawned_process_gets_a_relay_per_pipe_and_a_watcher() {
    let all = Pipes { stdin: true, stdout: true, stderr: true };
    let w = plan_workers(Ok(all)).unwrap();
    assert!(w.stdin_relay && w.stdout_relay && w.stderr_relay && w.watcher);
    let some = Pipes { stdin: false, stdout: true, stderr: false };
    let w = plan_workers(Ok(some)).unwrap();
    assert!(!w.stdin_relay && w.stdout_relay && !w.stderr_relay && w.watcher);
}

#[test]
fn failed_spawn_starts_no_worker() {
    let e = std::io::Error::new(std::io::ErrorKind::NotFound, "no such program");
    match plan_workers(Err(e)) {
        Err(Error::IoError(e)) => assert_eq!(e.kind(), std::io::ErrorKind::NotFound),
        _ => panic!("a failed spawn must be the run's error"),
    }
}

#[test]
fn errors_convert_from_their_sources() {
    let e: Error = std::io::Error::new(std::io::ErrorKind::Other, "boom").into();
    assert!(matches!(e, Error::IoError(_)));
    let e: Error = std::sync::mpsc::SendError("chunk".to_owned()).into();
    match e {
        Error::SendError(s) => assert_eq!(s.0, "chunk"),
        _ => panic!("expected a send error"),
    }
}
