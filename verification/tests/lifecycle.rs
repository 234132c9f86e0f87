use supervisor::{AppEvent, Supervisor, TerminationRequest, TerminationStyle};

#[test]
fn spawn_success_holds_pid() {
    let s = Supervisor::start(Some(42)).unwrap();
    assert!(s.is_running());
    assert_eq!(s.current_pid(), Some(42));
}

#[test]
fn spawn_failure_aborts_startup() {
    let r = Supervisor::start(None);
    assert!(r.is_err());
}

#[test]
fn exit_once_terminates_exactly_once() {
    let mut s = Supervisor::start(Some(42)).unwrap();
    let req = s.on_event(AppEvent::Exit, TerminationStyle::DirectSignal);
    assert_eq!(req, TerminationRequest::Signal { pid: 42 });
    assert!(!s.is_running());
    assert_eq!(s.current_pid(), None);
}

#[test]
fn exit_twice_second_is_noop() {
    let mut s = Supervisor::start(Some(7)).unwrap();
    let first = s.on_event(AppEvent::Exit, TerminationStyle::KillTreeById);
    assert_eq!(first, TerminationRequest::KillTree { pid: 7 });
    let second = s.on_event(AppEvent::Exit, TerminationStyle::KillTreeById);
    assert_eq!(second, TerminationRequest::NoOp);
    assert!(!s.is_running());
}

#[test]
fn kill_tree_style_targets_process_tree() {
    let mut s = Supervisor::new(1234);
    let req = s.on_event(AppEvent::Exit, TerminationStyle::KillTreeById);
    assert_eq!(req, TerminationRequest::KillTree { pid: 1234 });
}

#[test]
fn direct_signal_style_targets_handle() {
    let mut s = Supervisor::new(1234);
    let req = s.on_event(AppEvent::Exit, TerminationStyle::DirectSignal);
    assert_eq!(req, TerminationRequest::Signal { pid: 1234 });
}

#[test]
fn other_events_are_ignored() {
    let mut s = Supervisor::new(9);
    let req = s.on_event(AppEvent::Other, TerminationStyle::DirectSignal);
    assert_eq!(req, TerminationRequest::NoOp);
    assert!(s.is_running());
    assert_eq!(s.current_pid(), Some(9));
}

#[test]
fn take_for_termination_cannot_be_retaken() {
    let mut s = Supervisor::new(9);
    assert_eq!(s.take_for_termination(), Some(9));
    assert_eq!(s.take_for_termination(), None);
    assert!(!s.is_running());
}

#[test]
fn termination_request_is_exact_per_style() {
    assert_eq!(
        supervisor::termination_request(3, TerminationStyle::KillTreeById),
        TerminationRequest::KillTree { pid: 3 }
    );
    assert_eq!(
        supervisor::termination_request(3, TerminationStyle::DirectSignal),
        TerminationRequest::Signal { pid: 3 }
    );
}
