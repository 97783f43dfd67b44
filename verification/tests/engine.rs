use elux::supervisor::{EngineState, LogBroadcast, RecvOutcome, SupervisorAction, SupervisorCore};

#[test]
fn start_stop_lifecycle() {
    let mut sup = SupervisorCore::new(128);
    assert!(!sup.status());
    let (ok, action) = sup.request_start();
    assert!(ok);
    assert_eq!(action, SupervisorAction::SpawnEngine);
    assert!(sup.status());
    let (again, action2) = sup.request_start();
    assert!(!again, "a second start without a stop must be refused");
    assert_eq!(action2, SupervisorAction::Idle);
    let (stopped, action3) = sup.request_stop();
    assert!(stopped);
    assert_eq!(action3, SupervisorAction::KillEngine);
    assert!(!sup.status());
    let (stopped_again, _) = sup.request_stop();
    assert!(!stopped_again, "a second stop must report failure, not an error");
}

#[test]
fn spawn_failure_returns_to_stopped() {
    let mut sup = SupervisorCore::new(8);
    let (ok, _) = sup.request_start();
    assert!(ok);
    sup.spawn_failed();
    assert!(!sup.status());
    let (ok2, _) = sup.request_start();
    assert!(ok2);
}

#[test]
fn silent_exit_observed_on_status_poll() {
    let mut sup = SupervisorCore::new(8);
    sup.request_start();
    assert!(sup.status());
    sup.observe_exit(true);
    assert!(!sup.status());
}

#[test]
fn subscriber_after_stop_sees_nothing_from_prior_run() {
    let mut sup = SupervisorCore::new(128);
    sup.request_start();
    sup.publish_line(String::from("engine says hello"));
    sup.publish_line(String::from("engine says more"));
    sup.request_stop();
    let mut rx = sup.logs();
    assert_eq!(sup.hub.recv(&mut rx), RecvOutcome::Empty);
    // a new run's lines do arrive
    sup.request_start();
    sup.publish_line(String::from("fresh line"));
    assert_eq!(sup.hub.recv(&mut rx), RecvOutcome::Line(String::from("fresh line")));
    assert_eq!(sup.hub.recv(&mut rx), RecvOutcome::Empty);
}

#[test]
fn broadcast_drops_oldest_when_full() {
    let mut hub = LogBroadcast::new(2);
    let mut rx = hub.subscribe();
    hub.publish(1, String::from("one"));
    hub.publish(1, String::from("two"));
    hub.publish(1, String::from("three"));
    match hub.recv(&mut rx) {
        RecvOutcome::Lagged(missed) => assert_eq!(missed, 1),
        other => panic!("expected a lag notice, got {:?}", other),
    }
    assert_eq!(hub.recv(&mut rx), RecvOutcome::Line(String::from("two")));
    assert_eq!(hub.recv(&mut rx), RecvOutcome::Line(String::from("three")));
    assert_eq!(hub.recv(&mut rx), RecvOutcome::Empty);
}

#[test]
fn independent_subscribers() {
    let mut hub = LogBroadcast::new(8);
    let mut a = hub.subscribe();
    hub.publish(1, String::from("x"));
    let mut b = hub.subscribe();
    assert_eq!(hub.recv(&mut a), RecvOutcome::Line(String::from("x")));
    assert_eq!(hub.recv(&mut b), RecvOutcome::Empty);
    hub.publish(1, String::from("y"));
    assert_eq!(hub.recv(&mut a), RecvOutcome::Line(String::from("y")));
    assert_eq!(hub.recv(&mut b), RecvOutcome::Line(String::from("y")));
}

#[test]
fn engine_state_names() {
    assert_ne!(EngineState::Stopped, EngineState::Running);
}
