use scupt_client::connect::{ConnectTask, DialOutcome};
use scupt_client::options::OptClientConnect;

#[test]
fn default_options_retry_forever() {
    let opt = OptClientConnect::new();
    assert_eq!(opt.retry_max, 0);
    assert_eq!(opt.retry_wait_ms, 50);
    let d = OptClientConnect::default();
    assert_eq!(d.retry_max, 0);
    assert_eq!(d.retry_wait_ms, 50);
}

#[test]
fn bounded_budget_exhausts_after_retry_max_dials() {
    let opt = OptClientConnect { retry_max: 2, retry_wait_ms: 10 };
    let mut t = ConnectTask::new(&opt);
    assert!(t.should_dial());
    t.record_dial(DialOutcome::Failed);
    assert!(t.should_dial());
    t.record_dial(DialOutcome::Failed);
    assert!(!t.should_dial());
    assert_eq!(t.attempts, 2);
    assert_eq!(t.endpoint, None);
    assert!(!t.finished);
}

#[test]
fn success_on_third_dial_stops_the_loop() {
    let opt = OptClientConnect { retry_max: 5, retry_wait_ms: 10 };
    let mut t = ConnectTask::new(&opt);
    t.record_dial(DialOutcome::Failed);
    assert_eq!(t.retry_wait_ms, 10);
    t.record_dial(DialOutcome::Failed);
    assert_eq!(t.retry_wait_ms, 10);
    t.record_dial(DialOutcome::Established(7));
    assert!(!t.should_dial());
    assert_eq!(t.attempts, 3);
    assert_eq!(t.endpoint, Some(7));
    assert!(t.finished);
}

#[test]
fn success_on_first_dial_stops_the_loop() {
    let opt = OptClientConnect { retry_max: 4, retry_wait_ms: 1 };
    let mut t = ConnectTask::new(&opt);
    t.record_dial(DialOutcome::Established(1));
    assert!(!t.should_dial());
    assert_eq!(t.attempts, 1);
}

#[test]
fn empty_success_stops_the_loop_without_endpoint() {
    let opt = OptClientConnect { retry_max: 3, retry_wait_ms: 1 };
    let mut t = ConnectTask::new(&opt);
    t.record_dial(DialOutcome::NoEndpoint);
    assert!(!t.should_dial());
    assert_eq!(t.attempts, 1);
    assert_eq!(t.endpoint, None);
    assert!(t.finished);
}

#[test]
fn unbounded_budget_keeps_dialing_through_failures() {
    let opt = OptClientConnect::new();
    let mut t = ConnectTask::new(&opt);
    for _ in 0..1000 {
        assert!(t.should_dial());
        t.record_dial(DialOutcome::Failed);
    }
    assert!(t.should_dial());
    assert_eq!(t.attempts, 1000);
}

#[test]
fn single_attempt_budget_dials_exactly_once() {
    let opt = OptClientConnect { retry_max: 1, retry_wait_ms: 1 };
    let mut t = ConnectTask::new(&opt);
    assert!(t.should_dial());
    t.record_dial(DialOutcome::Failed);
    assert!(!t.should_dial());
    assert_eq!(t.attempts, 1);
}
