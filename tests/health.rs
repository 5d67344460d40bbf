use backend_supervisor::health::{deadline_after, health_endpoint, HealthPoll, PollAction, HEALTH_TIMEOUT_SECS, POLL_INTERVAL_MS};

/// Drives a poll on a simulated clock against a listener that accepts
/// connections from `listen_at` on (never, if `None`); returns the outcome and
/// the simulated time at which it came.
fn simulate(timeout_secs: u64, listen_at: Option<u64>) -> (bool, u64) {
    let mut now: u64 = 0;
    let mut poll = HealthPoll::new(now, timeout_secs);
    loop {
        match poll.before_attempt(now) {
            PollAction::Finish { healthy } => return (healthy, now),
            PollAction::Probe => {}
            PollAction::Sleep { .. } => unreachable!(),
        }
        let connected = listen_at.map_or(false, |t| now >= t);
        match poll.after_attempt(now, connected) {
            PollAction::Finish { healthy } => return (healthy, now),
            PollAction::Sleep { millis } => now += millis,
            PollAction::Probe => unreachable!(),
        }
    }
}

#[test]
fn listener_bound_early_is_found_within_one_interval() {
    let (healthy, at) = simulate(5, Some(300));
    assert!(healthy);
    assert!(at >= 300 && at <= 800);
}

#[test]
fn no_listener_gives_up_at_deadline() {
    let (healthy, at) = simulate(1, None);
    assert!(!healthy);
    assert_eq!(at, 1000);
}

#[test]
fn listener_after_deadline_is_not_healthy() {
    let (healthy, at) = simulate(1, Some(1200));
    assert!(!healthy);
    assert_eq!(at, 1000);
}

#[test]
fn connection_just_before_deadline_counts() {
    let mut poll = HealthPoll::new(0, 1);
    assert_eq!(poll.before_attempt(999), PollAction::Probe);
    assert_eq!(poll.after_attempt(999, true), PollAction::Finish { healthy: true });
    assert_eq!(poll.outcome(), Some(true));
}

#[test]
fn attempt_begun_at_deadline_does_not_count() {
    let mut poll = HealthPoll::new(0, 1);
    assert_eq!(poll.after_attempt(1000, true), PollAction::Finish { healthy: false });
    assert_eq!(poll.outcome(), Some(false));
}

#[test]
fn finished_poll_stays_finished() {
    let mut poll = HealthPoll::new(0, 1);
    assert_eq!(poll.before_attempt(1500), PollAction::Finish { healthy: false });
    assert_eq!(poll.before_attempt(10), PollAction::Finish { healthy: false });
    assert_eq!(poll.after_attempt(10, true), PollAction::Finish { healthy: false });
}

#[test]
fn failed_attempt_sleeps_one_interval() {
    let mut poll = HealthPoll::new(100, 30);
    assert_eq!(poll.deadline_ms(), 30100);
    assert_eq!(poll.after_attempt(100, false), PollAction::Sleep { millis: POLL_INTERVAL_MS });
    assert_eq!(poll.outcome(), None);
    assert_eq!(POLL_INTERVAL_MS, 500);
    assert_eq!(HEALTH_TIMEOUT_SECS, 30);
}

#[test]
fn deadline_saturates() {
    assert_eq!(deadline_after(5, 30), 30005);
    assert_eq!(deadline_after(u64::MAX - 10, 1), u64::MAX);
    assert_eq!(deadline_after(0, u64::MAX), u64::MAX);
}

#[test]
fn endpoint_is_loopback_port() {
    assert_eq!(health_endpoint(), "127.0.0.1:8008");
}
