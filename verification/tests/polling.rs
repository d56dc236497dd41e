use ocs_client::poller::{poll_tick, run_poll, PollOutcome, PollTick};

fn statuses(texts: &[&str]) -> Vec<String> {
    texts.iter().map(|t| t.to_string()).collect()
}

#[test]
fn poll_times_out_after_three_checks_on_twelve_seconds() {
    // Checks fall at 0 s, 5 s and 10 s; at 15 s the 12 s timeout has
    // elapsed, so exactly three statuses were inspected.
    let s = statuses(&["pending", "pending", "pending", "pending"]);
    let (outcome, checks) = run_poll(&s, 12, 5);
    assert_eq!(outcome, PollOutcome::TimedOut);
    assert_eq!(checks, 3);
}

#[test]
fn poll_confirms_on_third_check() {
    let s = statuses(&["pending", "pending", "confirmed"]);
    let (outcome, checks) = run_poll(&s, 12, 5);
    assert_eq!(outcome, PollOutcome::Confirmed);
    assert_eq!(checks, 3);
}

#[test]
fn poll_confirms_immediately() {
    let s = statuses(&["confirmed"]);
    let (outcome, checks) = run_poll(&s, 100, 5);
    assert_eq!(outcome, PollOutcome::Confirmed);
    assert_eq!(checks, 1);
}

#[test]
fn poll_treats_unknown_statuses_as_not_yet_confirmed() {
    let s = statuses(&["queued", "Confirmed", "CONFIRMED", "pending"]);
    let (outcome, checks) = run_poll(&s, 12, 5);
    assert_eq!(outcome, PollOutcome::TimedOut);
    assert_eq!(checks, 3);
}

#[test]
fn poll_zero_timeout_checks_once() {
    // elapsed 0 is within a zero timeout, so one check happens.
    let s = statuses(&["pending"]);
    let (outcome, checks) = run_poll(&s, 0, 5);
    assert_eq!(outcome, PollOutcome::TimedOut);
    assert_eq!(checks, 1);
}

#[test]
fn tick_decision_boundary() {
    assert_eq!(poll_tick(13, 12), PollTick::Expired);
    assert_eq!(poll_tick(12, 12), PollTick::Check);
    assert_eq!(poll_tick(0, 12), PollTick::Check);
}
