use route53_util::change::{after_submission, ChangeHandle, SubmitDecision};
use route53_util::exit_code;
use route53_util::poll::{
    await_completion, is_change_complete, keep_waiting, poll_decision, PollStep,
    WaitForChangeParams,
};

fn statuses(words: &[&str]) -> Vec<String> {
    words.iter().map(|w| w.to_string()).collect()
}

fn handle(id: &str, status: &str) -> ChangeHandle {
    ChangeHandle {
        id: id.to_string(),
        status: status.to_string(),
    }
}

#[test]
fn zero_max_wait_checks_once_pending() {
    let out = await_completion(&statuses(&["PENDING"]), 5, 0);
    assert!(!out.completed);
    assert_eq!(out.queries, 1);
    assert_eq!(out.sleeps, 0);
}

#[test]
fn zero_max_wait_checks_once_terminal() {
    let out = await_completion(&statuses(&["INSYNC"]), 5, 0);
    assert!(out.completed);
    assert_eq!(out.queries, 1);
    assert_eq!(out.sleeps, 0);
}

#[test]
fn terminal_on_first_check_returns_without_sleeping() {
    let out = await_completion(&statuses(&["INSYNC"]), 5, 120);
    assert!(out.completed);
    assert_eq!(out.queries, 1);
    assert_eq!(out.sleeps, 0);
}

#[test]
fn pending_then_insync_two_queries() {
    // Submission answered with `/change/C1`, `PENDING`; the first poll at
    // t=0 sees PENDING, the poll at t=5 sees INSYNC.
    let decision = after_submission(false, &handle("/change/C1", "PENDING"));
    let id = match decision {
        SubmitDecision::Poll(id) => id,
        SubmitDecision::Finished => panic!("a pending change must be polled"),
    };
    assert_eq!(id, "C1");
    let out = await_completion(&statuses(&["PENDING", "INSYNC"]), 5, 120);
    assert!(out.completed);
    assert_eq!(out.queries, 2);
    assert_eq!(out.sleeps, 1);
    assert_eq!(exit_code(out.completed), 0);
}

#[test]
fn never_transitions_three_checks_then_timeout() {
    // sleep=5, max_wait=12: checks at t=0, t=5, t=10, then the deadline
    // passes during the next sleep.
    let out = await_completion(&statuses(&["PENDING", "PENDING", "PENDING"]), 5, 12);
    assert!(!out.completed);
    assert_eq!(out.queries, 3);
    assert_eq!(out.sleeps, 3);
    assert_eq!(exit_code(out.completed), 1);
}

#[test]
fn check_lands_exactly_on_deadline() {
    // sleep=5, max_wait=10: checks at t=0, t=5, t=10; the last check sits
    // on the deadline, so no further sleep is taken.
    let out = await_completion(&statuses(&["PENDING", "PENDING", "PENDING"]), 5, 10);
    assert!(!out.completed);
    assert_eq!(out.queries, 3);
    assert_eq!(out.sleeps, 2);
}

#[test]
fn no_wait_with_terminal_inline_status_finishes_at_once() {
    let decision = after_submission(true, &handle("/change/C1", "INSYNC"));
    assert!(matches!(decision, SubmitDecision::Finished));
}

#[test]
fn no_wait_with_pending_inline_status_finishes_at_once() {
    let decision = after_submission(true, &handle("/change/C1", "PENDING"));
    assert!(matches!(decision, SubmitDecision::Finished));
}

#[test]
fn terminal_inline_status_skips_polling() {
    let decision = after_submission(false, &handle("/change/C1", "INSYNC"));
    assert!(matches!(decision, SubmitDecision::Finished));
}

#[test]
fn poll_decision_transitions() {
    assert_eq!(poll_decision("INSYNC", 0, 120), PollStep::Done);
    assert_eq!(poll_decision("INSYNC", 500, 120), PollStep::Done);
    assert_eq!(poll_decision("PENDING", 0, 120), PollStep::Sleep);
    assert_eq!(poll_decision("PENDING", 120, 120), PollStep::TimedOut);
    assert_eq!(poll_decision("PENDING", 0, 0), PollStep::TimedOut);
}

#[test]
fn keep_waiting_until_strictly_past_deadline() {
    assert!(keep_waiting(0, 12));
    assert!(keep_waiting(12, 12));
    assert!(!keep_waiting(13, 12));
}

#[test]
fn completion_is_case_sensitive_exact_match() {
    assert!(is_change_complete(&handle("C1", "INSYNC")));
    assert!(!is_change_complete(&handle("C1", "PENDING")));
    assert!(!is_change_complete(&handle("C1", "insync")));
    assert!(!is_change_complete(&handle("C1", "INSYNCX")));
    assert!(!is_change_complete(&handle("C1", "")));
}

#[test]
fn no_wait_forces_zero_deadline() {
    let params = WaitForChangeParams {
        change_id: "C1".to_string(),
        no_wait: true,
        sleep_time: 5,
        max_wait: 120,
    };
    let config = params.poll_config();
    assert_eq!(config.max_wait, 0);
    assert_eq!(config.sleep_time, 5);

    let params = WaitForChangeParams {
        change_id: "C1".to_string(),
        no_wait: false,
        sleep_time: 7,
        max_wait: 90,
    };
    let config = params.poll_config();
    assert_eq!(config.max_wait, 90);
    assert_eq!(config.sleep_time, 7);
}
