use aliyundrive::retry::{
    classify_download_status, classify_upload_status, is_success_status, Outcome, RetryPolicy,
    Verdict, MAX_RETRIES, RETRY_DELAY_SECS, STATUS_THROTTLED,
};

#[test]
fn default_policy_is_three_retries_three_seconds_apart() {
    let policy = RetryPolicy::default();
    assert_eq!(policy.max_retries, 3);
    assert_eq!(policy.delay_secs, 3);
    assert_eq!(MAX_RETRIES, 3);
    assert_eq!(RETRY_DELAY_SECS, 3);
    assert_eq!(STATUS_THROTTLED, 403);
}

#[test]
fn success_statuses() {
    assert!(is_success_status(200));
    assert!(is_success_status(204));
    assert!(is_success_status(299));
    assert!(!is_success_status(199));
    assert!(!is_success_status(300));
    assert!(!is_success_status(403));
}

#[test]
fn download_status_classes() {
    assert_eq!(classify_download_status(200), Outcome::Success);
    assert_eq!(classify_download_status(206), Outcome::Success);
    assert_eq!(classify_download_status(403), Outcome::Throttled);
    assert_eq!(classify_download_status(204), Outcome::Rejected(204));
    assert_eq!(classify_download_status(404), Outcome::Rejected(404));
    assert_eq!(classify_download_status(500), Outcome::Rejected(500));
}

#[test]
fn upload_status_classes() {
    assert_eq!(classify_upload_status(200), Outcome::Success);
    assert_eq!(classify_upload_status(201), Outcome::Success);
    assert_eq!(classify_upload_status(299), Outcome::Success);
    assert_eq!(classify_upload_status(403), Outcome::Throttled);
    assert_eq!(classify_upload_status(400), Outcome::Rejected(400));
    assert_eq!(classify_upload_status(503), Outcome::Rejected(503));
}

#[test]
fn transient_outcomes() {
    assert!(Outcome::Throttled.is_transient());
    assert!(Outcome::TransportError.is_transient());
    assert!(!Outcome::Success.is_transient());
    assert!(!Outcome::Rejected(500).is_transient());
    assert!(!Outcome::Aborted.is_transient());
}

#[test]
fn success_is_accepted_whatever_was_spent() {
    let policy = RetryPolicy::default();
    for retries in 0..6 {
        assert_eq!(policy.decide(Outcome::Success, retries), Verdict::Accept);
    }
}

#[test]
fn transient_failures_are_retried_three_times() {
    let policy = RetryPolicy::default();
    for outcome in [Outcome::Throttled, Outcome::TransportError] {
        assert_eq!(policy.decide(outcome, 0), Verdict::RetryAfter(3));
        assert_eq!(policy.decide(outcome, 1), Verdict::RetryAfter(3));
        assert_eq!(policy.decide(outcome, 2), Verdict::RetryAfter(3));
        assert_eq!(policy.decide(outcome, 3), Verdict::GiveUp);
        assert_eq!(policy.decide(outcome, 4), Verdict::GiveUp);
    }
}

#[test]
fn other_failures_are_final_at_once() {
    let policy = RetryPolicy::default();
    assert_eq!(policy.decide(Outcome::Rejected(500), 0), Verdict::GiveUp);
    assert_eq!(policy.decide(Outcome::Rejected(404), 2), Verdict::GiveUp);
    assert_eq!(policy.decide(Outcome::Aborted, 0), Verdict::GiveUp);
}

#[test]
fn a_unit_that_always_fails_is_attempted_four_times() {
    let policy = RetryPolicy::default();
    let mut attempts = 0;
    let mut retries = 0;
    loop {
        attempts += 1;
        match policy.decide(Outcome::TransportError, retries) {
            Verdict::RetryAfter(delay) => {
                assert_eq!(delay, 3);
                retries += 1;
            }
            Verdict::GiveUp => break,
            Verdict::Accept => panic!("a failure was accepted"),
        }
    }
    assert_eq!(attempts, 4);
}

#[test]
fn a_policy_without_retries_gives_up_at_once() {
    let policy = RetryPolicy { max_retries: 0, delay_secs: 1 };
    assert_eq!(policy.decide(Outcome::Throttled, 0), Verdict::GiveUp);
}

#[test]
fn the_delay_is_the_policys() {
    let policy = RetryPolicy { max_retries: 1, delay_secs: 7 };
    assert_eq!(policy.decide(Outcome::Throttled, 0), Verdict::RetryAfter(7));
    assert_eq!(policy.decide(Outcome::Throttled, 1), Verdict::GiveUp);
}
