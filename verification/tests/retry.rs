use sunshade::retry::{Backoff, Failure, Outcome, Retrier, Verdict};

#[test]
fn standard_policy() {
    let policy = Backoff::standard();
    assert_eq!(policy.base(), 2);
    assert_eq!(policy.min_secs(), 1);
    assert_eq!(policy.max_secs(), 10);
    assert_eq!(policy.budget_secs(), 120);
    // 1 + 2 + 4 + 8 and eleven times 10 are the first to reach 120
    assert_eq!(policy.max_retries(), 14);
}

#[test]
fn delays_double_up_to_the_longest() {
    let policy = Backoff::standard();
    let delays: Vec<u32> = (0..7).map(|retry| policy.delay(retry)).collect();
    assert_eq!(delays, vec![1, 2, 4, 8, 10, 10, 10]);
    assert_eq!(policy.delay(31), 10);
    assert_eq!(policy.delay(32), 10);
    assert_eq!(policy.delay(u32::MAX), 10);
}

#[test]
fn delays_of_other_policies() {
    let policy = Backoff::new(3, 2, 100, 1000).unwrap();
    let delays: Vec<u32> = (0..6).map(|retry| policy.delay(retry)).collect();
    assert_eq!(delays, vec![2, 6, 18, 54, 100, 100]);
    let flat = Backoff::new(1, 5, 60, 20).unwrap();
    assert_eq!(flat.delay(0), 5);
    assert_eq!(flat.delay(1_000_000), 5);
    let pinned = Backoff::new(2, 7, 7, 20).unwrap();
    assert_eq!(pinned.delay(0), 7);
    assert_eq!(pinned.delay(9), 7);
    let wide = Backoff::new(u32::MAX, 1, u32::MAX, 10).unwrap();
    assert_eq!(wide.delay(0), 1);
    assert_eq!(wide.delay(1), u32::MAX);
    assert_eq!(wide.delay(2), u32::MAX);
}

#[test]
fn limit_is_the_first_retry_that_reaches_the_budget() {
    assert_eq!(Backoff::new(2, 1, 10, 0).unwrap().max_retries(), 0);
    assert_eq!(Backoff::new(2, 1, 10, 1).unwrap().max_retries(), 0);
    assert_eq!(Backoff::new(2, 1, 10, 2).unwrap().max_retries(), 1);
    assert_eq!(Backoff::new(2, 1, 10, 3).unwrap().max_retries(), 1);
    assert_eq!(Backoff::new(2, 1, 10, 4).unwrap().max_retries(), 2);
    assert_eq!(Backoff::new(2, 1, 10, 15).unwrap().max_retries(), 3);
    assert_eq!(Backoff::new(2, 1, 10, 16).unwrap().max_retries(), 4);
    assert_eq!(Backoff::new(1, 5, 60, 20).unwrap().max_retries(), 3);
}

#[test]
fn invalid_policies_are_refused() {
    assert!(Backoff::new(0, 1, 10, 120).is_none());
    assert!(Backoff::new(2, 0, 10, 120).is_none());
    assert!(Backoff::new(2, 11, 10, 120).is_none());
    assert!(Backoff::new(2, 10, 10, 120).is_some());
    assert!(Backoff::new(1, 1, 1, 0).is_some());
}

#[test]
fn which_failures_may_pass() {
    assert!(Failure::ConnectionRefused.is_transient());
    assert!(Failure::Timeout.is_transient());
    assert!(Failure::Status(404).is_transient());
    assert!(Failure::Status(408).is_transient());
    assert!(Failure::Status(429).is_transient());
    assert!(Failure::Status(500).is_transient());
    assert!(Failure::Status(503).is_transient());
    assert!(Failure::Status(599).is_transient());
    assert!(!Failure::Status(400).is_transient());
    assert!(!Failure::Status(401).is_transient());
    assert!(!Failure::Status(403).is_transient());
    assert!(!Failure::Status(405).is_transient());
    assert!(!Failure::Status(409).is_transient());
    assert!(!Failure::Status(499).is_transient());
    assert!(!Failure::Status(600).is_transient());
    assert!(!Failure::Status(302).is_transient());
    assert!(!Failure::Malformed.is_transient());
    assert!(!Failure::Undecodable.is_transient());
}

#[test]
fn server_faults_are_retried() {
    let mut retrier = Retrier::new(Backoff::standard());
    assert_eq!(retrier.record(Outcome::Failed(Failure::Status(503)), 0), Verdict::RetryAfter(1));
    assert_eq!(retrier.record(Outcome::Failed(Failure::Status(429)), 1), Verdict::RetryAfter(2));
    assert_eq!(retrier.record(Outcome::Failed(Failure::Status(408)), 3), Verdict::RetryAfter(4));
    assert_eq!(retrier.retries(), 3);
    assert_eq!(retrier.record(Outcome::Success, 7), Verdict::Done);
}

#[test]
fn five_failures_then_success_take_six_attempts() {
    let mut retrier = Retrier::new(Backoff::standard());
    let failures = [
        Failure::ConnectionRefused,
        Failure::Timeout,
        Failure::Status(404),
        Failure::ConnectionRefused,
        Failure::ConnectionRefused,
    ];
    let mut attempts = 0;
    let mut waits = Vec::new();
    let mut elapsed = 0u64;
    for failure in failures {
        attempts += 1;
        match retrier.record(Outcome::Failed(failure), elapsed) {
            Verdict::RetryAfter(secs) => {
                waits.push(secs);
                elapsed += secs as u64;
            }
            other => panic!("{other:?}"),
        }
        assert_eq!(retrier.retries(), attempts);
    }
    attempts += 1;
    assert_eq!(retrier.record(Outcome::Success, elapsed), Verdict::Done);
    assert_eq!(attempts, 6);
    assert_eq!(waits, vec![1, 2, 4, 8, 10]);
    assert!(waits.windows(2).all(|pair| pair[0] <= pair[1]));
    assert!(waits.iter().all(|wait| (1..=10).contains(wait)));
    assert_eq!(retrier.retries(), 0);
}

#[test]
fn success_at_once_needs_no_retry() {
    let mut retrier = Retrier::new(Backoff::standard());
    assert_eq!(retrier.record(Outcome::Success, 0), Verdict::Done);
    assert_eq!(retrier.retries(), 0);
}

#[test]
fn fatal_failures_are_not_retried() {
    let mut retrier = Retrier::new(Backoff::standard());
    assert_eq!(
        retrier.record(Outcome::Failed(Failure::Status(401)), 0),
        Verdict::GiveUp(Failure::Status(401))
    );
    assert_eq!(
        retrier.record(Outcome::Failed(Failure::Malformed), 0),
        Verdict::GiveUp(Failure::Malformed)
    );
    assert_eq!(
        retrier.record(Outcome::Failed(Failure::Undecodable), 0),
        Verdict::GiveUp(Failure::Undecodable)
    );
    assert_eq!(retrier.retries(), 0);
}

#[test]
fn budget_ends_the_retries() {
    let policy = Backoff::standard();
    let failed = Outcome::Failed(Failure::Timeout);
    assert_eq!(policy.decide(3, failed, 119), Verdict::RetryAfter(8));
    assert_eq!(policy.decide(3, failed, 120), Verdict::GiveUp(Failure::Timeout));
    assert_eq!(policy.decide(3, failed, u64::MAX), Verdict::GiveUp(Failure::Timeout));
}

#[test]
fn limit_ends_the_retries() {
    let policy = Backoff::standard();
    let failed = Outcome::Failed(Failure::ConnectionRefused);
    assert_eq!(policy.decide(13, failed, 0), Verdict::RetryAfter(10));
    assert_eq!(policy.decide(14, failed, 0), Verdict::GiveUp(Failure::ConnectionRefused));
    let mut retrier = Retrier::new(policy);
    for _ in 0..14 {
        assert!(matches!(retrier.record(failed, 0), Verdict::RetryAfter(_)));
    }
    assert_eq!(retrier.retries(), 14);
    assert_eq!(retrier.record(failed, 0), Verdict::GiveUp(Failure::ConnectionRefused));
    assert_eq!(retrier.retries(), 0);
}
