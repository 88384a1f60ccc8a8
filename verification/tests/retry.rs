use relay_pipeline::retry::{after_failure, backoff_delay, RetryDecision};
use relay_pipeline::types::RelayConfig;

fn config(max_retries: u32, base: u64, ceiling: u64) -> RelayConfig {
    RelayConfig {
        enable_version_guard: true,
        polling_interval_ms: 6_000,
        max_retries,
        backoff_base_ms: base,
        backoff_ceiling_ms: ceiling,
        max_set_transitions: 0,
        reporting_window: 100,
    }
}

#[test]
fn backoff_doubles_from_the_base() {
    assert_eq!(backoff_delay(100, 10_000, 1), 100);
    assert_eq!(backoff_delay(100, 10_000, 2), 200);
    assert_eq!(backoff_delay(100, 10_000, 3), 400);
    assert_eq!(backoff_delay(100, 10_000, 4), 800);
    assert_eq!(backoff_delay(100, 10_000, 7), 6_400);
}

#[test]
fn backoff_stops_at_the_ceiling() {
    assert_eq!(backoff_delay(100, 10_000, 8), 10_000);
    assert_eq!(backoff_delay(100, 10_000, 9), 10_000);
    assert_eq!(backoff_delay(100, 10_000, u32::MAX), 10_000);
    assert_eq!(backoff_delay(100, 150, 2), 150);
    assert_eq!(backoff_delay(100, 200, 2), 200);
    assert_eq!(backoff_delay(500, 100, 1), 100);
}

#[test]
fn backoff_without_failure_is_zero() {
    assert_eq!(backoff_delay(100, 10_000, 0), 0);
    assert_eq!(backoff_delay(u64::MAX, u64::MAX, 0), 0);
}

#[test]
fn backoff_with_zero_base_or_ceiling_is_zero() {
    assert_eq!(backoff_delay(0, 10_000, 1), 0);
    assert_eq!(backoff_delay(0, 10_000, u32::MAX), 0);
    assert_eq!(backoff_delay(100, 0, 5), 0);
}

#[test]
fn backoff_does_not_overflow() {
    assert_eq!(backoff_delay(u64::MAX, u64::MAX, 5), u64::MAX);
    assert_eq!(backoff_delay(1, u64::MAX, 64), 1 << 63);
    assert_eq!(backoff_delay(1, u64::MAX, 65), u64::MAX);
    assert_eq!(backoff_delay(3, u64::MAX, 63), 3 << 62);
    assert_eq!(backoff_delay(3, u64::MAX, 64), u64::MAX);
}

#[test]
fn backoff_never_shrinks() {
    let mut last = 0;
    for failures in 0..80 {
        let d = backoff_delay(7, 1_000_000, failures);
        assert!(d >= last);
        assert!(d <= 1_000_000);
        last = d;
    }
}

#[test]
fn retries_until_the_bound_is_reached() {
    let cfg = config(3, 100, 10_000);
    assert_eq!(after_failure(&cfg, 0), RetryDecision::RetryAfter(100));
    assert_eq!(after_failure(&cfg, 1), RetryDecision::RetryAfter(200));
    assert_eq!(after_failure(&cfg, 2), RetryDecision::RetryAfter(400));
    assert_eq!(after_failure(&cfg, 3), RetryDecision::GiveUp);
    assert_eq!(after_failure(&cfg, u32::MAX), RetryDecision::GiveUp);
}

#[test]
fn no_retry_where_none_is_allowed() {
    let cfg = config(0, 100, 10_000);
    assert_eq!(after_failure(&cfg, 0), RetryDecision::GiveUp);
}

#[test]
fn the_last_retry_of_an_unbounded_count_does_not_overflow() {
    let cfg = config(u32::MAX, 100, 10_000);
    assert_eq!(after_failure(&cfg, u32::MAX - 1), RetryDecision::RetryAfter(10_000));
    assert_eq!(after_failure(&cfg, u32::MAX), RetryDecision::GiveUp);
}
