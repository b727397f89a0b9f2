use mcp_proxy::backoff::CappedExponentialBackoff;
use mcp_proxy::time::Duration;

#[test]
fn test_capped_exponential_backoff() {
    let policy = CappedExponentialBackoff::new(
        None,
        Duration::from_secs(1),
        Duration::from_secs(60),
    );

    assert_eq!(policy.retry(0), Some(Duration::from_secs(1)));
    assert_eq!(policy.retry(1), Some(Duration::from_secs(2)));
    assert_eq!(policy.retry(2), Some(Duration::from_secs(4)));
    assert_eq!(policy.retry(3), Some(Duration::from_secs(8)));
    assert_eq!(policy.retry(4), Some(Duration::from_secs(16)));
    assert_eq!(policy.retry(5), Some(Duration::from_secs(32)));
    assert_eq!(policy.retry(6), Some(Duration::from_secs(60)));
    assert_eq!(policy.retry(7), Some(Duration::from_secs(60)));
}

#[test]
fn test_capped_exponential_backoff_with_max_times() {
    let policy = CappedExponentialBackoff::new(
        Some(3),
        Duration::from_secs(1),
        Duration::from_secs(60),
    );

    assert_eq!(policy.retry(0), Some(Duration::from_secs(1)));
    assert_eq!(policy.retry(1), Some(Duration::from_secs(2)));
    assert_eq!(policy.retry(2), Some(Duration::from_secs(4)));

    assert_eq!(policy.retry(3), None);
}

#[test]
fn test_capped_exponential_backoff_default() {
    let policy = CappedExponentialBackoff::default();

    assert_eq!(policy.max_times, None);
    assert_eq!(policy.base_duration, Duration::from_secs(1));
    assert_eq!(policy.max_interval, Duration::from_secs(60));

    assert_eq!(policy.retry(0), Some(Duration::from_secs(1)));
    assert_eq!(policy.retry(5), Some(Duration::from_secs(32)));
    assert_eq!(policy.retry(10), Some(Duration::from_secs(60)));
}

#[test]
fn long_retries_stay_capped() {
    let policy = CappedExponentialBackoff::default();
    assert_eq!(policy.retry(31), Some(Duration::from_secs(60)));
    assert_eq!(policy.retry(32), Some(Duration::from_secs(60)));
    assert_eq!(policy.retry(usize::MAX), Some(Duration::from_secs(60)));
}

#[test]
fn odd_policies_are_exact() {
    let zero = CappedExponentialBackoff::new(
        None,
        Duration::from_secs(0),
        Duration::from_secs(60),
    );
    assert_eq!(zero.retry(usize::MAX), Some(Duration::from_secs(0)));
    let fine = CappedExponentialBackoff::new(
        None,
        Duration::from_millis(750),
        Duration::from_secs(60),
    );
    assert_eq!(fine.retry(1), Some(Duration::from_millis(1500)));
    let low = CappedExponentialBackoff::new(
        None,
        Duration::from_secs(5),
        Duration::from_secs(3),
    );
    assert_eq!(low.retry(0), Some(Duration::from_secs(3)));
    let wide = CappedExponentialBackoff::new(
        None,
        Duration::from_secs(1),
        Duration::new(u64::MAX, 999_999_999),
    );
    assert_eq!(wide.retry(63), Some(Duration::from_secs(1 << 63)));
    assert_eq!(
        wide.retry(64),
        Some(Duration::new(u64::MAX, 999_999_999))
    );
    let none = CappedExponentialBackoff::new(
        Some(0),
        Duration::from_secs(1),
        Duration::from_secs(60),
    );
    assert_eq!(none.retry(0), None);
}

#[test]
fn spans_are_measured() {
    let span = Duration::from_millis(61_250);
    assert_eq!(span.as_secs(), 61);
    assert_eq!(span.subsec_nanos(), 250_000_000);
    assert_eq!(span.as_nanos(), 61_250_000_000);
    assert_eq!(Duration::from_nanos(61_250_000_000), span);
    assert_eq!(span.shown(), "61.25s");
    assert_eq!(Duration::from_millis(3).shown(), "3ms");
}
