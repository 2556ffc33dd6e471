use bravesearch_mcp::rate::{RATE_LIMIT_PER_MONTH, RATE_LIMIT_PER_SECOND, RateWindow};

#[test]
fn test_rate_limiter() {
    let mut limiter = RateWindow::new(0);

    // First request should succeed
    assert!(limiter.check_and_consume(0).is_ok());

    // Simulate reaching per-second limit
    limiter.second_count = RATE_LIMIT_PER_SECOND;

    // Next request should fail due to rate limit
    assert!(limiter.check_and_consume(0).is_err());

    // Reset counter and test monthly limit
    limiter.second_count = 0;
    limiter.month_count = RATE_LIMIT_PER_MONTH;

    // Request should fail due to monthly limit
    assert!(limiter.check_and_consume(0).is_err());
}

#[test]
fn test_rate_limiter_second_window_reset() {
    let mut limiter = RateWindow::new(0);
    assert!(limiter.check_and_consume(0).is_ok());
    assert_eq!(limiter.second_count, 1);
    assert_eq!(limiter.month_count, 1);

    // Within the same second the per-second limit refuses the next request.
    assert!(limiter.check_and_consume(1000).is_err());

    // Strictly more than one second later, only the second counter resets.
    assert!(limiter.check_and_consume(1001).is_ok());
    assert_eq!(limiter.second_count, 1);
    assert_eq!(limiter.month_count, 2);
    assert_eq!(limiter.window_start_millis, 1001);
}

#[test]
fn test_rate_limiter_refusal_mutates_nothing_but_window() {
    let mut limiter = RateWindow::new(5);
    limiter.second_count = RATE_LIMIT_PER_SECOND;
    limiter.month_count = 7;
    assert!(limiter.check_and_consume(5).is_err());
    assert_eq!(limiter.second_count, RATE_LIMIT_PER_SECOND);
    assert_eq!(limiter.month_count, 7);
    assert_eq!(limiter.window_start_millis, 5);
}

#[test]
fn test_rate_limiter_month_never_resets() {
    let mut limiter = RateWindow::new(0);
    assert!(limiter.check_and_consume(0).is_ok());
    // A stale window resets the second counter, never the month counter.
    assert!(limiter.check_and_consume(10_000).is_ok());
    assert!(limiter.check_and_consume(20_000).is_ok());
    assert_eq!(limiter.month_count, 3);
}
