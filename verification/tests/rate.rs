use halopsa_mcp::rate::{RateLimit, RateTracker, MINUTE_NANOS, RATE_LIMIT_WINDOW_NANOS};

#[test]
fn tracker_admits_four_hundred_per_window() {
    let mut t = RateTracker::new(1_000);
    for k in 0..400u64 {
        assert!(t.check(1_000 + k).is_ok());
    }
    assert_eq!(
        t.check(2_000),
        Err("Rate limit exceeded (400 requests per 5 minutes)".to_string())
    );
    // Exactly at the window's length the window has not yet passed.
    assert!(t.check(1_000 + RATE_LIMIT_WINDOW_NANOS).is_err());
    // Just past it a new window opens.
    assert!(t.check(1_000 + RATE_LIMIT_WINDOW_NANOS + 1).is_ok());
}

#[test]
fn limit_counts_per_minute() {
    let mut l = RateLimit::new(3, 0);
    assert!(l.check(1).is_ok());
    assert!(l.check(2).is_ok());
    assert!(l.check(3).is_ok());
    assert!(l.check(4).is_err());
    assert!(l.check(MINUTE_NANOS).is_err());
    assert!(l.check(MINUTE_NANOS + 1).is_ok());
    assert!(l.check(MINUTE_NANOS + 2).is_ok());
}

#[test]
fn limit_of_zero_refuses_everything() {
    let mut l = RateLimit::new(0, 5);
    assert!(l.check(5).is_err());
    assert!(l.check(5 + 2 * MINUTE_NANOS).is_err());
}

#[test]
fn clock_going_backwards_counts_as_no_time() {
    let mut l = RateLimit::new(1, 1_000);
    assert!(l.check(10).is_ok());
    assert!(l.check(5).is_err());
}
