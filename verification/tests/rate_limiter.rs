use api_gateway::rate_limiter::{RateLimiter, RateWindow, WINDOW_NANOS};

const SECOND: u128 = 1_000_000_000;

#[test]
fn third_call_in_window_is_rejected_and_next_window_admits() {
    let mut limiter = RateLimiter::new(2);
    let answers = [
        limiter.is_allowed_at("10.0.0.1", 0),
        limiter.is_allowed_at("10.0.0.1", 10 * SECOND),
        limiter.is_allowed_at("10.0.0.1", 20 * SECOND),
    ];
    assert_eq!(answers, [true, true, false]);
    assert!(limiter.is_allowed_at("10.0.0.1", 61 * SECOND));
}

#[test]
fn window_length_is_sixty_seconds() {
    assert_eq!(WINDOW_NANOS, 60 * SECOND);
}

#[test]
fn window_is_over_exactly_at_sixty_seconds() {
    let mut limiter = RateLimiter::new(1);
    assert!(limiter.is_allowed_at("c", 5));
    assert!(!limiter.is_allowed_at("c", 5 + WINDOW_NANOS - 1));
    assert!(limiter.is_allowed_at("c", 5 + WINDOW_NANOS));
    assert_eq!(
        limiter.window("c"),
        Some(RateWindow { count: 1, window_start: 5 + WINDOW_NANOS })
    );
}

#[test]
fn admitted_requests_are_counted_in_the_running_window() {
    let mut limiter = RateLimiter::new(5);
    assert_eq!(limiter.window("c"), None);
    assert!(limiter.is_allowed_at("c", 100));
    assert_eq!(limiter.window("c"), Some(RateWindow { count: 1, window_start: 100 }));
    assert!(limiter.is_allowed_at("c", 200));
    assert!(limiter.is_allowed_at("c", 300));
    assert_eq!(limiter.window("c"), Some(RateWindow { count: 3, window_start: 100 }));
}

#[test]
fn rejected_requests_are_not_counted() {
    let mut limiter = RateLimiter::new(2);
    assert!(limiter.is_allowed_at("c", 1));
    assert!(limiter.is_allowed_at("c", 2));
    assert!(!limiter.is_allowed_at("c", 3));
    assert!(!limiter.is_allowed_at("c", 4));
    assert_eq!(limiter.window("c"), Some(RateWindow { count: 2, window_start: 1 }));
}

#[test]
fn clients_are_counted_apart() {
    let mut limiter = RateLimiter::new(1);
    assert!(limiter.is_allowed_at("a", 0));
    assert!(limiter.is_allowed_at("b", 1));
    assert!(!limiter.is_allowed_at("a", 2));
    assert!(!limiter.is_allowed_at("b", 3));
    assert_eq!(limiter.window("a"), Some(RateWindow { count: 1, window_start: 0 }));
    assert_eq!(limiter.window("b"), Some(RateWindow { count: 1, window_start: 1 }));
}

#[test]
fn windows_that_are_over_are_dropped_on_any_access() {
    let mut limiter = RateLimiter::new(3);
    assert!(limiter.is_allowed_at("old", 0));
    assert!(limiter.is_allowed_at("young", 30 * SECOND));
    assert!(limiter.is_allowed_at("other", 60 * SECOND));
    assert_eq!(limiter.window("old"), None);
    assert_eq!(
        limiter.window("young"),
        Some(RateWindow { count: 1, window_start: 30 * SECOND })
    );
}

#[test]
fn first_request_is_admitted_even_with_limit_zero() {
    let mut limiter = RateLimiter::new(0);
    assert!(limiter.is_allowed_at("c", 0));
    assert!(!limiter.is_allowed_at("c", 1));
    assert!(limiter.is_allowed_at("c", WINDOW_NANOS));
}

#[test]
fn a_clock_that_runs_backwards_keeps_the_window() {
    let mut limiter = RateLimiter::new(2);
    assert!(limiter.is_allowed_at("c", 100 * SECOND));
    assert!(limiter.is_allowed_at("c", 0));
    assert!(!limiter.is_allowed_at("c", 50 * SECOND));
    assert_eq!(
        limiter.window("c"),
        Some(RateWindow { count: 2, window_start: 100 * SECOND })
    );
}

#[test]
fn limit_is_kept() {
    let limiter = RateLimiter::new(1000);
    assert_eq!(limiter.max_requests(), 1000);
}

#[test]
fn calls_by_the_clock_stay_within_the_limit() {
    let mut limiter = RateLimiter::new(2);
    let answers = [
        limiter.is_allowed("c"),
        limiter.is_allowed("c"),
        limiter.is_allowed("c"),
    ];
    assert_eq!(answers, [true, true, false]);
    let w = limiter.window("c").unwrap();
    assert_eq!(w.count, 2);
    assert!(w.window_start <= limiter.now());
}

#[test]
fn many_clients_are_all_tracked() {
    let mut limiter = RateLimiter::new(1);
    for i in 0..200u32 {
        let name = format!("client-{}", i);
        assert!(limiter.is_allowed_at(&name, i as u128));
    }
    for i in 0..200u32 {
        let name = format!("client-{}", i);
        assert!(!limiter.is_allowed_at(&name, 1000));
        assert_eq!(
            limiter.window(&name),
            Some(RateWindow { count: 1, window_start: i as u128 })
        );
    }
}
