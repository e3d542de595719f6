use api_gateway::health::{
    health_check_request, HealthChecker, ProbeOutcome, ServiceHealth, FAILURE_THRESHOLD,
    PROBE_INTERVAL_SECS, PROBE_TIMEOUT_SECS,
};
use api_gateway::router::TargetService;

const USER: TargetService = TargetService::UserService;
const PRODUCT: TargetService = TargetService::ProductService;

#[test]
fn backends_start_healthy() {
    let h = ServiceHealth::default();
    assert!(h.is_healthy);
    assert_eq!(h.consecutive_failures, 0);
    assert_eq!(h.last_check, 0);
    let checker = HealthChecker::new();
    assert!(checker.is_service_healthy(&USER));
    assert!(checker.is_service_healthy(&PRODUCT));
    assert_eq!(checker.rate_limiter.max_requests(), 1000);
    assert_eq!(checker.metrics.total_requests, 0);
}

#[test]
fn three_failures_flip_to_unhealthy_and_one_success_flips_back() {
    let mut h = ServiceHealth::default();
    h.record_probe(false, 10);
    assert!(h.is_healthy);
    assert_eq!(h.consecutive_failures, 1);
    h.record_probe(false, 20);
    assert!(h.is_healthy);
    assert_eq!(h.consecutive_failures, 2);
    h.record_probe(false, 30);
    assert!(!h.is_healthy);
    assert_eq!(h.consecutive_failures, 3);
    h.record_probe(true, 40);
    assert!(h.is_healthy);
    assert_eq!(h.consecutive_failures, 0);
}

#[test]
fn two_failures_then_success_never_flip() {
    let mut h = ServiceHealth::default();
    h.record_probe(false, 50);
    assert!(h.is_healthy);
    h.record_probe(false, 60);
    assert!(h.is_healthy);
    h.record_probe(true, 70);
    assert!(h.is_healthy);
    assert_eq!(h.consecutive_failures, 0);
    h.record_probe(false, 80);
    h.record_probe(false, 90);
    assert!(h.is_healthy);
}

#[test]
fn further_failures_keep_unhealthy_and_keep_counting() {
    let mut h = ServiceHealth::default();
    for _ in 0..5 {
        h.record_probe(false, 100);
    }
    assert!(!h.is_healthy);
    assert_eq!(h.consecutive_failures, 5);
}

#[test]
fn failure_count_stops_at_its_upper_bound() {
    let mut h = ServiceHealth::default();
    h.is_healthy = false;
    h.consecutive_failures = u32::MAX;
    h.record_probe(false, 110);
    assert!(!h.is_healthy);
    assert_eq!(h.consecutive_failures, u32::MAX);
}

#[test]
fn a_probe_sets_the_time_of_the_last_check() {
    let mut h = ServiceHealth::default();
    h.record_probe(false, 777);
    assert_eq!(h.last_check, 777);
    h.record_probe(true, 1_000_000_007);
    assert_eq!(h.last_check, 1_000_000_007);
    h.record_probe(true, 5);
    assert_eq!(h.last_check, 5);
}

#[test]
fn a_probe_by_the_clock_sets_the_time_of_the_last_check() {
    let mut checker = HealthChecker::new();
    let before = checker.rate_limiter.now();
    checker.record_probe(&USER, &ProbeOutcome::Failed);
    let after = checker.rate_limiter.now();
    assert!(before <= checker.user_service.last_check);
    assert!(checker.user_service.last_check <= after);
    assert_eq!(checker.product_service.last_check, 0);
}

#[test]
fn probe_succeeds_only_on_success_status() {
    assert!(ProbeOutcome::Answered { status: 200 }.succeeded());
    assert!(ProbeOutcome::Answered { status: 204 }.succeeded());
    assert!(ProbeOutcome::Answered { status: 299 }.succeeded());
    assert!(!ProbeOutcome::Answered { status: 199 }.succeeded());
    assert!(!ProbeOutcome::Answered { status: 300 }.succeeded());
    assert!(!ProbeOutcome::Answered { status: 404 }.succeeded());
    assert!(!ProbeOutcome::Answered { status: 500 }.succeeded());
    assert!(!ProbeOutcome::Failed.succeeded());
    assert!(!ProbeOutcome::TimedOut.succeeded());
}

#[test]
fn check_service_health_counts_any_non_success_as_failure() {
    let mut h = ServiceHealth::default();
    HealthChecker::check_service_health(&mut h, &ProbeOutcome::Answered { status: 503 }, 1);
    HealthChecker::check_service_health(&mut h, &ProbeOutcome::TimedOut, 2);
    assert!(h.is_healthy);
    HealthChecker::check_service_health(&mut h, &ProbeOutcome::Failed, 3);
    assert!(!h.is_healthy);
    assert_eq!(h.last_check, 3);
    HealthChecker::check_service_health(&mut h, &ProbeOutcome::Answered { status: 200 }, 4);
    assert!(h.is_healthy);
    assert_eq!(h.last_check, 4);
}

#[test]
fn probes_of_one_backend_leave_the_other_alone() {
    let mut checker = HealthChecker::new();
    for i in 0..3u128 {
        checker.record_probe_at(&PRODUCT, &ProbeOutcome::Failed, 100 + i);
    }
    assert!(!checker.is_service_healthy(&PRODUCT));
    assert_eq!(checker.product_service.last_check, 102);
    assert_eq!(checker.user_service.last_check, 0);
    assert!(checker.is_service_healthy(&USER));
    assert_eq!(checker.user_service.consecutive_failures, 0);
    assert_eq!(checker.product_service.consecutive_failures, 3);
}

#[test]
fn probe_request_is_a_health_call() {
    let user = health_check_request(&USER);
    assert_eq!(user.method, "POST");
    assert_eq!(user.uri, "http://127.0.0.1:8080");
    assert_eq!(user.headers.len(), 1);
    assert_eq!(user.headers[0].name, "Content-Type");
    assert_eq!(user.headers[0].value, b"application/json");
    assert_eq!(
        user.body,
        br#"{"jsonrpc":"2.0","method":"health","id":0}"#
    );
    let product = health_check_request(&PRODUCT);
    assert_eq!(product.uri, "http://127.0.0.1:8081");
}

#[test]
fn probe_constants() {
    assert_eq!(FAILURE_THRESHOLD, 3);
    assert_eq!(PROBE_INTERVAL_SECS, 30);
    assert_eq!(PROBE_TIMEOUT_SECS, 5);
}

#[test]
fn custom_rate_limit() {
    let checker = HealthChecker::with_rate_limit(7);
    assert_eq!(checker.rate_limiter.max_requests(), 7);
}
