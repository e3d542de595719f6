use api_gateway::message::{header_value, Header, HttpResponse};
use api_gateway::proxy::{
    after_attempt, build_attempt, first_attempt, relay_response, AttemptOutcome, ProxyError,
    RetryStep, MAX_RETRIES, RETRY_DELAY_MS, UPSTREAM_TIMEOUT_SECS,
};
use api_gateway::router::TargetService;

const USER: TargetService = TargetService::UserService;
const PRODUCT: TargetService = TargetService::ProductService;

fn upstream(status: u16, body: &[u8]) -> HttpResponse {
    HttpResponse {
        status,
        headers: vec![Header::new("Content-Type", "application/json")],
        body: body.to_vec(),
    }
}

#[test]
fn constants_of_the_policy() {
    assert_eq!(MAX_RETRIES, 3);
    assert_eq!(RETRY_DELAY_MS, 100);
    assert_eq!(UPSTREAM_TIMEOUT_SECS, 10);
    assert_eq!(first_attempt(), 1);
}

#[test]
fn success_on_third_attempt_returns_the_response() {
    let mut attempt = first_attempt();
    let mut pauses = Vec::new();
    let outcomes = vec![
        AttemptOutcome::Failed,
        AttemptOutcome::TimedOut,
        AttemptOutcome::Response(upstream(200, b"ok")),
    ];
    let mut answer = None;
    for outcome in outcomes {
        match after_attempt(&USER, attempt, outcome) {
            RetryStep::Respond(r) => {
                answer = Some(r);
                break;
            }
            RetryStep::RetryAfter { delay_ms, attempt: next } => {
                pauses.push(delay_ms);
                attempt = next;
            }
            RetryStep::GiveUp(e) => panic!("gave up: {:?}", e),
        }
    }
    let r = answer.expect("a response");
    assert_eq!(attempt, 3);
    assert_eq!(pauses, vec![100, 200]);
    assert_eq!(r.status, 200);
    assert_eq!(r.body, b"ok");
    assert_eq!(
        header_value(&r.headers, "access-control-allow-origin"),
        Some(&b"*".to_vec())
    );
}

#[test]
fn three_failures_give_an_error_that_names_three_attempts() {
    let mut attempt = first_attempt();
    let mut pauses = Vec::new();
    let mut error = None;
    for _ in 0..3 {
        match after_attempt(&PRODUCT, attempt, AttemptOutcome::Failed) {
            RetryStep::Respond(_) => panic!("no response was given"),
            RetryStep::RetryAfter { delay_ms, attempt: next } => {
                pauses.push(delay_ms);
                attempt = next;
            }
            RetryStep::GiveUp(e) => {
                error = Some(e);
                break;
            }
        }
    }
    let e = error.expect("an error");
    assert_eq!(pauses, vec![100, 200]);
    assert_eq!(e, ProxyError { attempts: 3, service: PRODUCT });
    assert_eq!(e.message(), "All 3 retry attempts failed for Product Service");
}

#[test]
fn error_message_names_the_backend() {
    let e = ProxyError { attempts: 3, service: USER };
    assert_eq!(e.message(), "All 3 retry attempts failed for User Service");
}

#[test]
fn error_statuses_are_relayed_not_retried() {
    for status in [301u16, 404, 500, 503] {
        match after_attempt(&USER, 1, AttemptOutcome::Response(upstream(status, b"x"))) {
            RetryStep::Respond(r) => assert_eq!(r.status, status),
            other => panic!("status {} gave {:?}", status, other),
        }
    }
}

#[test]
fn first_attempt_success_needs_no_pause() {
    match after_attempt(&USER, first_attempt(), AttemptOutcome::Response(upstream(201, b"")))
    {
        RetryStep::Respond(r) => assert_eq!(r.status, 201),
        other => panic!("{:?}", other),
    }
}

#[test]
fn timeouts_are_retried_like_failures() {
    match after_attempt(&USER, 2, AttemptOutcome::TimedOut) {
        RetryStep::RetryAfter { delay_ms, attempt } => {
            assert_eq!(delay_ms, 200);
            assert_eq!(attempt, 3);
        }
        other => panic!("{:?}", other),
    }
    assert!(matches!(
        after_attempt(&USER, 3, AttemptOutcome::TimedOut),
        RetryStep::GiveUp(ProxyError { attempts: 3, service: TargetService::UserService })
    ));
}

#[test]
fn attempts_beyond_the_budget_give_up() {
    assert!(matches!(
        after_attempt(&USER, 4, AttemptOutcome::Failed),
        RetryStep::GiveUp(_)
    ));
    assert!(matches!(
        after_attempt(&USER, u32::MAX, AttemptOutcome::Failed),
        RetryStep::GiveUp(_)
    ));
}

#[test]
fn relayed_response_keeps_headers_and_adds_cors() {
    let r = relay_response(HttpResponse {
        status: 418,
        headers: vec![
            Header::new("X-A", "1"),
            Header { name: String::from("X-Bin"), value: vec![0xff, 0x00] },
        ],
        body: vec![1, 2, 3],
    });
    assert_eq!(r.status, 418);
    assert_eq!(r.body, vec![1, 2, 3]);
    assert_eq!(r.headers.len(), 3);
    assert_eq!(r.headers[0].name, "X-A");
    assert_eq!(r.headers[0].value, b"1");
    assert_eq!(r.headers[1].name, "X-Bin");
    assert_eq!(r.headers[1].value, vec![0xff, 0x00]);
    assert_eq!(r.headers[2].name, "Access-Control-Allow-Origin");
    assert_eq!(r.headers[2].value, b"*");
}

#[test]
fn forwarded_request_drops_host_and_keeps_the_rest() {
    let headers = vec![
        Header::new("host", "gateway.example"),
        Header::new("Accept", "*/*"),
        Header::new("Host", "again.example"),
        Header::new("X-Hostname", "kept"),
    ];
    let attempt = build_attempt(
        "POST",
        Some("/api/users?limit=5"),
        &headers,
        b"{\"a\":1}".to_vec(),
        &USER,
    );
    assert_eq!(attempt.method, "POST");
    assert_eq!(attempt.uri, "http://127.0.0.1:8080/api/users?limit=5");
    assert_eq!(attempt.body, b"{\"a\":1}");
    assert_eq!(attempt.headers.len(), 2);
    assert_eq!(attempt.headers[0].name, "Accept");
    assert_eq!(attempt.headers[0].value, b"*/*");
    assert_eq!(attempt.headers[1].name, "X-Hostname");
    assert_eq!(attempt.headers[1].value, b"kept");
}

#[test]
fn forwarded_request_defaults_to_the_root_path() {
    let attempt = build_attempt("GET", None, &Vec::new(), Vec::new(), &PRODUCT);
    assert_eq!(attempt.uri, "http://127.0.0.1:8081/");
    assert!(attempt.headers.is_empty());
    assert!(attempt.body.is_empty());
}
