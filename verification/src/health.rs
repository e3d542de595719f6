//! Health state of the backends, as a periodic prober reports it.

use crate::message::{text_header, AttemptView, Header, ProxyAttempt};
use crate::metrics::GatewayMetrics;
use crate::rate_limiter::{RateLimiter, RateWindow};
use crate::router::TargetService;
use crate::text::{decimal, push_decimal};
use vstd::prelude::*;
use vstd::string::{StrSliceExecFns, StringExecFns};
use vstd::utf8::encode_utf8;

verus! {

/// Consecutive failed probes after which a backend counts as unhealthy.
pub const FAILURE_THRESHOLD: u32 = 3;

/// Pause between the end of one probe and the start of the next, in seconds.
pub const PROBE_INTERVAL_SECS: u64 = 30;

/// Time allowed for one probe, in seconds.
pub const PROBE_TIMEOUT_SECS: u64 = 5;

/// Requests admitted per client and minute by a gateway made with
/// `HealthChecker::new`.
pub const DEFAULT_RATE_LIMIT: u64 = 1000;

/// What the gateway knows of one backend's health.
#[derive(Debug, Clone, Copy, PartialEq, Eq, Structural)]
pub struct ServiceHealth {
    pub is_healthy: bool,
    /// When a probe last reported, in nanoseconds on the clock of whoever
    /// records the probes; 0, the clock's start, while none has.
    pub last_check: u128,
    pub consecutive_failures: u32,
}

/// The mathematical form of a `ServiceHealth`.
#[derive(Debug, Clone, Copy, PartialEq, Eq, Structural)]
pub struct HealthStatus {
    pub is_healthy: bool,
    pub last_check: u128,
    pub consecutive_failures: u32,
}

impl View for ServiceHealth {
    type V = HealthStatus;

    open spec fn view(&self) -> HealthStatus {
        HealthStatus {
            is_healthy: self.is_healthy,
            last_check: self.last_check,
            consecutive_failures: self.consecutive_failures,
        }
    }
}

/// The state of a backend that no probe has reported on yet.
pub open spec fn initial_status() -> HealthStatus {
    HealthStatus { is_healthy: true, last_check: 0, consecutive_failures: 0 }
}

/// The state after one more probe that reported at `now`. A successful probe
/// makes the backend healthy and clears the failure count. A failed probe
/// adds one to the count, which stops at `u32::MAX`, and makes the backend
/// unhealthy once the count has reached the threshold. Either way the time
/// of the report is kept.
pub open spec fn after_probe(status: HealthStatus, probe_ok: bool, now: u128) -> HealthStatus {
    if probe_ok {
        HealthStatus { is_healthy: true, last_check: now, consecutive_failures: 0 }
    } else {
        let failures: u32 = if status.consecutive_failures == u32::MAX {
            u32::MAX
        } else {
            (status.consecutive_failures + 1) as u32
        };
        HealthStatus {
            is_healthy: status.is_healthy && failures < FAILURE_THRESHOLD,
            last_check: now,
            consecutive_failures: failures,
        }
    }
}

/// The report of one probe: whether it succeeded, and when it reported.
pub ghost struct ProbeReport {
    pub ok: bool,
    pub at: u128,
}

/// A failed probe that reported at `at`.
pub open spec fn failure_at(at: u128) -> ProbeReport {
    ProbeReport { ok: false, at }
}

/// A successful probe that reported at `at`.
pub open spec fn success_at(at: u128) -> ProbeReport {
    ProbeReport { ok: true, at }
}

/// The state after a series of probes, the first of `probes` made first.
pub open spec fn after_probes(status: HealthStatus, probes: Seq<ProbeReport>) -> HealthStatus
    decreases probes.len(),
{
    if probes.len() == 0 {
        status
    } else {
        after_probe(after_probes(status, probes.drop_last()), probes.last().ok, probes.last().at)
    }
}

/// What became of one probe.
#[derive(Debug, Clone, Copy, PartialEq, Eq, Structural)]
pub enum ProbeOutcome {
    /// The backend answered in time, with this status code.
    Answered { status: u16 },
    /// The connection failed before an answer came.
    Failed,
    /// No answer came within the time allowed.
    TimedOut,
}

/// A status code of the success class, 200 to 299.
pub open spec fn is_success_status(status: u16) -> bool {
    200 <= status < 300
}

/// A probe succeeds when an answer came in time and its status is of the
/// success class; anything else counts as one failure.
pub open spec fn probe_succeeded(outcome: ProbeOutcome) -> bool {
    match outcome {
        ProbeOutcome::Answered { status } => is_success_status(status),
        ProbeOutcome::Failed => false,
        ProbeOutcome::TimedOut => false,
    }
}

impl ProbeOutcome {
    /// Does the outcome count as a successful probe?
    pub fn succeeded(&self) -> (ok: bool)
        ensures
            ok == probe_succeeded(*self),
    {
        match self {
            ProbeOutcome::Answered { status } => 200 <= *status && *status < 300,
            ProbeOutcome::Failed => false,
            ProbeOutcome::TimedOut => false,
        }
    }
}

impl ServiceHealth {
    /// Records the result of one probe that reported at `now`.
    pub fn record_probe(&mut self, probe_ok: bool, now: u128)
        ensures
            final(self)@ == after_probe(old(self)@, probe_ok, now),
    {
        if probe_ok {
            self.is_healthy = true;
            self.consecutive_failures = 0;
        } else {
            self.consecutive_failures = self.consecutive_failures.saturating_add(1);
            if self.consecutive_failures >= FAILURE_THRESHOLD {
                self.is_healthy = false;
            }
        }
        self.last_check = now;
    }
}

impl Default for ServiceHealth {
    /// A backend is taken to be healthy until probes say otherwise.
    fn default() -> (health: Self)
        ensures
            health@ == initial_status(),
    {
        ServiceHealth { is_healthy: true, last_check: 0, consecutive_failures: 0 }
    }
}

/// The address that a backend is probed at.
pub open spec fn base_url(service: TargetService) -> Seq<char> {
    "http://127.0.0.1:"@ + decimal(service.spec_port() as nat)
}

/// The probe sent to a backend: a POST to its base address that carries a
/// call of the method `health`.
pub open spec fn probe_request(service: TargetService) -> AttemptView {
    AttemptView {
        method: "POST"@,
        uri: base_url(service),
        headers: seq![text_header("Content-Type"@, "application/json"@)],
        body: encode_utf8("{\"jsonrpc\":\"2.0\",\"method\":\"health\",\"id\":0}"@),
    }
}

/// Builds the probe for `service`.
pub fn health_check_request(service: &TargetService) -> (request: ProxyAttempt)
    ensures
        request.deep_view() == probe_request(*service),
{
    let mut uri = String::from_str("http://127.0.0.1:");
    push_decimal(&mut uri, service.port() as u128);
    let mut headers: Vec<Header> = Vec::new();
    headers.push(Header::new("Content-Type", "application/json"));
    let request = ProxyAttempt {
        method: String::from_str("POST"),
        uri,
        headers,
        body: "{\"jsonrpc\":\"2.0\",\"method\":\"health\",\"id\":0}".as_bytes_vec(),
    };
    assert(request.headers.deep_view() =~= seq![text_header("Content-Type"@, "application/json"@)]);
    request
}

/// The shared state of the gateway: the health of each backend, the traffic
/// counters and the rate limiter.
#[derive(Debug)]
pub struct HealthChecker {
    pub user_service: ServiceHealth,
    pub product_service: ServiceHealth,
    pub metrics: GatewayMetrics,
    pub rate_limiter: RateLimiter,
}

/// The mathematical form of a `HealthChecker`.
pub ghost struct GatewayModel {
    pub user_service: HealthStatus,
    pub product_service: HealthStatus,
    pub metrics: GatewayMetrics,
    pub windows: Map<Seq<char>, RateWindow>,
    pub limit: u64,
}

impl View for HealthChecker {
    type V = GatewayModel;

    open spec fn view(&self) -> GatewayModel {
        GatewayModel {
            user_service: self.user_service@,
            product_service: self.product_service@,
            metrics: self.metrics,
            windows: self.rate_limiter@,
            limit: self.rate_limiter.limit(),
        }
    }
}

impl GatewayModel {
    /// The state of a gateway that has seen neither traffic nor probes.
    pub open spec fn fresh(limit: u64) -> GatewayModel {
        GatewayModel {
            user_service: initial_status(),
            product_service: initial_status(),
            metrics: GatewayMetrics {
                total_requests: 0,
                successful_requests: 0,
                failed_requests: 0,
                service_errors: 0,
                average_response_time_ms: 0,
                response_time_recorded: false,
                active_connections: 0,
            },
            windows: Map::empty(),
            limit,
        }
    }

    /// The health of `service`.
    pub open spec fn status_of(self, service: TargetService) -> HealthStatus {
        match service {
            TargetService::UserService => self.user_service,
            TargetService::ProductService => self.product_service,
        }
    }

    /// The state after a probe of `service` that reported at `now`. The
    /// other backend's state stays as it was, and so do the counters and the
    /// rate limiter's table.
    pub open spec fn probed(self, service: TargetService, probe_ok: bool, now: u128)
        -> GatewayModel {
        match service {
            TargetService::UserService => GatewayModel {
                user_service: after_probe(self.user_service, probe_ok, now),
                ..self
            },
            TargetService::ProductService => GatewayModel {
                product_service: after_probe(self.product_service, probe_ok, now),
                ..self
            },
        }
    }
}

impl HealthChecker {
    /// A gateway with both backends taken to be healthy, counters at zero and
    /// a limit of 1000 requests per client and minute.
    pub fn new() -> (checker: Self)
        ensures
            checker@ == GatewayModel::fresh(DEFAULT_RATE_LIMIT),
    {
        HealthChecker {
            user_service: ServiceHealth::default(),
            product_service: ServiceHealth::default(),
            metrics: GatewayMetrics::default(),
            rate_limiter: RateLimiter::new(DEFAULT_RATE_LIMIT),
        }
    }

    /// A gateway like that of `new`, with another limit per client and
    /// minute.
    pub fn with_rate_limit(max_requests_per_minute: u64) -> (checker: Self)
        ensures
            checker@ == GatewayModel::fresh(max_requests_per_minute),
    {
        HealthChecker {
            user_service: ServiceHealth::default(),
            product_service: ServiceHealth::default(),
            metrics: GatewayMetrics::default(),
            rate_limiter: RateLimiter::new(max_requests_per_minute),
        }
    }

    /// Updates the health of one backend from the outcome of a probe that
    /// reported at `now`.
    pub fn check_service_health(health: &mut ServiceHealth, outcome: &ProbeOutcome, now: u128)
        ensures
            final(health)@ == after_probe(old(health)@, probe_succeeded(*outcome), now),
    {
        let is_healthy = outcome.succeeded();
        health.record_probe(is_healthy, now);
    }

    /// Records the outcome of a probe of `service` that reported at `now`.
    pub fn record_probe_at(&mut self, service: &TargetService, outcome: &ProbeOutcome, now: u128)
        ensures
            final(self)@ == old(self)@.probed(*service, probe_succeeded(*outcome), now),
            final(self).rate_limiter.clock() == old(self).rate_limiter.clock(),
    {
        match service {
            TargetService::UserService => Self::check_service_health(
                &mut self.user_service,
                outcome,
                now,
            ),
            TargetService::ProductService => Self::check_service_health(
                &mut self.product_service,
                outcome,
                now,
            ),
        }
    }

    /// Records the outcome of a probe of `service` that reports now, by the
    /// rate limiter's clock. Whatever the clock shows, the new state is that
    /// of `record_probe_at` for the reading.
    pub fn record_probe(&mut self, service: &TargetService, outcome: &ProbeOutcome)
        ensures
            exists|now: u128| final(self)@ == #[trigger] old(self)@.probed(
                *service,
                probe_succeeded(*outcome),
                now,
            ),
            final(self).rate_limiter.clock() == old(self).rate_limiter.clock(),
    {
        let now = self.rate_limiter.now();
        self.record_probe_at(service, outcome, now);
    }

    /// Is `service` currently taken to be healthy?
    pub fn is_service_healthy(&self, service: &TargetService) -> (healthy: bool)
        ensures
            healthy == self@.status_of(*service).is_healthy,
    {
        match service {
            TargetService::UserService => self.user_service.is_healthy,
            TargetService::ProductService => self.product_service.is_healthy,
        }
    }
}

/// Three failed probes in a row make a backend unhealthy, whatever its state
/// was before them and whenever they report.
pub proof fn lemma_three_failures_mark_unhealthy(status: HealthStatus, t1: u128, t2: u128, t3: u128)
    ensures
        !after_probes(status, seq![failure_at(t1), failure_at(t2), failure_at(t3)]).is_healthy,
{
    let probes = seq![failure_at(t1), failure_at(t2), failure_at(t3)];
    reveal_with_fuel(after_probes, 4);
    assert(probes.drop_last() =~= seq![failure_at(t1), failure_at(t2)]);
    assert(probes.drop_last().drop_last() =~= seq![failure_at(t1)]);
    assert(probes.drop_last().drop_last().drop_last() =~= Seq::<ProbeReport>::empty());
}

/// A backend that was healthy with no failure on record is still healthy
/// after one failed probe and after two.
pub proof fn lemma_fewer_failures_keep_healthy(status: HealthStatus, t1: u128, t2: u128)
    requires
        status.is_healthy,
        status.consecutive_failures == 0,
    ensures
        after_probe(status, false, t1).is_healthy,
        after_probe(after_probe(status, false, t1), false, t2).is_healthy,
{
}

/// One successful probe makes a backend healthy and clears its failure
/// count, whatever its state was before.
pub proof fn lemma_one_success_restores(status: HealthStatus, now: u128)
    ensures
        after_probe(status, true, now) == (HealthStatus {
            is_healthy: true,
            last_check: now,
            consecutive_failures: 0,
        }),
{
}

/// Two failed probes followed by a successful one never make a healthy
/// backend with no failure on record unhealthy: it is healthy after each of
/// the three probes.
pub proof fn lemma_two_failures_then_success_never_flip(
    status: HealthStatus,
    t1: u128,
    t2: u128,
    t3: u128,
)
    requires
        status.is_healthy,
        status.consecutive_failures == 0,
    ensures
        after_probes(status, seq![failure_at(t1)]).is_healthy,
        after_probes(status, seq![failure_at(t1), failure_at(t2)]).is_healthy,
        after_probes(status, seq![failure_at(t1), failure_at(t2), success_at(t3)]).is_healthy,
{
    reveal_with_fuel(after_probes, 4);
    let three = seq![failure_at(t1), failure_at(t2), success_at(t3)];
    let two = seq![failure_at(t1), failure_at(t2)];
    let one = seq![failure_at(t1)];
    assert(three.drop_last() =~= two);
    assert(two.drop_last() =~= one);
    assert(one.drop_last() =~= Seq::<ProbeReport>::empty());
}

/// A backend turns from healthy to unhealthy only on a failed probe that
/// brings the count of consecutive failures to the threshold or beyond.
pub proof fn lemma_unhealthy_only_at_threshold(status: HealthStatus, probe_ok: bool, now: u128)
    requires
        status.is_healthy,
        !after_probe(status, probe_ok, now).is_healthy,
    ensures
        !probe_ok,
        after_probe(status, probe_ok, now).consecutive_failures >= FAILURE_THRESHOLD,
{
}

/// Starting from the initial state, a backend is unhealthy exactly while the
/// count of consecutive failures is at the threshold or beyond.
pub proof fn lemma_health_tracks_failure_count(probes: Seq<ProbeReport>)
    ensures
        after_probes(initial_status(), probes).is_healthy <==> after_probes(
            initial_status(),
            probes,
        ).consecutive_failures < FAILURE_THRESHOLD,
    decreases probes.len(),
{
    if probes.len() > 0 {
        lemma_health_tracks_failure_count(probes.drop_last());
    }
}

/// The time of the last check is that of the latest probe on record.
pub proof fn lemma_last_check_is_latest_report(status: HealthStatus, probes: Seq<ProbeReport>)
    requires
        probes.len() > 0,
    ensures
        after_probes(status, probes).last_check == probes.last().at,
{
}

} // verus!
