//! The request pipeline: what the gateway does with one inbound request, in
//! which order, and how the shared state changes with it.
//!
//! A request is handled in two calls. `begin_request` counts it and decides
//! whether the gateway answers at once (preflight, metrics endpoint, rate
//! limit, unhealthy backend) or the request is to be forwarded. Forwarding is
//! the caller's work; `finish_request` takes its result, updates the counters
//! and gives the response for the client.
//!
//! Each call comes in two forms: as a function over the parts of the state,
//! for a caller that holds the health of the backends, the rate limiter and
//! the counters each behind a lock of its own, and as a method of
//! `HealthChecker`, which owns them all.

use crate::clock::{instant_now, millis_since};
use crate::health::{GatewayModel, HealthChecker, HealthStatus, ServiceHealth};
use crate::message::{
    remove_header, text_header, without_named, Header, HeaderView, HttpResponse, ResponseView,
};
use crate::metrics::{
    saturating_dec, smoothed_latency, stats_text, wrapping_inc, GatewayMetrics,
};
use crate::rate_limiter::{allows, table_after, RateLimiter, RateWindow};
use crate::request_id::{is_request_id, new_request_id};
use crate::router::{determine_target_service, resolve, TargetService};
use crate::text::str_eq;
use std::time::Instant;
use vstd::prelude::*;
use vstd::string::{StrSliceExecFns, StringExecFns};
use vstd::utf8::encode_utf8;

verus! {

/// What the pipeline reads of an inbound request, and when it was made.
pub ghost struct RequestModel {
    pub method: Seq<char>,
    pub path: Seq<char>,
    /// The key under which the caller's requests are counted.
    pub client: Seq<char>,
    pub request_id: Seq<char>,
    /// The time on the rate limiter's clock, in nanoseconds.
    pub now: u128,
}

/// The request with these parts.
pub open spec fn inbound(
    method: Seq<char>,
    path: Seq<char>,
    client: Seq<char>,
    request_id: Seq<char>,
    now: u128,
) -> RequestModel {
    RequestModel { method, path, client, request_id, now }
}

/// The outcome of admission.
#[derive(Debug)]
pub enum Admission {
    /// The gateway answers at once with this response.
    Respond(HttpResponse),
    /// The request is to be forwarded to this backend.
    Forward(TargetService),
}

/// The mathematical form of an `Admission`.
pub ghost enum AdmissionView {
    Respond(ResponseView),
    Forward(TargetService),
}

impl DeepView for Admission {
    type V = AdmissionView;

    open spec fn deep_view(&self) -> AdmissionView {
        match self {
            Admission::Respond(r) => AdmissionView::Respond(r.deep_view()),
            Admission::Forward(t) => AdmissionView::Forward(*t),
        }
    }
}

/// The header that opens a response to every origin.
pub open spec fn allow_any_origin() -> HeaderView {
    text_header("Access-Control-Allow-Origin"@, "*"@)
}

/// The header that echoes the request identifier.
pub open spec fn request_id_header(request_id: Seq<char>) -> HeaderView {
    text_header("X-Request-ID"@, request_id)
}

/// The answer to a CORS preflight: 200, no body.
pub open spec fn preflight_response(request_id: Seq<char>) -> ResponseView {
    ResponseView {
        status: 200,
        headers: seq![
            allow_any_origin(),
            text_header("Access-Control-Allow-Methods"@, "GET, POST, OPTIONS"@),
            text_header("Access-Control-Allow-Headers"@, "Content-Type"@),
            request_id_header(request_id),
        ],
        body: Seq::empty(),
    }
}

/// The answer of the metrics endpoint: 200 with the rendered counters.
pub open spec fn metrics_response(metrics: GatewayMetrics, request_id: Seq<char>) -> ResponseView {
    ResponseView {
        status: 200,
        headers: seq![
            text_header("Content-Type"@, "application/json"@),
            allow_any_origin(),
            request_id_header(request_id),
        ],
        body: encode_utf8(stats_text(metrics)),
    }
}

/// An answer that the gateway makes up itself: a status and a text.
pub open spec fn plain_response(status: u16, text: Seq<char>, request_id: Seq<char>) -> ResponseView {
    ResponseView {
        status,
        headers: seq![allow_any_origin(), request_id_header(request_id)],
        body: encode_utf8(text),
    }
}

/// A relayed response with the request identifier attached: any header of
/// that name that the backend sent is replaced.
pub open spec fn with_request_id(response: ResponseView, request_id: Seq<char>) -> ResponseView {
    ResponseView {
        status: response.status,
        headers: without_named(response.headers, "X-Request-ID"@).push(
            request_id_header(request_id),
        ),
        body: response.body,
    }
}

/// The counters once a request has been received: it is counted, and it is
/// in flight.
pub open spec fn received(m: GatewayMetrics) -> GatewayMetrics {
    GatewayMetrics {
        total_requests: wrapping_inc(m.total_requests),
        active_connections: wrapping_inc(m.active_connections),
        ..m
    }
}

/// The counters once a request is no longer in flight.
pub open spec fn released(m: GatewayMetrics) -> GatewayMetrics {
    GatewayMetrics { active_connections: saturating_dec(m.active_connections), ..m }
}

/// The counters with one more failed request.
pub open spec fn failed(m: GatewayMetrics) -> GatewayMetrics {
    GatewayMetrics { failed_requests: wrapping_inc(m.failed_requests), ..m }
}

/// The counters with one more successful request.
pub open spec fn succeeded(m: GatewayMetrics) -> GatewayMetrics {
    GatewayMetrics { successful_requests: wrapping_inc(m.successful_requests), ..m }
}

/// The counters with one more request refused for an unhealthy backend.
pub open spec fn unavailable(m: GatewayMetrics) -> GatewayMetrics {
    GatewayMetrics { service_errors: wrapping_inc(m.service_errors), ..m }
}

/// The counters with one more latency sample.
pub open spec fn timed(m: GatewayMetrics, elapsed_ms: u64) -> GatewayMetrics {
    GatewayMetrics {
        average_response_time_ms: smoothed_latency(
            m.response_time_recorded,
            m.average_response_time_ms,
            elapsed_ms,
        ),
        response_time_recorded: true,
        ..m
    }
}

/// The counters after the end of a forwarding that took `elapsed_ms`
/// milliseconds: the latency is recorded, the request is counted as
/// successful or failed, and it is no longer in flight.
pub open spec fn completed_metrics(m: GatewayMetrics, ok: bool, elapsed_ms: u64) -> GatewayMetrics {
    if ok {
        released(succeeded(timed(m, elapsed_ms)))
    } else {
        released(failed(timed(m, elapsed_ms)))
    }
}

/// The state of a gateway whose parts are these.
pub open spec fn gateway_model(
    user_service: HealthStatus,
    product_service: HealthStatus,
    metrics: GatewayMetrics,
    windows: Map<Seq<char>, RateWindow>,
    limit: u64,
) -> GatewayModel {
    GatewayModel { user_service, product_service, metrics, windows, limit }
}

/// The request is a CORS preflight.
pub open spec fn is_preflight(request: RequestModel) -> bool {
    request.method == "OPTIONS"@
}

/// The request asks for the metrics endpoint.
pub open spec fn is_metrics_endpoint(request: RequestModel) -> bool {
    request.path == "/metrics"@
}

impl GatewayModel {
    /// The request passes the preflight and metrics short cuts and reaches the
    /// rate limiter.
    pub open spec fn reaches_limiter(self, request: RequestModel) -> bool {
        !is_preflight(request) && !is_metrics_endpoint(request)
    }

    /// The request reaches the rate limiter and is admitted by it.
    pub open spec fn passes_limiter(self, request: RequestModel) -> bool {
        self.reaches_limiter(request) && allows(
            self.windows,
            self.limit,
            request.client,
            request.now,
        )
    }

    /// What admission decides on `request`, in this order: a preflight is
    /// answered with 200; the metrics endpoint with the counters; a request
    /// over the client's rate with 429; one for an unhealthy backend with
    /// 503; anything else is to be forwarded to the backend that its path
    /// resolves to.
    pub open spec fn admission(self, request: RequestModel) -> AdmissionView {
        if is_preflight(request) {
            AdmissionView::Respond(preflight_response(request.request_id))
        } else if is_metrics_endpoint(request) {
            AdmissionView::Respond(metrics_response(received(self.metrics), request.request_id))
        } else if !self.passes_limiter(request) {
            AdmissionView::Respond(plain_response(429, "Rate limit exceeded"@, request.request_id))
        } else if !self.status_of(resolve(request.path)).is_healthy {
            AdmissionView::Respond(plain_response(503, "Service unavailable"@, request.request_id))
        } else {
            AdmissionView::Forward(resolve(request.path))
        }
    }

    /// The state that admission of `request` leaves. Every request is
    /// counted. Only a request that reaches the rate limiter touches its
    /// table. A request that is answered at once is no longer in flight; one
    /// that is to be forwarded stays in flight.
    pub open spec fn admitted(self, request: RequestModel) -> GatewayModel {
        if !self.reaches_limiter(request) {
            GatewayModel { metrics: released(received(self.metrics)), ..self }
        } else {
            let windows = table_after(self.windows, self.limit, request.client, request.now);
            if !self.passes_limiter(request) {
                GatewayModel { metrics: released(failed(received(self.metrics))), windows, ..self }
            } else if !self.status_of(resolve(request.path)).is_healthy {
                GatewayModel {
                    metrics: released(failed(unavailable(received(self.metrics)))),
                    windows,
                    ..self
                }
            } else {
                GatewayModel { metrics: received(self.metrics), windows, ..self }
            }
        }
    }

    /// The response for a forwarded request: the relayed response with the
    /// request identifier attached, or a 500 that carries the error's text.
    pub open spec fn completion(
        result: Result<ResponseView, Seq<char>>,
        request_id: Seq<char>,
    ) -> ResponseView {
        match result {
            Ok(response) => with_request_id(response, request_id),
            Err(detail) => plain_response(500, "Proxy error: "@ + detail, request_id),
        }
    }

    /// The state that the end of a forwarding leaves: only the counters
    /// change, as `completed_metrics` says.
    pub open spec fn completed(self, ok: bool, elapsed_ms: u64) -> GatewayModel {
        GatewayModel { metrics: completed_metrics(self.metrics, ok, elapsed_ms), ..self }
    }
}

/// Something that changes the gateway's state.
pub ghost enum GatewayEvent {
    /// A request comes in and is decided on.
    Request(RequestModel),
    /// The forwarding of a request ends, with a response or without.
    Completion { ok: bool, elapsed_ms: u64 },
    /// A probe reports on a backend at the time `at`.
    Probe { service: TargetService, ok: bool, at: u128 },
}

/// The number of requests among `events`.
pub open spec fn requests_in(events: Seq<GatewayEvent>) -> nat
    decreases events.len(),
{
    if events.len() == 0 {
        0
    } else {
        requests_in(events.drop_last()) + if events.last() is Request {
            1nat
        } else {
            0nat
        }
    }
}

impl GatewayModel {
    /// The state after `event`.
    pub open spec fn after(self, event: GatewayEvent) -> GatewayModel {
        match event {
            GatewayEvent::Request(request) => self.admitted(request),
            GatewayEvent::Completion { ok, elapsed_ms } => self.completed(ok, elapsed_ms),
            GatewayEvent::Probe { service, ok, at } => self.probed(service, ok, at),
        }
    }

    /// The state after `events`, the first of them happening first.
    pub open spec fn after_all(self, events: Seq<GatewayEvent>) -> GatewayModel
        decreases events.len(),
    {
        if events.len() == 0 {
            self
        } else {
            self.after_all(events.drop_last()).after(events.last())
        }
    }

    /// By how much `event` changes the number of requests being forwarded:
    /// a request that is to be forwarded adds one, the end of a forwarding
    /// takes one away.
    pub open spec fn forwardings_opened(self, event: GatewayEvent) -> int {
        match event {
            GatewayEvent::Request(request) => if self.admission(request) is Forward {
                1
            } else {
                0
            },
            GatewayEvent::Completion { .. } => -1,
            GatewayEvent::Probe { .. } => 0,
        }
    }

    /// The number of requests being forwarded after `events`, none being
    /// forwarded before them.
    pub open spec fn in_flight_after(self, events: Seq<GatewayEvent>) -> int
        decreases events.len(),
    {
        if events.len() == 0 {
            0
        } else {
            self.in_flight_after(events.drop_last()) + self.after_all(
                events.drop_last(),
            ).forwardings_opened(events.last())
        }
    }

    /// No forwarding ends that has not begun: at no point of `events` have
    /// more forwardings ended than requests were handed out for forwarding.
    pub open spec fn orderly(self, events: Seq<GatewayEvent>) -> bool {
        forall|k: int| 0 <= k <= events.len() ==> self.in_flight_after(#[trigger] events.take(k)) >= 0
    }

    /// Nothing has been counted yet.
    pub open spec fn uncounted(self) -> bool {
        &&& self.metrics.total_requests == 0
        &&& self.metrics.successful_requests == 0
        &&& self.metrics.failed_requests == 0
        &&& self.metrics.active_connections == 0
    }
}

/// A CORS preflight is counted as a request and changes nothing else:
/// neither the rate limiter's table nor the health of a backend, the time
/// of its last check included, and no counter but the total. (The count of
/// requests in flight is left out where it stands at the upper bound of
/// `u64`: there it cannot take the request in.)
pub proof fn lemma_preflight_changes_total_only(g: GatewayModel, request: RequestModel)
    requires
        is_preflight(request),
        g.metrics.active_connections < u64::MAX,
    ensures
        g.admission(request) == AdmissionView::Respond(preflight_response(request.request_id)),
        g.admitted(request) == (GatewayModel {
            metrics: GatewayMetrics {
                total_requests: wrapping_inc(g.metrics.total_requests),
                ..g.metrics
            },
            ..g
        }),
{
}

/// However often preflights are repeated, the rate limiter's table and the
/// health of the backends stay as they were.
pub proof fn lemma_preflights_leave_limiter_and_health(g: GatewayModel, events: Seq<GatewayEvent>)
    requires
        g.metrics.active_connections < u64::MAX,
        forall|i: int|
            0 <= i < events.len() ==> (#[trigger] events[i]) is Request && is_preflight(
                events[i]->Request_0,
            ),
    ensures
        g.after_all(events).windows == g.windows,
        g.after_all(events).limit == g.limit,
        g.after_all(events).user_service == g.user_service,
        g.after_all(events).product_service == g.product_service,
        g.after_all(events).metrics.active_connections == g.metrics.active_connections,
        g.in_flight_after(events) == 0,
    decreases events.len(),
{
    if events.len() > 0 {
        let rest = events.drop_last();
        assert forall|i: int| 0 <= i < rest.len() implies (#[trigger] rest[i]) is Request
            && is_preflight(rest[i]->Request_0) by {
            assert(rest[i] == events[i]);
        }
        lemma_preflights_leave_limiter_and_health(g, rest);
        assert(events.last() == events[events.len() - 1]);
        lemma_preflight_changes_total_only(g.after_all(rest), events.last()->Request_0);
    }
}

/// The metrics endpoint is always served: whatever the rate limiter's table
/// and the health of the backends, it is answered with 200 and the
/// counters, and it touches neither.
pub proof fn lemma_metrics_endpoint_always_served(g: GatewayModel, request: RequestModel)
    requires
        !is_preflight(request),
        is_metrics_endpoint(request),
    ensures
        g.admission(request) == AdmissionView::Respond(
            metrics_response(received(g.metrics), request.request_id),
        ),
        g.admitted(request).windows == g.windows,
        g.admitted(request).user_service == g.user_service,
        g.admitted(request).product_service == g.product_service,
{
}

/// A request is handed out for forwarding only where the rate limiter admits
/// it and its backend is healthy; a request for an unhealthy backend that
/// passes the limiter is answered with 503, and none is sent to the backend.
pub proof fn lemma_forwarded_only_when_healthy(g: GatewayModel, request: RequestModel)
    ensures
        g.admission(request) is Forward <==> (g.passes_limiter(request) && g.status_of(
            resolve(request.path),
        ).is_healthy),
        g.admission(request) is Forward ==> g.admission(request)->Forward_0 == resolve(
            request.path,
        ),
        g.passes_limiter(request) && !g.status_of(resolve(request.path)).is_healthy
            ==> g.admission(request) == AdmissionView::Respond(
            plain_response(503, "Service unavailable"@, request.request_id),
        ),
{
}

/// Every response that the gateway makes up itself, and every response that
/// it relays, carries the request identifier.
pub proof fn lemma_responses_carry_request_id(
    g: GatewayModel,
    request: RequestModel,
    result: Result<ResponseView, Seq<char>>,
)
    ensures
        g.admission(request) matches AdmissionView::Respond(r) ==> r.headers.last()
            == request_id_header(request.request_id),
        GatewayModel::completion(result, request.request_id).headers.last() == request_id_header(
            request.request_id,
        ),
{
}

/// One event never lowers the count of requests, as long as the counter has
/// not reached the upper bound of `u64`; only a request raises it.
pub proof fn lemma_total_never_decreases(g: GatewayModel, event: GatewayEvent)
    requires
        g.metrics.total_requests < u64::MAX,
    ensures
        g.after(event).metrics.total_requests >= g.metrics.total_requests,
        g.after(event).metrics.total_requests == g.metrics.total_requests + if event is Request {
            1int
        } else {
            0int
        },
{
}

proof fn lemma_orderly_prefix(g: GatewayModel, events: Seq<GatewayEvent>, k: int)
    requires
        g.orderly(events),
        0 <= k <= events.len(),
    ensures
        g.orderly(events.take(k)),
        g.in_flight_after(events.take(k)) >= 0,
{
    assert forall|j: int| 0 <= j <= events.take(k).len() implies g.in_flight_after(
        #[trigger] events.take(k).take(j),
    ) >= 0 by {
        assert(events.take(k).take(j) =~= events.take(j));
    }
}

proof fn lemma_requests_in_prefix(events: Seq<GatewayEvent>, k: int)
    requires
        0 <= k <= events.len(),
    ensures
        requests_in(events.take(k)) <= requests_in(events),
        requests_in(events) <= events.len(),
    decreases events.len(),
{
    if events.len() > 0 {
        let rest = events.drop_last();
        if k == events.len() {
            assert(events.take(k) =~= events);
            lemma_requests_in_prefix(rest, rest.len() as int);
        } else {
            lemma_requests_in_prefix(rest, k);
            assert(rest.take(k) =~= events.take(k));
        }
    } else {
        assert(events.take(k) =~= events);
    }
}

/// The counters of a gateway that starts with nothing counted, after any
/// orderly course of fewer than 2^64 events: every request has been counted
/// once; the requests in flight are those handed out for forwarding and not
/// yet ended; and successful, failed and in-flight requests together never
/// outnumber the requests received. In particular `successful + failed` is at
/// most `total`, and once every forwarding has ended, on whatever path, no
/// request is in flight.
pub proof fn lemma_counters_consistent(g: GatewayModel, events: Seq<GatewayEvent>)
    requires
        g.uncounted(),
        g.orderly(events),
        events.len() <= u64::MAX,
    ensures
        g.after_all(events).metrics.total_requests == requests_in(events),
        g.after_all(events).metrics.active_connections == g.in_flight_after(events),
        g.after_all(events).metrics.successful_requests + g.after_all(
            events,
        ).metrics.failed_requests + g.after_all(events).metrics.active_connections <= g.after_all(
            events,
        ).metrics.total_requests,
        g.in_flight_after(events) == 0 ==> g.after_all(events).metrics.active_connections == 0,
    decreases events.len(),
{
    if events.len() > 0 {
        let rest = events.drop_last();
        assert(rest =~= events.take(events.len() - 1));
        lemma_orderly_prefix(g, events, events.len() - 1);
        lemma_counters_consistent(g, rest);
        lemma_requests_in_prefix(rest, rest.len() as int);
        assert(events.take(events.len() as int) =~= events);
        assert(g.in_flight_after(events) >= 0);
    }
}

/// In such a course of events the count of requests never goes down: at
/// every point it is at most what it is at any later point.
pub proof fn lemma_total_is_monotonic(g: GatewayModel, events: Seq<GatewayEvent>, k: int)
    requires
        g.uncounted(),
        g.orderly(events),
        events.len() <= u64::MAX,
        0 <= k <= events.len(),
    ensures
        g.after_all(events.take(k)).metrics.total_requests <= g.after_all(
            events,
        ).metrics.total_requests,
{
    lemma_orderly_prefix(g, events, k);
    lemma_counters_consistent(g, events.take(k));
    lemma_counters_consistent(g, events);
    lemma_requests_in_prefix(events, k);
}

/// The mathematical form of the result of a forwarding.
pub open spec fn result_view(result: Result<HttpResponse, String>) -> Result<
    ResponseView,
    Seq<char>,
> {
    match result {
        Ok(response) => Ok(response.deep_view()),
        Err(detail) => Err(detail@),
    }
}

/// The address that the gateway listens on.
pub fn listen_address() -> (address: &'static str)
    ensures
        address@ == "127.0.0.1:8082"@,
{
    "127.0.0.1:8082"
}

fn plain(status: u16, text: &str, request_id: &str) -> (response: HttpResponse)
    ensures
        response.deep_view() == plain_response(status, text@, request_id@),
{
    let mut headers: Vec<Header> = Vec::new();
    headers.push(Header::new("Access-Control-Allow-Origin", "*"));
    headers.push(Header::new("X-Request-ID", request_id));
    let response = HttpResponse { status, headers, body: text.as_bytes_vec() };
    assert(response.headers.deep_view() =~= seq![
        allow_any_origin(),
        request_id_header(request_id@),
    ]);
    response
}

fn preflight(request_id: &str) -> (response: HttpResponse)
    ensures
        response.deep_view() == preflight_response(request_id@),
{
    let mut headers: Vec<Header> = Vec::new();
    headers.push(Header::new("Access-Control-Allow-Origin", "*"));
    headers.push(Header::new("Access-Control-Allow-Methods", "GET, POST, OPTIONS"));
    headers.push(Header::new("Access-Control-Allow-Headers", "Content-Type"));
    headers.push(Header::new("X-Request-ID", request_id));
    let response = HttpResponse { status: 200, headers, body: Vec::new() };
    assert(response.headers.deep_view() =~= preflight_response(request_id@).headers);
    response
}

fn metrics_page(metrics: &GatewayMetrics, request_id: &str) -> (response: HttpResponse)
    ensures
        response.deep_view() == metrics_response(*metrics, request_id@),
{
    let stats = metrics.get_stats();
    let mut headers: Vec<Header> = Vec::new();
    headers.push(Header::new("Content-Type", "application/json"));
    headers.push(Header::new("Access-Control-Allow-Origin", "*"));
    headers.push(Header::new("X-Request-ID", request_id));
    let response = HttpResponse { status: 200, headers, body: stats.as_str().as_bytes_vec() };
    assert(response.headers.deep_view() =~= metrics_response(*metrics, request_id@).headers);
    response
}

fn attach_request_id(response: HttpResponse, request_id: &str) -> (out: HttpResponse)
    ensures
        out.deep_view() == with_request_id(response.deep_view(), request_id@),
{
    let mut headers = remove_header(&response.headers, "X-Request-ID");
    let ghost kept = headers.deep_view();
    headers.push(Header::new("X-Request-ID", request_id));
    assert(headers.deep_view() =~= kept.push(request_id_header(request_id@)));
    HttpResponse { status: response.status, headers, body: response.body }
}

/// What `begin_request` hands out for a request: its identifier and the
/// moment it came in.
#[derive(Debug)]
pub struct RequestTicket {
    pub request_id: String,
    pub started: Instant,
}

/// Admission of a request that was made at `now` on the rate limiter's clock
/// and goes by `request_id`, for a gateway whose parts are held apart. The
/// health of the backends is read only.
pub fn admit_request(
    metrics: &mut GatewayMetrics,
    rate_limiter: &mut RateLimiter,
    user_service: &ServiceHealth,
    product_service: &ServiceHealth,
    method: &str,
    path: &str,
    client_ip: &str,
    request_id: &str,
    now: u128,
) -> (admission: Admission)
    ensures
        admission.deep_view() == gateway_model(
            user_service@,
            product_service@,
            *old(metrics),
            old(rate_limiter)@,
            old(rate_limiter).limit(),
        ).admission(inbound(method@, path@, client_ip@, request_id@, now)),
        gateway_model(
            user_service@,
            product_service@,
            *final(metrics),
            final(rate_limiter)@,
            final(rate_limiter).limit(),
        ) == gateway_model(
            user_service@,
            product_service@,
            *old(metrics),
            old(rate_limiter)@,
            old(rate_limiter).limit(),
        ).admitted(inbound(method@, path@, client_ip@, request_id@, now)),
        final(rate_limiter).clock() == old(rate_limiter).clock(),
{
    metrics.increment_total_requests();
    metrics.increment_active_connections();

    if str_eq(method, "OPTIONS") {
        metrics.decrement_active_connections();
        return Admission::Respond(preflight(request_id));
    }
    if str_eq(path, "/metrics") {
        let response = metrics_page(metrics, request_id);
        metrics.decrement_active_connections();
        return Admission::Respond(response);
    }
    if !rate_limiter.is_allowed_at(client_ip, now) {
        metrics.increment_failed_requests();
        metrics.decrement_active_connections();
        return Admission::Respond(plain(429, "Rate limit exceeded", request_id));
    }
    let target_service = determine_target_service(path);
    let healthy = match target_service {
        TargetService::UserService => user_service.is_healthy,
        TargetService::ProductService => product_service.is_healthy,
    };
    if !healthy {
        metrics.increment_service_errors();
        metrics.increment_failed_requests();
        metrics.decrement_active_connections();
        return Admission::Respond(plain(503, "Service unavailable", request_id));
    }
    Admission::Forward(target_service)
}

/// The end of a forwarding that took `elapsed_ms` milliseconds. Only the
/// counters take part in it.
pub fn complete(
    metrics: &mut GatewayMetrics,
    result: Result<HttpResponse, String>,
    elapsed_ms: u64,
    request_id: &str,
) -> (response: HttpResponse)
    ensures
        response.deep_view() == GatewayModel::completion(result_view(result), request_id@),
        *final(metrics) == completed_metrics(*old(metrics), result is Ok, elapsed_ms),
{
    metrics.update_response_time(elapsed_ms);
    match result {
        Ok(response) => {
            metrics.increment_successful_requests();
            metrics.decrement_active_connections();
            attach_request_id(response, request_id)
        },
        Err(detail) => {
            metrics.increment_failed_requests();
            metrics.decrement_active_connections();
            let mut text = String::from_str("Proxy error: ");
            text.append(detail.as_str());
            plain(500, text.as_str(), request_id)
        },
    }
}

/// Takes in a request: gives it a fresh identifier, reads the rate limiter's
/// clock and decides on its admission. Whatever the identifier and the time
/// are, the decision and the new state are those of `admit_request`.
pub fn begin_request(
    metrics: &mut GatewayMetrics,
    rate_limiter: &mut RateLimiter,
    user_service: &ServiceHealth,
    product_service: &ServiceHealth,
    method: &str,
    path: &str,
    client_ip: &str,
) -> (taken: (RequestTicket, Admission))
    ensures
        is_request_id(taken.0.request_id@),
        exists|now: u128|
            {
                &&& taken.1.deep_view() == gateway_model(
                    user_service@,
                    product_service@,
                    *old(metrics),
                    old(rate_limiter)@,
                    old(rate_limiter).limit(),
                ).admission(
                    #[trigger] inbound(method@, path@, client_ip@, taken.0.request_id@, now),
                )
                &&& gateway_model(
                    user_service@,
                    product_service@,
                    *final(metrics),
                    final(rate_limiter)@,
                    final(rate_limiter).limit(),
                ) == gateway_model(
                    user_service@,
                    product_service@,
                    *old(metrics),
                    old(rate_limiter)@,
                    old(rate_limiter).limit(),
                ).admitted(inbound(method@, path@, client_ip@, taken.0.request_id@, now))
            },
        final(rate_limiter).clock() == old(rate_limiter).clock(),
{
    let started = instant_now();
    let request_id = new_request_id();
    let now = rate_limiter.now();
    let admission = admit_request(
        metrics,
        rate_limiter,
        user_service,
        product_service,
        method,
        path,
        client_ip,
        request_id.as_str(),
        now,
    );
    let taken = (RequestTicket { request_id, started }, admission);
    assert(taken.1.deep_view() == gateway_model(
        user_service@,
        product_service@,
        *old(metrics),
        old(rate_limiter)@,
        old(rate_limiter).limit(),
    ).admission(inbound(method@, path@, client_ip@, taken.0.request_id@, now)));
    taken
}

/// Ends a forwarded request: measures the time since it came in and does
/// what `complete` does with it.
pub fn finish_request(
    metrics: &mut GatewayMetrics,
    ticket: &RequestTicket,
    result: Result<HttpResponse, String>,
) -> (response: HttpResponse)
    ensures
        response.deep_view() == GatewayModel::completion(result_view(result), ticket.request_id@),
        exists|elapsed_ms: u64| *final(metrics) == #[trigger] completed_metrics(
            *old(metrics),
            result is Ok,
            elapsed_ms,
        ),
{
    let elapsed_ms = millis_since(&ticket.started);
    complete(metrics, result, elapsed_ms, ticket.request_id.as_str())
}

impl HealthChecker {
    /// Admission of a request that was made at `now` on the rate limiter's
    /// clock and goes by `request_id`.
    pub fn admit_request(
        &mut self,
        method: &str,
        path: &str,
        client_ip: &str,
        request_id: &str,
        now: u128,
    ) -> (admission: Admission)
        ensures
            admission.deep_view() == old(self)@.admission(
                inbound(method@, path@, client_ip@, request_id@, now),
            ),
            final(self)@ == old(self)@.admitted(
                inbound(method@, path@, client_ip@, request_id@, now),
            ),
            final(self).rate_limiter.clock() == old(self).rate_limiter.clock(),
    {
        self::admit_request(
            &mut self.metrics,
            &mut self.rate_limiter,
            &self.user_service,
            &self.product_service,
            method,
            path,
            client_ip,
            request_id,
            now,
        )
    }

    /// The end of a forwarding that took `elapsed_ms` milliseconds.
    pub fn complete(
        &mut self,
        result: Result<HttpResponse, String>,
        elapsed_ms: u64,
        request_id: &str,
    ) -> (response: HttpResponse)
        ensures
            response.deep_view() == GatewayModel::completion(result_view(result), request_id@),
            final(self)@ == old(self)@.completed(result is Ok, elapsed_ms),
            final(self).rate_limiter.clock() == old(self).rate_limiter.clock(),
    {
        self::complete(&mut self.metrics, result, elapsed_ms, request_id)
    }

    /// Takes in a request: gives it a fresh identifier, reads the clock and
    /// decides on its admission. Whatever the identifier and the time are,
    /// the decision and the new state are those of `admit_request`.
    pub fn begin_request(&mut self, method: &str, path: &str, client_ip: &str) -> (taken: (
        RequestTicket,
        Admission,
    ))
        ensures
            is_request_id(taken.0.request_id@),
            exists|now: u128|
                {
                    &&& taken.1.deep_view() == old(self)@.admission(
                        #[trigger] inbound(method@, path@, client_ip@, taken.0.request_id@, now),
                    )
                    &&& final(self)@ == old(self)@.admitted(
                        inbound(method@, path@, client_ip@, taken.0.request_id@, now),
                    )
                },
            final(self).rate_limiter.clock() == old(self).rate_limiter.clock(),
    {
        self::begin_request(
            &mut self.metrics,
            &mut self.rate_limiter,
            &self.user_service,
            &self.product_service,
            method,
            path,
            client_ip,
        )
    }

    /// Ends a forwarded request: measures the time since it came in and does
    /// what `complete` does with it.
    pub fn finish_request(&mut self, ticket: &RequestTicket, result: Result<HttpResponse, String>)
        -> (response: HttpResponse)
        ensures
            response.deep_view() == GatewayModel::completion(
                result_view(result),
                ticket.request_id@,
            ),
            exists|elapsed_ms: u64| final(self)@ == #[trigger] old(self)@.completed(
                result is Ok,
                elapsed_ms,
            ),
            final(self).rate_limiter.clock() == old(self).rate_limiter.clock(),
    {
        let ghost ok = result is Ok;
        let response = self::finish_request(&mut self.metrics, ticket, result);
        proof {
            let elapsed_ms = choose|elapsed_ms: u64|
                self.metrics == #[trigger] completed_metrics(old(self).metrics, ok, elapsed_ms);
            assert(self@ == old(self)@.completed(ok, elapsed_ms));
        }
        response
    }
}

} // verus!
