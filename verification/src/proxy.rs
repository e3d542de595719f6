//! Forwarding of one request to a backend: the request that is sent, the
//! response that is relayed, and the policy of retries.
//!
//! The policy is a function from the attempt just made and its outcome to
//! the next thing to do. Whoever owns the connection makes the attempts and
//! the pauses.

use crate::health::base_url;
use crate::message::{
    copy_headers, remove_header, text_header, without_named, AttemptView, Header, HeaderView,
    HttpResponse, ProxyAttempt, ResponseView,
};
use crate::router::TargetService;
use crate::text::{decimal, push_decimal};
use vstd::prelude::*;
use vstd::string::StringExecFns;

verus! {

/// Attempts made for one request before the gateway gives up.
pub const MAX_RETRIES: u32 = 3;

/// The pause before attempt `n + 1` is `n` times this many milliseconds.
pub const RETRY_DELAY_MS: u64 = 100;

/// Time allowed for one attempt, in seconds.
pub const UPSTREAM_TIMEOUT_SECS: u64 = 10;

/// The request sent to `target` for an inbound request: same method and
/// body, the inbound path and query (a bare `/` where there is none) behind
/// the backend's address, and every inbound header but `Host`.
pub open spec fn forwarded_request(
    method: Seq<char>,
    path_and_query: Option<Seq<char>>,
    headers: Seq<HeaderView>,
    body: Seq<u8>,
    target: TargetService,
) -> AttemptView {
    AttemptView {
        method,
        uri: base_url(target) + match path_and_query {
            Some(p) => p,
            None => "/"@,
        },
        headers: without_named(headers, "host"@),
        body,
    }
}

/// Builds the request that every attempt at forwarding sends.
pub fn build_attempt(
    method: &str,
    path_and_query: Option<&str>,
    headers: &Vec<Header>,
    body: Vec<u8>,
    target: &TargetService,
) -> (attempt: ProxyAttempt)
    ensures
        attempt.deep_view() == forwarded_request(
            method@,
            match path_and_query {
                Some(p) => Some(p@),
                None => None,
            },
            headers.deep_view(),
            body@,
            *target,
        ),
{
    let mut uri = String::from_str("http://127.0.0.1:");
    push_decimal(&mut uri, target.port() as u128);
    match path_and_query {
        Some(p) => uri.append(p),
        None => uri.append("/"),
    }
    ProxyAttempt {
        method: String::from_str(method),
        uri,
        headers: remove_header(headers, "host"),
        body,
    }
}

/// What became of one attempt.
#[derive(Debug)]
pub enum AttemptOutcome {
    /// The backend answered in time; any status counts.
    Response(HttpResponse),
    /// The connection failed.
    Failed,
    /// No answer came within the time allowed.
    TimedOut,
}

/// The mathematical form of an `AttemptOutcome`.
pub ghost enum OutcomeView {
    Response(ResponseView),
    Failed,
    TimedOut,
}

impl DeepView for AttemptOutcome {
    type V = OutcomeView;

    open spec fn deep_view(&self) -> OutcomeView {
        match self {
            AttemptOutcome::Response(r) => OutcomeView::Response(r.deep_view()),
            AttemptOutcome::Failed => OutcomeView::Failed,
            AttemptOutcome::TimedOut => OutcomeView::TimedOut,
        }
    }
}

/// All attempts at reaching a backend failed.
#[derive(Debug, Clone, Copy, PartialEq, Eq, Structural)]
pub struct ProxyError {
    pub attempts: u32,
    pub service: TargetService,
}

/// The text of a `ProxyError`.
pub open spec fn proxy_error_text(e: ProxyError) -> Seq<char> {
    "All "@ + decimal(e.attempts as nat) + " retry attempts failed for "@ + e.service.spec_name()
}

impl ProxyError {
    /// The error as text: the number of attempts and the backend's name.
    pub fn message(&self) -> (text: String)
        ensures
            text@ == proxy_error_text(*self),
    {
        let mut text = String::from_str("All ");
        push_decimal(&mut text, self.attempts as u128);
        text.append(" retry attempts failed for ");
        text.append(self.service.name());
        text
    }
}

/// What to do after an attempt.
#[derive(Debug)]
pub enum RetryStep {
    /// Answer the client with this response.
    Respond(HttpResponse),
    /// Pause for `delay_ms` milliseconds, then make the attempt numbered
    /// `attempt`.
    RetryAfter { delay_ms: u64, attempt: u32 },
    /// Stop: the request has failed.
    GiveUp(ProxyError),
}

/// The mathematical form of a `RetryStep`.
pub ghost enum StepView {
    Respond(ResponseView),
    RetryAfter { delay_ms: u64, attempt: u32 },
    GiveUp(ProxyError),
}

impl DeepView for RetryStep {
    type V = StepView;

    open spec fn deep_view(&self) -> StepView {
        match self {
            RetryStep::Respond(r) => StepView::Respond(r.deep_view()),
            RetryStep::RetryAfter { delay_ms, attempt } => StepView::RetryAfter {
                delay_ms: *delay_ms,
                attempt: *attempt,
            },
            RetryStep::GiveUp(e) => StepView::GiveUp(*e),
        }
    }
}

/// A backend's response as it is relayed: status, headers and body as they
/// came, with one header added that opens the response to every origin.
pub open spec fn relayed(response: ResponseView) -> ResponseView {
    ResponseView {
        status: response.status,
        headers: response.headers.push(text_header("Access-Control-Allow-Origin"@, "*"@)),
        body: response.body,
    }
}

/// The retry policy. A response ends the forwarding, whatever its status: an
/// error status of the backend is relayed, not retried. A failed or timed out
/// attempt is followed by the next one, after a pause that grows linearly
/// with the attempt's number, unless it was the last attempt allowed.
pub open spec fn retry_step(target: TargetService, attempt: u32, outcome: OutcomeView) -> StepView {
    match outcome {
        OutcomeView::Response(r) => StepView::Respond(relayed(r)),
        _ => if attempt < MAX_RETRIES {
            StepView::RetryAfter {
                delay_ms: (RETRY_DELAY_MS * attempt) as u64,
                attempt: (attempt + 1) as u32,
            }
        } else {
            StepView::GiveUp(ProxyError { attempts: MAX_RETRIES, service: target })
        },
    }
}

/// Prepares a backend's response for the client.
pub fn relay_response(response: HttpResponse) -> (out: HttpResponse)
    ensures
        out.deep_view() == relayed(response.deep_view()),
{
    let mut headers = copy_headers(&response.headers);
    let ghost before = headers.deep_view();
    headers.push(Header::new("Access-Control-Allow-Origin", "*"));
    assert(headers.deep_view() =~= before.push(text_header("Access-Control-Allow-Origin"@, "*"@)));
    HttpResponse { status: response.status, headers, body: response.body }
}

/// The number of the first attempt.
pub fn first_attempt() -> (attempt: u32)
    ensures
        attempt == 1,
{
    1
}

/// Decides what follows the attempt numbered `attempt` at `target`.
pub fn after_attempt(target: &TargetService, attempt: u32, outcome: AttemptOutcome) -> (step:
    RetryStep)
    ensures
        step.deep_view() == retry_step(*target, attempt, outcome.deep_view()),
{
    match outcome {
        AttemptOutcome::Response(response) => RetryStep::Respond(relay_response(response)),
        _ => {
            if attempt < MAX_RETRIES {
                RetryStep::RetryAfter {
                    delay_ms: RETRY_DELAY_MS * (attempt as u64),
                    attempt: attempt + 1,
                }
            } else {
                RetryStep::GiveUp(ProxyError { attempts: MAX_RETRIES, service: *target })
            }
        },
    }
}

/// How the forwarding of one request ended.
pub ghost enum ForwardView {
    /// The outcomes on record do not decide it yet.
    Pending,
    /// The client gets this response.
    Responded(ResponseView),
    /// Every attempt allowed has failed.
    Failed(ProxyError),
}

/// The end of a forwarding whose attempts, from the one numbered `attempt`
/// on, have the outcomes `outcomes`, in this order. Outcomes behind the
/// deciding one are not looked at.
pub open spec fn forward_from(target: TargetService, attempt: u32, outcomes: Seq<OutcomeView>)
    -> ForwardView
    decreases outcomes.len(),
{
    if outcomes.len() == 0 {
        ForwardView::Pending
    } else {
        match retry_step(target, attempt, outcomes[0]) {
            StepView::Respond(r) => ForwardView::Responded(r),
            StepView::GiveUp(e) => ForwardView::Failed(e),
            StepView::RetryAfter { attempt: next, .. } => forward_from(
                target,
                next,
                outcomes.drop_first(),
            ),
        }
    }
}

/// The end of a forwarding, from the first attempt on.
pub open spec fn forward(target: TargetService, outcomes: Seq<OutcomeView>) -> ForwardView {
    forward_from(target, 1, outcomes)
}

/// The time spent pausing when the forwarding is decided, in milliseconds.
pub open spec fn pauses_from(target: TargetService, attempt: u32, outcomes: Seq<OutcomeView>) -> nat
    decreases outcomes.len(),
{
    if outcomes.len() == 0 {
        0
    } else {
        match retry_step(target, attempt, outcomes[0]) {
            StepView::RetryAfter { delay_ms, attempt: next } => delay_ms as nat + pauses_from(
                target,
                next,
                outcomes.drop_first(),
            ),
            _ => 0,
        }
    }
}

/// The outcome is a response.
pub open spec fn answered(outcome: OutcomeView) -> bool {
    outcome is Response
}

/// When the first response comes on one of the attempts allowed, the client
/// gets that response, relayed, and no error: the failures before it are not
/// surfaced, and what comes after it is not looked at. The pauses before
/// attempt 2 and 3 are 100 and 200 milliseconds.
pub proof fn lemma_first_response_is_relayed(
    target: TargetService,
    outcomes: Seq<OutcomeView>,
    k: int,
)
    requires
        0 <= k < outcomes.len(),
        k < MAX_RETRIES,
        answered(outcomes[k]),
        forall|i: int| 0 <= i < k ==> !answered(#[trigger] outcomes[i]),
    ensures
        forward(target, outcomes) == ForwardView::Responded(relayed(outcomes[k]->Response_0)),
        pauses_from(target, 1, outcomes) == if k == 0 {
            0nat
        } else if k == 1 {
            100nat
        } else {
            300nat
        },
{
    reveal_with_fuel(forward_from, 4);
    reveal_with_fuel(pauses_from, 4);
    if k >= 1 {
        assert(!answered(outcomes[0]));
        assert(outcomes.drop_first()[0] == outcomes[1]);
    }
    if k >= 2 {
        assert(!answered(outcomes[1]));
        assert(outcomes.drop_first().drop_first()[0] == outcomes[2]);
    }
}

/// When none of the attempts allowed brings a response, the forwarding fails
/// with an error that names the backend and three attempts; there is no
/// pause after the last attempt.
pub proof fn lemma_three_failures_give_up(target: TargetService, outcomes: Seq<OutcomeView>)
    requires
        outcomes.len() >= MAX_RETRIES,
        forall|i: int| 0 <= i < MAX_RETRIES ==> !answered(#[trigger] outcomes[i]),
    ensures
        forward(target, outcomes) == ForwardView::Failed(
            ProxyError { attempts: 3, service: target },
        ),
        pauses_from(target, 1, outcomes) == 300,
{
    reveal_with_fuel(forward_from, 4);
    reveal_with_fuel(pauses_from, 4);
    assert(!answered(outcomes[0]));
    assert(!answered(outcomes[1]));
    assert(!answered(outcomes[2]));
    assert(outcomes.drop_first()[0] == outcomes[1]);
    assert(outcomes.drop_first().drop_first()[0] == outcomes[2]);
}

/// As long as fewer failures are on record than attempts are allowed, and no
/// response, the forwarding is undecided.
pub proof fn lemma_fewer_failures_leave_pending(target: TargetService, outcomes: Seq<OutcomeView>)
    requires
        outcomes.len() < MAX_RETRIES,
        forall|i: int| 0 <= i < outcomes.len() ==> !answered(#[trigger] outcomes[i]),
    ensures
        forward(target, outcomes) == ForwardView::Pending,
{
    reveal_with_fuel(forward_from, 4);
    if outcomes.len() >= 1 {
        assert(!answered(outcomes[0]));
    }
    if outcomes.len() >= 2 {
        assert(!answered(outcomes[1]));
        assert(outcomes.drop_first()[0] == outcomes[1]);
    }
}

} // verus!
