//! The way of a request through the proxy.
//!
//! [`proxy_handler`] makes the decisions. It is given what happened and says
//! what to do next: wait for a permit, send the request to upstream, or answer
//! the client. Whoever drives it does that and hands back what came of it.

use axum::http::HeaderMap;
use vstd::prelude::*;

use crate::body::PermitBody;
#[allow(unused_imports)]
use crate::body::BodyView;
use crate::duration::Duration;
use crate::headers::{
    is_empty_response_body, strip_request_headers, strip_response_headers, UsageAuthHeaders,
};
#[allow(unused_imports)]
use crate::headers::{
    dropped_from_request, dropped_from_response, has_empty_body, header_entries, without,
    UsageAuthView,
};
use crate::log::{
    log_request_received, log_upstream_headers, log_upstream_send_error, LogRecord, ReleaseReason,
    RequestTrace,
};
#[allow(unused_imports)]
use crate::log::{record_views, TraceView};
use crate::permit::{
    acquire_permit, release_acquired_permit, AcquireOutcome, AcquiredPermit, DelayedRelease,
};
#[allow(unused_imports)]
use crate::permit::{optional_delayed, release_of, AcquiredView};
use crate::reply::{upstream_error_response, Reply};
#[allow(unused_imports)]
use crate::reply::{queue_timeout_reply, upstream_error_reply};
use crate::state::{AppState, TrafficSnapshot};
#[allow(unused_imports)]
use crate::state::AppView;
#[allow(unused_imports)]
use crate::text::{optional_text, text_or_fault};
use crate::upstream::{target_or_root, upstream_url};
#[allow(unused_imports)]
use crate::upstream::{own_reference, requested_target, stays_upstream, url_join};
use crate::usage::{maybe_sample_usage_on_429, SampleDecision, SampleRequest};
#[allow(unused_imports)]
use crate::usage::{optional_sample, sample_skipped, sample_taken};

verus! {

/// The most bytes that the body of a request may have: enough for big context
/// requests, and few enough that a runaway client does no harm.
pub const REQUEST_BODY_LIMIT: usize = 10_485_760;

/// The head of a request.
pub struct RequestHead {
    pub method: String,
    pub path: String,
    /// The path with the query, where the request names one.
    pub target: Option<String>,
    pub headers: HeaderMap,
}

/// A request that waits for a permit.
pub struct Queued {
    trace: RequestTrace,
    method: String,
    target: Option<String>,
    headers: HeaderMap,
}

/// The view of [`Queued`].
pub ghost struct QueuedView {
    pub trace: TraceView,
    pub method: Seq<char>,
    pub target: Option<Seq<char>>,
    pub headers: Map<Seq<char>, Seq<Seq<u8>>>,
}

impl View for Queued {
    type V = QueuedView;

    closed spec fn view(&self) -> QueuedView {
        QueuedView {
            trace: self.trace@,
            method: self.method@,
            target: optional_text(self.target),
            headers: header_entries(self.headers),
        }
    }
}

/// A request that was sent to upstream. It owns its permit.
pub struct Sent {
    trace: RequestTrace,
    acquired: AcquiredPermit,
    auth: UsageAuthHeaders,
    sent_at: Duration,
}

/// The view of [`Sent`].
pub ghost struct SentView {
    pub trace: TraceView,
    pub acquired: AcquiredView,
    pub auth: UsageAuthView,
    pub sent_at: Duration,
}

impl View for Sent {
    type V = SentView;

    closed spec fn view(&self) -> SentView {
        SentView {
            trace: self.trace@,
            acquired: self.acquired@,
            auth: self.auth@,
            sent_at: self.sent_at,
        }
    }
}

/// What came of sending a request to upstream.
pub enum UpstreamOutcome {
    /// Upstream answered.
    Response { status: u16, headers: HeaderMap },
    /// Upstream could not be reached, for what `error` says.
    Failed { error: String },
}

/// What happened to a request.
pub enum HandlerEvent {
    /// It came in.
    Received(RequestHead),
    /// Its wait for a permit ended.
    Acquired(Queued, AcquireOutcome),
    /// Upstream answered, or did not.
    Answered(Sent, UpstreamOutcome),
}

/// What to do next for a request.
pub enum HandlerAction {
    /// Wait for a permit, for at most `max_wait`.
    Acquire { queued: Queued, max_wait: Duration },
    /// Send a request of this method to `url`, with `headers` and the body as
    /// it was received.
    Send { sent: Sent, method: String, url: String, headers: HeaderMap },
    /// Answer with this reply.
    Answer(Reply),
    /// Answer with upstream's status and these headers, and no body.
    AnswerEmpty { status: u16, headers: HeaderMap },
    /// Answer with upstream's status and these headers, and hand on its stream
    /// under `body`.
    AnswerStream { status: u16, headers: HeaderMap, body: PermitBody },
}

/// A target that gives no upstream URL.
pub struct TargetFault {
    /// The path and query that were asked for.
    pub target: String,
    /// Why they cannot be joined to the base URL.
    pub error: String,
}

/// The view of [`TargetFault`].
pub ghost struct TargetFaultView {
    pub target: Seq<char>,
    pub error: Seq<char>,
}

impl View for TargetFault {
    type V = TargetFaultView;

    open spec fn view(&self) -> TargetFaultView {
        TargetFaultView { target: self.target@, error: self.error@ }
    }
}

/// A step of a request: what to do next, the lines to log, a permit that waits
/// out the release grace, a usage sample to take, and a target to be reported
/// as faulty.
pub struct HandlerStep {
    pub action: HandlerAction,
    pub records: Vec<LogRecord<String>>,
    pub delayed: Option<DelayedRelease>,
    pub sample: Option<SampleRequest>,
    pub fault: Option<TargetFault>,
}

impl HandlerStep {
    /// The step releases nothing, takes no sample and reports no fault.
    pub open spec fn is_plain(self) -> bool {
        self.delayed is None && self.sample is None && self.fault is None
    }
}

// ---------------------------------------------------------------------------
// The steps
// ---------------------------------------------------------------------------

/// A request comes in: it gets the next id, is logged, and waits for a permit.
pub open spec fn is_receipt(
    before: AppView,
    after: AppView,
    head: RequestHead,
    now: Duration,
    step: HandlerStep,
) -> bool {
    let trace = TraceView {
        request_id: before.next_request_id,
        path: head.path@,
        started_at: now,
    };
    &&& after == before.numbered().entered_queue()
    &&& step.action matches HandlerAction::Acquire { queued, max_wait } && queued@ == (
    QueuedView {
        trace,
        method: head.method@,
        target: optional_text(head.target),
        headers: header_entries(head.headers),
    }) && max_wait == before.max_wait
    &&& exists|snapshot: TrafficSnapshot| #[trigger]
        before.numbered().shows(snapshot) && record_views(step.records@) == seq![
            trace.request_received(head.method@, snapshot),
        ]
    &&& step.is_plain()
}

/// The release of a request's permit ends the step: the lines `first`, the line
/// of the release, and the permit where it waits out the release grace.
pub open spec fn is_release(
    before: AppView,
    after: AppView,
    trace: TraceView,
    acquired: AcquiredView,
    reason: ReleaseReason,
    now: Duration,
    first: Seq<LogRecord<Seq<char>>>,
    step: HandlerStep,
) -> bool {
    &&& after == before.released()
    &&& exists|snapshot: TrafficSnapshot| #[trigger]
        after.shows(snapshot) && {
            let release = release_of(before, trace, acquired, reason, now, snapshot);
            &&& record_views(step.records@) == first.push(release.record)
            &&& optional_delayed(step.delayed) == release.delayed
        }
}

/// A request with a permit goes on to upstream under `url`, with its method,
/// stripped of the headers that are not forwarded. Where there is no URL, its
/// permit is released and it is answered with 502.
pub open spec fn is_forwarding(
    before: AppView,
    after: AppView,
    queued: QueuedView,
    acquired: AcquiredView,
    url: Result<Seq<char>, Seq<char>>,
    now: Duration,
    first: Seq<LogRecord<Seq<char>>>,
    step: HandlerStep,
) -> bool {
    match url {
        Ok(text) => {
            let forwarded = without(queued.headers, |name: Seq<char>| dropped_from_request(name));
            &&& after == before
            &&& step.action matches HandlerAction::Send { sent, method, url, headers } && sent@ == (
            SentView {
                trace: queued.trace,
                acquired,
                auth: UsageAuthView::of_request(forwarded),
                sent_at: now,
            }) && method@ == queued.method && url@ == text && header_entries(headers) == forwarded
            &&& record_views(step.records@) == first
            &&& step.is_plain()
        },
        Err(error) => {
            &&& step.action matches HandlerAction::Answer(reply) && reply@
                == upstream_error_reply()
            &&& is_release(
                before,
                after,
                queued.trace,
                acquired,
                ReleaseReason::InvalidUpstreamPath,
                now,
                first,
                step,
            )
            &&& step.sample is None
            &&& step.fault matches Some(fault) && fault@ == (TargetFaultView {
                target: requested_target(queued.target),
                error,
            })
        },
    }
}

/// The wait of a request ends: with a permit it goes on to upstream, and to no
/// other host whatever it asks for; without one it is answered with 503.
pub open spec fn is_acquisition(
    before: AppView,
    after: AppView,
    queued: QueuedView,
    outcome: AcquireOutcome,
    now: Duration,
    step: HandlerStep,
) -> bool {
    match outcome {
        AcquireOutcome::Granted(permit) => {
            &&& exists|snapshot: TrafficSnapshot| #[trigger]
                before.granted().shows(snapshot) && is_forwarding(
                    before.granted(),
                    after,
                    queued,
                    AcquiredView { permit, acquired_at: now },
                    url_join(before.upstream_base, own_reference(requested_target(queued.target))),
                    now,
                    seq![queued.trace.permit_acquired(snapshot, now)],
                    step,
                )
            &&& step.action matches HandlerAction::Send { url, .. } ==> stays_upstream(
                before.upstream_base,
                requested_target(queued.target),
                url@,
            )
        },
        AcquireOutcome::Closed => {
            &&& is_refusal(before, after, step)
            &&& exists|snapshot: TrafficSnapshot| #[trigger]
                after.shows(snapshot) && record_views(step.records@) == seq![
                    queued.trace.semaphore_closed(snapshot),
                ]
        },
        AcquireOutcome::TimedOut => {
            &&& is_refusal(before, after, step)
            &&& exists|snapshot: TrafficSnapshot| #[trigger]
                after.shows(snapshot) && record_views(step.records@) == seq![
                    queued.trace.queue_timeout(snapshot, now),
                ]
        },
    }
}

/// A request leaves the queue without a permit and is answered with 503.
pub open spec fn is_refusal(before: AppView, after: AppView, step: HandlerStep) -> bool {
    &&& after == before.left_queue()
    &&& step.action matches HandlerAction::Answer(reply) && reply@ == queue_timeout_reply(
        before.max_wait,
    )
    &&& step.is_plain()
}

/// The lines that are logged when upstream answered: its headers, and a sample
/// that is not taken for want of a credential.
pub open spec fn answer_lines(
    app: AppView,
    sent: SentView,
    status: u16,
    entries: Map<Seq<char>, Seq<Seq<u8>>>,
    now: Duration,
    on_headers: TrafficSnapshot,
    on_skip: TrafficSnapshot,
) -> Seq<LogRecord<Seq<char>>> {
    seq![sent.trace.upstream_headers(on_headers, status, entries, sent.sent_at, now)]
        + sample_skipped(app, sent.trace, sent.auth, status, on_skip)
}

/// Upstream's answer is handed on with its status and its headers, stripped of
/// those that are not handed on. A body is streamed under the permit; without a
/// body the permit is released. Where upstream could not be reached, the permit
/// is released and the request is answered with 502.
pub open spec fn is_answer(
    before: AppView,
    after: AppView,
    sent: SentView,
    outcome: UpstreamOutcome,
    now: Duration,
    step: HandlerStep,
) -> bool {
    match outcome {
        UpstreamOutcome::Failed { error } => {
            &&& step.action matches HandlerAction::Answer(reply) && reply@
                == upstream_error_reply()
            &&& is_release(
                before,
                after,
                sent.trace,
                sent.acquired,
                ReleaseReason::UpstreamSendError,
                now,
                seq![sent.trace.upstream_send_error(sent.sent_at, now, error@)],
                step,
            )
            &&& step.sample is None
            &&& step.fault is None
        },
        UpstreamOutcome::Response { status, headers } => {
            let entries = header_entries(headers);
            let handed_on = without(entries, |name: Seq<char>| dropped_from_response(name));
            &&& step.fault is None
            &&& optional_sample(step.sample) == sample_taken(
                before,
                sent.trace,
                sent.auth,
                status,
            )
            &&& exists|on_headers: TrafficSnapshot, on_skip: TrafficSnapshot|
                #![trigger before.shows(on_headers), before.shows(on_skip)]
                before.shows(on_headers) && before.shows(on_skip) && {
                    let lines = answer_lines(
                        before,
                        sent,
                        status,
                        entries,
                        now,
                        on_headers,
                        on_skip,
                    );
                    if has_empty_body(status, handed_on) {
                        is_release(
                            before,
                            after,
                            sent.trace,
                            sent.acquired,
                            ReleaseReason::Complete,
                            now,
                            lines,
                            step,
                        )
                    } else {
                        &&& after == before
                        &&& record_views(step.records@) == lines
                        &&& step.delayed is None
                    }
                }
            &&& if has_empty_body(status, handed_on) {
                step.action matches HandlerAction::AnswerEmpty { status: given, headers: kept }
                    && given == status && header_entries(kept) == handed_on
            } else {
                step.action matches HandlerAction::AnswerStream {
                    status: given,
                    headers: kept,
                    body,
                } && given == status && header_entries(kept) == handed_on && body@
                    == BodyView::fresh(sent.acquired, sent.trace, before.idle_timeout)
            }
        },
    }
}

/// A request comes in.
pub fn receive(state: &mut AppState, head: RequestHead, now: Duration) -> (step: HandlerStep)
    ensures
        is_receipt(old(state)@, final(state)@, head, now, step),
{
    let trace = RequestTrace::new(state, head.path, now);
    let snapshot = state.snapshot();
    let mut records: Vec<LogRecord<String>> = Vec::new();
    records.push(log_request_received(&trace, head.method.clone(), snapshot));
    state.enter_queue();
    let max_wait = state.max_wait();
    assert(record_views(records@) =~= seq![trace@.request_received(head.method@, snapshot)]);
    HandlerStep {
        action: HandlerAction::Acquire {
            queued: Queued {
                trace,
                method: head.method,
                target: head.target,
                headers: head.headers,
            },
            max_wait,
        },
        records,
        delayed: None,
        sample: None,
        fault: None,
    }
}

/// The wait of a request ends.
pub fn on_acquired(
    state: &mut AppState,
    queued: Queued,
    outcome: AcquireOutcome,
    now: Duration,
) -> (step: HandlerStep)
    ensures
        is_acquisition(old(state)@, final(state)@, queued@, outcome, now, step),
{
    let (result, line) = acquire_permit(state, &queued.trace, outcome, now);
    let mut records: Vec<LogRecord<String>> = Vec::new();
    records.push(line);
    assert(record_views(records@) =~= seq![line@]);
    match result {
        Ok(acquired) => {
            let url = upstream_url(state.upstream_base(), &queued.target);
            forward(state, queued, acquired, url, now, records)
        },
        Err(reply) => HandlerStep {
            action: HandlerAction::Answer(reply),
            records,
            delayed: None,
            sample: None,
            fault: None,
        },
    }
}

/// A request with a permit goes on to upstream under `url`, if there is one;
/// else `url` says why not. `first` are the lines of the step so far.
pub fn forward(
    state: &mut AppState,
    queued: Queued,
    acquired: AcquiredPermit,
    url: Result<String, String>,
    now: Duration,
    first: Vec<LogRecord<String>>,
) -> (step: HandlerStep)
    ensures
        is_forwarding(
            old(state)@,
            final(state)@,
            queued@,
            acquired@,
            text_or_fault(url),
            now,
            record_views(first@),
            step,
        ),
{
    match url {
        Ok(url) => {
            let mut headers = queued.headers;
            strip_request_headers(&mut headers);
            let auth = UsageAuthHeaders::from_request(&headers);
            HandlerStep {
                action: HandlerAction::Send {
                    sent: Sent { trace: queued.trace, acquired, auth, sent_at: now },
                    method: queued.method,
                    url,
                    headers,
                },
                records: first,
                delayed: None,
                sample: None,
                fault: None,
            }
        },
        Err(error) => {
            let mut step = release_and_answer(
                state,
                &queued.trace,
                acquired,
                ReleaseReason::InvalidUpstreamPath,
                now,
                first,
                HandlerAction::Answer(upstream_error_response()),
                None,
            );
            step.fault = Some(TargetFault { target: target_or_root(&queued.target), error });
            step
        },
    }
}

/// Releases the permit of a request and answers it.
fn release_and_answer(
    state: &mut AppState,
    trace: &RequestTrace,
    acquired: AcquiredPermit,
    reason: ReleaseReason,
    now: Duration,
    first: Vec<LogRecord<String>>,
    action: HandlerAction,
    sample: Option<SampleRequest>,
) -> (step: HandlerStep)
    ensures
        step.action == action,
        step.sample == sample,
        step.fault is None,
        is_release(
            old(state)@,
            final(state)@,
            trace@,
            acquired@,
            reason,
            now,
            record_views(first@),
            step,
        ),
{
    let release = release_acquired_permit(state, trace, acquired, reason, now);
    let mut records = first;
    records.push(release.record);
    assert(record_views(records@) =~= record_views(first@).push(release.record@));
    HandlerStep { action, records, delayed: release.delayed, sample, fault: None }
}

/// Upstream answered, or did not.
pub fn on_answered(
    state: &mut AppState,
    sent: Sent,
    outcome: UpstreamOutcome,
    now: Duration,
) -> (step: HandlerStep)
    ensures
        is_answer(old(state)@, final(state)@, sent@, outcome, now, step),
{
    let mut records: Vec<LogRecord<String>> = Vec::new();
    match outcome {
        UpstreamOutcome::Failed { error } => {
            records.push(log_upstream_send_error(&sent.trace, sent.sent_at, now, error));
            assert(record_views(records@) =~= seq![
                sent@.trace.upstream_send_error(sent@.sent_at, now, error@),
            ]);
            release_and_answer(
                state,
                &sent.trace,
                sent.acquired,
                ReleaseReason::UpstreamSendError,
                now,
                records,
                HandlerAction::Answer(upstream_error_response()),
                None,
            )
        },
        UpstreamOutcome::Response { status, headers } => {
            let ghost entries = header_entries(headers);
            let on_headers = state.snapshot();
            let line = log_upstream_headers(
                &sent.trace,
                on_headers,
                status,
                &headers,
                sent.sent_at,
                now,
            );
            records.push(line);
            let ghost mut on_skip = on_headers;
            let sample = match maybe_sample_usage_on_429(state, &sent.trace, sent.auth, status) {
                SampleDecision::NotCalledFor => None,
                SampleDecision::Skipped(line) => {
                    proof {
                        on_skip = choose|snapshot: TrafficSnapshot| #[trigger]
                            state@.shows(snapshot) && line@ == sent@.trace.usage_sample_skipped(
                                snapshot,
                            );
                    }
                    records.push(line);
                    None
                },
                SampleDecision::Take(request) => Some(request),
            };
            assert(record_views(records@) =~= answer_lines(
                state@,
                sent@,
                status,
                entries,
                now,
                on_headers,
                on_skip,
            ));
            let mut kept = headers;
            strip_response_headers(&mut kept);
            assert(state@.shows(on_headers) && state@.shows(on_skip));
            if is_empty_response_body(status, &kept) {
                release_and_answer(
                    state,
                    &sent.trace,
                    sent.acquired,
                    ReleaseReason::Complete,
                    now,
                    records,
                    HandlerAction::AnswerEmpty { status, headers: kept },
                    sample,
                )
            } else {
                let idle_timeout = state.idle_timeout();
                HandlerStep {
                    action: HandlerAction::AnswerStream {
                        status,
                        headers: kept,
                        body: PermitBody::new(sent.acquired, sent.trace, idle_timeout),
                    },
                    records,
                    delayed: None,
                    sample,
                    fault: None,
                }
            }
        },
    }
}

/// `step` moves a request on after `event`, from the state `before` it to the
/// state `after` it.
pub open spec fn is_step(
    before: AppView,
    after: AppView,
    event: HandlerEvent,
    now: Duration,
    step: HandlerStep,
) -> bool {
    match event {
        HandlerEvent::Received(head) => is_receipt(before, after, head, now, step),
        HandlerEvent::Acquired(queued, outcome) => is_acquisition(
            before,
            after,
            queued@,
            outcome,
            now,
            step,
        ),
        HandlerEvent::Answered(sent, outcome) => is_answer(
            before,
            after,
            sent@,
            outcome,
            now,
            step,
        ),
    }
}

/// Moves a request on: says what to do next after what happened.
pub fn proxy_handler(state: &mut AppState, event: HandlerEvent, now: Duration) -> (step:
    HandlerStep)
    ensures
        is_step(old(state)@, final(state)@, event, now, step),
{
    match event {
        HandlerEvent::Received(head) => receive(state, head, now),
        HandlerEvent::Acquired(queued, outcome) => on_acquired(state, queued, outcome, now),
        HandlerEvent::Answered(sent, outcome) => on_answered(state, sent, outcome, now),
    }
}

} // verus!
