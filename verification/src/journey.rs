//! What becomes of a request from its arrival to its end, told by what the
//! client and upstream send and by what they get.

use tokio::sync::OwnedSemaphorePermit;
use vstd::prelude::*;

use crate::body::{
    is_closing, is_poll, is_timer_poll, BodyStep, BodyView, FramePoll, PermitBody, StreamPoll,
};
use crate::config::{Config, UsageSampling};
use crate::duration::Duration;
use crate::handler::{
    forward, is_forwarding, is_step, on_acquired, on_answered, proxy_handler, receive,
    HandlerAction, HandlerEvent, HandlerStep, Queued, RequestHead, Sent, UpstreamOutcome,
};
use crate::headers::{
    dropped_from_response, header_entries, shown_request_id, shown_retry_after, without,
    UsageAuthHeaders,
};
use crate::laws::{
    body_after_all, is_possible, is_run, law_content_length_is_kept_in_responses,
    law_credentials_are_forwarded,
    law_idle_timer_runs_while_pending, law_limit_holds_at_every_moment, was_pending_since_data,
    BodyInput, Move, System,
};
use crate::log::{
    millis_between, millis_of, path_level, record_views, Level, LogEvent, LogRecord,
    ReleaseReason, RequestTrace, SampleFailure,
};
use crate::outcomes::{law_dropped_names, lemma_digits, lemma_empty_body, number_of};
use crate::permit::{
    acquire_permit, is_end_of_grace, release_acquired_permit, AcquireOutcome, AcquiredPermit,
    DelayedRelease, DelayedView, GraceOutcome, Release,
};
use crate::reply::{retry_after_secs, Reply};
use crate::state::{AppState, AppView};
use crate::text::text_or_fault;
use crate::upstream::{own_reference, url_join};
use crate::usage::{
    begin_sample, begins_sample, maybe_sample_usage_on_429, moves_sample, sample_usage_after_429,
    SampleAction, SampleDecision, SampleEvent, SampleRequest, UsageResponse,
};

verus! {

// ---------------------------------------------------------------------------
// Calls
// ---------------------------------------------------------------------------

/// Every call of the handler is a step, and every call of one of its parts is
/// the step of that event.
pub proof fn law_calls_are_steps(
    state: &mut AppState,
    event: HandlerEvent,
    head: RequestHead,
    queued: Queued,
    outcome: AcquireOutcome,
    sent: Sent,
    upstream: UpstreamOutcome,
    now: Duration,
    step: HandlerStep,
)
    ensures
        call_ensures(proxy_handler, (state, event, now), step) ==> is_step(
            old(state)@,
            final(state)@,
            event,
            now,
            step,
        ),
        call_ensures(receive, (state, head, now), step) ==> is_step(
            old(state)@,
            final(state)@,
            HandlerEvent::Received(head),
            now,
            step,
        ),
        call_ensures(on_acquired, (state, queued, outcome, now), step) ==> is_step(
            old(state)@,
            final(state)@,
            HandlerEvent::Acquired(queued, outcome),
            now,
            step,
        ),
        call_ensures(on_answered, (state, sent, upstream, now), step) ==> is_step(
            old(state)@,
            final(state)@,
            HandlerEvent::Answered(sent, upstream),
            now,
            step,
        ),
{
}

/// Every call on a request with a permit sends it on or gives it up.
pub proof fn law_calls_forward(
    state: &mut AppState,
    queued: Queued,
    acquired: AcquiredPermit,
    url: Result<String, String>,
    now: Duration,
    first: Vec<LogRecord<String>>,
    step: HandlerStep,
)
    requires
        call_ensures(forward, (state, queued, acquired, url, now, first), step),
    ensures
        is_forwarding(
            old(state)@,
            final(state)@,
            queued@,
            acquired@,
            text_or_fault(url),
            now,
            record_views(first@),
            step,
        ),
        url matches Ok(text) ==> (step.action matches HandlerAction::Send { url: given, .. }
            && given@ == text@),
        url is Ok ==> record_views(step.records@) == record_views(first@),
        url is Err ==> step.records@.len() == first@.len() + 1 && record_views(step.records@).take(
            first@.len() as int,
        ) == record_views(first@),
        url is Err ==> (step.action matches HandlerAction::Answer(reply) && reply.status == 502),
        url matches Err(error) ==> (step.fault matches Some(fault) && fault.error@ == error@),
{
    if let HandlerAction::Answer(reply) = step.action {
        assert(reply@.status == reply.status);
        lemma_lines(step.records@);
        assert(record_views(step.records@).take(first@.len() as int) =~= record_views(first@));
    }
}

/// Every call on a body is a poll, an answer of the timer or a closing.
pub proof fn law_calls_are_polls<C, E>(
    body: &mut PermitBody,
    state: &mut AppState,
    polled: StreamPoll<C, E>,
    fired: bool,
    now: Duration,
    step: BodyStep<C, E>,
    release: Option<Release>,
    acquired: AcquiredPermit,
    trace: RequestTrace,
    idle_timeout: Duration,
    made: PermitBody,
    held: bool,
)
    ensures
        call_ensures(PermitBody::poll_frame::<C, E>, (body, state, polled, now), step) ==> is_poll(
            old(state)@,
            final(state)@,
            old(body)@,
            final(body)@,
            polled,
            now,
            step,
        ),
        call_ensures(PermitBody::poll_idle_timer::<C, E>, (body, state, fired, now), step)
            ==> is_timer_poll(
            old(state)@,
            final(state)@,
            old(body)@,
            final(body)@,
            fired,
            now,
            step,
        ),
        call_ensures(PermitBody::close, (body, state, now), release) ==> is_closing(
            old(state)@,
            final(state)@,
            old(body)@,
            final(body)@,
            now,
            release,
        ),
        call_ensures(PermitBody::new, (acquired, trace, idle_timeout), made) ==> {
            &&& made@.permit == Some(acquired@.permit)
            &&& made@.acquired_at == acquired@.acquired_at
            &&& made@.trace == trace@
            &&& made@.idle_timeout == idle_timeout
            &&& !made@.idle_timer_made
            &&& !made@.idle_timer_armed
            &&& made@.release_reason == ReleaseReason::ClientDrop
        },
        call_ensures(PermitBody::holds_permit, (&made,), held) ==> (held <==> made@.permit is Some),
{
}

/// Every call on a sample moves it on.
pub proof fn law_calls_move_samples(
    state: AppState,
    event: SampleEvent,
    request: SampleRequest,
    url: Result<String, String>,
    now: Duration,
    action: SampleAction,
)
    ensures
        call_ensures(sample_usage_after_429, (&state, event, now), action) ==> moves_sample(
            state@,
            event,
            now,
            action,
        ),
        call_ensures(begin_sample, (&state, request, url, now), action) ==> begins_sample(
            state@,
            request@,
            text_or_fault(url),
            now,
            action,
        ),
{
}

// ---------------------------------------------------------------------------
// Lines of the log
// ---------------------------------------------------------------------------

/// The line tells of the request with this id and path.
pub open spec fn is_about(line: LogRecord<String>, id: u64, path: Seq<char>) -> bool {
    line.request_id == id && line.path@ == path
}

/// The line tells of the release of a permit that was acquired at `acquired_at`:
/// at once where there is no release grace, else of the beginning of that.
pub open spec fn tells_release(
    line: LogRecord<String>,
    reason: ReleaseReason,
    acquired_at: Duration,
    now: Duration,
    before: AppView,
    after: AppView,
) -> bool {
    &&& line.level == path_level(line.path@)
    &&& if before.release_grace@ == 0 {
        line.event matches LogEvent::PermitReleased {
            reason: given,
            held_ms,
            release_grace_ms,
            after: shown,
        } && given == reason && held_ms == millis_between(acquired_at, now) && release_grace_ms == 0
            && after.shows(shown)
    } else {
        line.event matches LogEvent::PermitReleaseScheduled {
            reason: given,
            held_ms,
            release_grace_ms,
            available_permits,
            held_permits,
            active_in_flight_after,
            grace_pending_after,
            queued,
        } && given == reason && held_ms == millis_between(acquired_at, now) && release_grace_ms
            == millis_of(before.release_grace) && (available_permits <= after.max_in_flight
            ==> available_permits + held_permits == after.max_in_flight) && (available_permits
            > after.max_in_flight ==> held_permits == 0) && active_in_flight_after == (if
        before.active_in_flight > 0 {
            before.active_in_flight - 1
        } else {
            0
        }) && (before.grace_pending < usize::MAX ==> grace_pending_after == before.grace_pending
            + 1) && queued == before.queued
    }
}

/// The permit waits out the grace from `now` on exactly if there is a grace.
pub open spec fn begins_grace(
    delayed: Option<DelayedRelease>,
    permit: OwnedSemaphorePermit,
    id: u64,
    path: Seq<char>,
    reason: ReleaseReason,
    acquired_at: Duration,
    now: Duration,
    before: AppView,
) -> bool {
    &&& delayed is Some <==> before.release_grace@ > 0
    &&& delayed matches Some(held) ==> {
        &&& held@.acquired.permit == permit
        &&& held@.acquired.acquired_at == acquired_at
        &&& held@.trace.request_id == id
        &&& held@.trace.path == path
        &&& held@.reason == reason
        &&& held@.ended_at == now
        &&& held@.grace == before.release_grace
    }
}

/// The lines of a list are seen one by one.
proof fn lemma_lines(lines: Seq<LogRecord<String>>)
    ensures
        record_views(lines).len() == lines.len(),
        forall|i: int|
            0 <= i < lines.len() ==> record_views(lines)[i].level == (#[trigger] lines[i]).level
                && record_views(lines)[i].request_id == lines[i].request_id && record_views(
                lines,
            )[i].path == lines[i].path@ && record_views(lines)[i].event == lines[i].event@,
{
}

// ---------------------------------------------------------------------------
// Arrival
// ---------------------------------------------------------------------------

/// A request that comes in is counted, gets the next id, is logged with its
/// method and path, and is told to wait for a permit for at most `max_wait`.
pub proof fn law_arrival(
    before: AppView,
    after: AppView,
    head: RequestHead,
    now: Duration,
    step: HandlerStep,
)
    requires
        is_step(before, after, HandlerEvent::Received(head), now, step),
    ensures
        step.action matches HandlerAction::Acquire { max_wait, .. } && max_wait == before.max_wait,
        step.delayed is None && step.sample is None && step.fault is None,
        after == before.numbered().entered_queue(),
        step.records@.len() == 1,
        is_about(step.records@[0], before.next_request_id, head.path@),
        step.records@[0].level == path_level(head.path@),
        step.records@[0].event matches LogEvent::RequestReceived { method, snapshot } && method@
            == head.method@ && before.shows(snapshot),
{
    lemma_lines(step.records@);
}

/// A request that gets its permit is logged under the id and the path that it
/// came in with, and with the time that it waited.
pub proof fn law_grant_is_logged(
    before: AppView,
    waiting: AppView,
    granting: AppView,
    after: AppView,
    head: RequestHead,
    permit: OwnedSemaphorePermit,
    received_at: Duration,
    granted_at: Duration,
    first: HandlerStep,
    second: HandlerStep,
)
    requires
        is_step(before, waiting, HandlerEvent::Received(head), received_at, first),
        is_step(
            granting,
            after,
            HandlerEvent::Acquired(first.action->queued, AcquireOutcome::Granted(permit)),
            granted_at,
            second,
        ),
    ensures
        second.records@.len() >= 1,
        is_about(second.records@[0], before.next_request_id, head.path@),
        second.records@[0].level == path_level(head.path@),
        second.records@[0].event matches LogEvent::PermitAcquired { queue_wait_ms, snapshot }
            && queue_wait_ms == millis_between(received_at, granted_at) && granting.granted().shows(
            snapshot,
        ),
{
    lemma_lines(second.records@);
}

/// A request that gets its permit is sent to upstream: with the method that it
/// came with, to the path and query that it asks for, and with all of its
/// headers but the eight hop-by-hop ones, `host` and `content-length`.
pub proof fn law_request_is_forwarded(
    before: AppView,
    waiting: AppView,
    granting: AppView,
    after: AppView,
    head: RequestHead,
    permit: OwnedSemaphorePermit,
    received_at: Duration,
    granted_at: Duration,
    first: HandlerStep,
    second: HandlerStep,
    target: Seq<char>,
    name: Seq<char>,
)
    requires
        is_step(before, waiting, HandlerEvent::Received(head), received_at, first),
        is_step(
            granting,
            after,
            HandlerEvent::Acquired(first.action->queued, AcquireOutcome::Granted(permit)),
            granted_at,
            second,
        ),
        target == (match head.target {
            Some(text) => text@,
            None => "/"@,
        }),
        url_join(granting.upstream_base, own_reference(target)) is Ok,
    ensures
        after == granting.granted(),
        second.records@.len() == 1,
        second.delayed is None && second.sample is None && second.fault is None,
        second.action matches HandlerAction::Send { method, url, headers, .. } && {
            &&& method@ == head.method@
            &&& Ok::<Seq<char>, Seq<char>>(url@) == url_join(
                granting.upstream_base,
                own_reference(target),
            )
            &&& header_entries(headers).contains_key(name) <==> header_entries(
                head.headers,
            ).contains_key(name) && !(name == "connection"@ || name == "keep-alive"@ || name
                == "proxy-authenticate"@ || name == "proxy-authorization"@ || name == "te"@ || name
                == "trailers"@ || name == "transfer-encoding"@ || name == "upgrade"@ || name
                == "host"@ || name == "content-length"@)
            &&& header_entries(headers).contains_key(name) ==> header_entries(headers)[name]
                == header_entries(head.headers)[name]
        },
{
    lemma_lines(second.records@);
    law_dropped_names(name);
}

/// A request whose target gives no upstream URL is answered with 502, its permit
/// is released, and the fault is reported.
pub proof fn law_faulty_target_is_answered(
    before: AppView,
    waiting: AppView,
    granting: AppView,
    after: AppView,
    head: RequestHead,
    permit: OwnedSemaphorePermit,
    received_at: Duration,
    granted_at: Duration,
    first: HandlerStep,
    second: HandlerStep,
    target: Seq<char>,
)
    requires
        is_step(before, waiting, HandlerEvent::Received(head), received_at, first),
        is_step(
            granting,
            after,
            HandlerEvent::Acquired(first.action->queued, AcquireOutcome::Granted(permit)),
            granted_at,
            second,
        ),
        target == (match head.target {
            Some(text) => text@,
            None => "/"@,
        }),
        url_join(granting.upstream_base, own_reference(target)) is Err,
    ensures
        after == granting.granted().released(),
        second.action matches HandlerAction::Answer(reply) && reply.status == 502
            && reply.retry_after is None && reply.body@ == "throttle: upstream error\n"@,
        second.fault matches Some(fault) && fault.target@ == target && Err::<Seq<char>, Seq<char>>(
            fault.error@,
        ) == url_join(granting.upstream_base, own_reference(target)),
        second.sample is None,
        second.records@.len() == 2,
        is_about(second.records@[1], before.next_request_id, head.path@),
        tells_release(
            second.records@[1],
            ReleaseReason::InvalidUpstreamPath,
            granted_at,
            granted_at,
            granting.granted(),
            after,
        ),
        begins_grace(
            second.delayed,
            permit,
            before.next_request_id,
            head.path@,
            ReleaseReason::InvalidUpstreamPath,
            granted_at,
            granted_at,
            granting.granted(),
        ),
{
    lemma_lines(second.records@);
    let reply = second.action->Answer_0;
    assert(reply@.status == reply.status);
}

/// A request that gets no permit in time leaves the queue and is answered with
/// 503: with a line of text and, in `Retry-After`, the whole seconds of
/// `max_wait`, or 1 where they are less. What happened is logged as a warning.
pub proof fn law_refusal(
    before: AppView,
    waiting: AppView,
    ending: AppView,
    after: AppView,
    head: RequestHead,
    outcome: AcquireOutcome,
    received_at: Duration,
    now: Duration,
    first: HandlerStep,
    second: HandlerStep,
)
    requires
        is_step(before, waiting, HandlerEvent::Received(head), received_at, first),
        is_step(ending, after, HandlerEvent::Acquired(first.action->queued, outcome), now, second),
        outcome is Closed || outcome is TimedOut,
    ensures
        after == ending.left_queue(),
        second.delayed is None && second.sample is None && second.fault is None,
        second.action matches HandlerAction::Answer(reply) && reply.status == 503 && reply.body@
            == "throttle: queue timeout\n"@ && (reply.retry_after matches Some(digits) && {
            &&& forall|i: int| 0 <= i < digits@.len() ==> 48 <= #[trigger] digits@[i] <= 57
            &&& ending.max_wait@ < 2_000_000_000 ==> number_of(digits@) == 1
            &&& ending.max_wait@ >= 1_000_000_000 ==> number_of(digits@) * 1_000_000_000
                <= ending.max_wait@ < (number_of(digits@) + 1) * 1_000_000_000
        }),
        second.records@.len() == 1,
        is_about(second.records@[0], before.next_request_id, head.path@),
        second.records@[0].level == Level::Warn,
        outcome is TimedOut ==> (second.records@[0].event matches LogEvent::QueueTimeout {
            wait_ms,
            snapshot,
        } && wait_ms == millis_between(received_at, now) && after.shows(snapshot)),
        outcome is Closed ==> (second.records@[0].event matches LogEvent::SemaphoreClosed {
            snapshot,
        } && after.shows(snapshot)),
{
    lemma_lines(second.records@);
    lemma_digits(retry_after_secs(ending.max_wait));
    let reply = second.action->Answer_0;
    assert(reply@.status == reply.status);
}

// ---------------------------------------------------------------------------
// Upstream's answer
// ---------------------------------------------------------------------------

/// The steps of one request up to upstream's answer: what came in, when it got
/// its permit and was sent, and what came back.
pub open spec fn is_answered_request(
    before: AppView,
    waiting: AppView,
    granting: AppView,
    sending: AppView,
    answering: AppView,
    after: AppView,
    head: RequestHead,
    permit: OwnedSemaphorePermit,
    upstream: UpstreamOutcome,
    received_at: Duration,
    granted_at: Duration,
    answered_at: Duration,
    first: HandlerStep,
    second: HandlerStep,
    third: HandlerStep,
) -> bool {
    &&& is_step(before, waiting, HandlerEvent::Received(head), received_at, first)
    &&& is_step(
        granting,
        sending,
        HandlerEvent::Acquired(first.action->queued, AcquireOutcome::Granted(permit)),
        granted_at,
        second,
    )
    &&& second.action is Send
    &&& is_step(
        answering,
        after,
        HandlerEvent::Answered(second.action->sent, upstream),
        answered_at,
        third,
    )
}

/// Upstream's answer is handed on with its status, and with all of its headers
/// but the eight hop-by-hop ones. Its body is left out only where there is none:
/// on 204, on 304, and where `content-length` is `0`. Every other answer is
/// streamed, under the permit of its request.
pub proof fn law_answer_is_handed_on(
    before: AppView,
    waiting: AppView,
    granting: AppView,
    sending: AppView,
    answering: AppView,
    after: AppView,
    head: RequestHead,
    permit: OwnedSemaphorePermit,
    upstream: UpstreamOutcome,
    received_at: Duration,
    granted_at: Duration,
    answered_at: Duration,
    first: HandlerStep,
    second: HandlerStep,
    third: HandlerStep,
    name: Seq<char>,
)
    requires
        is_answered_request(
            before,
            waiting,
            granting,
            sending,
            answering,
            after,
            head,
            permit,
            upstream,
            received_at,
            granted_at,
            answered_at,
            first,
            second,
            third,
        ),
        upstream is Response,
    ensures
        third.fault is None,
        ({
            let status = upstream->status;
            let given = header_entries(upstream->headers);
            let bodiless = status == 204 || status == 304 || (given.contains_key(
                "content-length"@,
            ) && given["content-length"@][0] == seq![48u8]);
            let passes = given.contains_key(name) && !(name == "connection"@ || name
                == "keep-alive"@ || name == "proxy-authenticate"@ || name == "proxy-authorization"@
                || name == "te"@ || name == "trailers"@ || name == "transfer-encoding"@ || name
                == "upgrade"@);
            &&& bodiless ==> after == answering.released()
            &&& bodiless ==> (third.action matches HandlerAction::AnswerEmpty {
                status: answered,
                headers,
            } && answered == status && (header_entries(headers).contains_key(name) <==> passes) && (
            passes ==> header_entries(headers)[name] == given[name]))
            &&& bodiless ==> begins_grace(
                third.delayed,
                permit,
                before.next_request_id,
                head.path@,
                ReleaseReason::Complete,
                granted_at,
                answered_at,
                answering,
            )
            &&& !bodiless ==> after == answering && third.delayed is None
            &&& !bodiless ==> (third.action matches HandlerAction::AnswerStream {
                status: answered,
                headers,
                body,
            } && answered == status && (header_entries(headers).contains_key(name) <==> passes) && (
            passes ==> header_entries(headers)[name] == given[name]) && {
                &&& body@.permit == Some(permit)
                &&& body@.acquired_at == granted_at
                &&& body@.idle_timeout == answering.idle_timeout
                &&& body@.trace.request_id == before.next_request_id
                &&& body@.trace.path == head.path@
                &&& !body@.idle_timer_made
                &&& !body@.idle_timer_armed
                &&& body@.release_reason == ReleaseReason::ClientDrop
            })
        }),
{
    let status = upstream->status;
    let given = header_entries(upstream->headers);
    let kept = without(given, |n: Seq<char>| dropped_from_response(n));
    law_dropped_names(name);
    law_dropped_names("content-length"@);
    law_content_length_is_kept_in_responses(given);
    lemma_empty_body(status, given);
    lemma_empty_body(status, kept);
    lemma_lines(third.records@);
}

/// Upstream's answer is logged, a 429 as a warning, with the time since the
/// request was sent and with what upstream says of retrying and of its own id.
pub proof fn law_answer_is_logged(
    before: AppView,
    waiting: AppView,
    granting: AppView,
    sending: AppView,
    answering: AppView,
    after: AppView,
    head: RequestHead,
    permit: OwnedSemaphorePermit,
    upstream: UpstreamOutcome,
    received_at: Duration,
    granted_at: Duration,
    answered_at: Duration,
    first: HandlerStep,
    second: HandlerStep,
    third: HandlerStep,
)
    requires
        is_answered_request(
            before,
            waiting,
            granting,
            sending,
            answering,
            after,
            head,
            permit,
            upstream,
            received_at,
            granted_at,
            answered_at,
            first,
            second,
            third,
        ),
        upstream is Response,
    ensures
        third.records@.len() >= 1,
        is_about(third.records@[0], before.next_request_id, head.path@),
        third.records@[0].level == (if upstream->status == 429 {
            Level::Warn
        } else {
            path_level(head.path@)
        }),
        third.records@[0].event matches LogEvent::UpstreamHeaders {
            status,
            upstream_header_ms,
            snapshot,
            retry_after,
            upstream_request_id,
        } && status == upstream->status && upstream_header_ms == millis_between(
            granted_at,
            answered_at,
        ) && answering.shows(snapshot) && retry_after@ == shown_retry_after(
            header_entries(upstream->headers),
        ) && upstream_request_id@ == shown_request_id(header_entries(upstream->headers)),
        third.action is AnswerEmpty ==> {
            let last = third.records@.len() - 1;
            &&& last >= 1
            &&& is_about(third.records@[last], before.next_request_id, head.path@)
            &&& tells_release(
                third.records@[last],
                ReleaseReason::Complete,
                granted_at,
                answered_at,
                answering,
                after,
            )
        },
{
    lemma_lines(third.records@);
}

/// A usage sample is called for exactly by a 429 of upstream while sampling is
/// on. It is taken with the credentials that the request came with; where it
/// came with none, it is skipped, which is logged as a warning.
pub proof fn law_samples_are_called_for(
    before: AppView,
    waiting: AppView,
    granting: AppView,
    sending: AppView,
    answering: AppView,
    after: AppView,
    head: RequestHead,
    permit: OwnedSemaphorePermit,
    upstream: UpstreamOutcome,
    received_at: Duration,
    granted_at: Duration,
    answered_at: Duration,
    first: HandlerStep,
    second: HandlerStep,
    third: HandlerStep,
)
    requires
        is_answered_request(
            before,
            waiting,
            granting,
            sending,
            answering,
            after,
            head,
            permit,
            upstream,
            received_at,
            granted_at,
            answered_at,
            first,
            second,
            third,
        ),
        upstream is Response,
    ensures
        ({
            let came = header_entries(head.headers);
            let called = upstream->status == 429 && answering.usage_sampling
                == UsageSampling::On429;
            let known = came.contains_key("authorization"@) || came.contains_key("x-api-key"@);
            &&& third.sample is Some <==> called && known
            &&& third.sample matches Some(request) ==> {
                &&& request.trace.request_id == before.next_request_id
                &&& request.trace.path@ == head.path@
                &&& request.auth.authorization is Some <==> came.contains_key("authorization"@)
                &&& request.auth.authorization matches Some(value) ==> value@
                    == came["authorization"@][0]
                &&& request.auth.x_api_key is Some <==> came.contains_key("x-api-key"@)
                &&& request.auth.x_api_key matches Some(value) ==> value@ == came["x-api-key"@][0]
            }
            &&& called && !known ==> third.records@.len() >= 2 && is_about(
                third.records@[1],
                before.next_request_id,
                head.path@,
            ) && third.records@[1].level == Level::Warn && (
            third.records@[1].event matches LogEvent::RemoteUsageSampleSkipped { snapshot }
                && answering.shows(snapshot))
            &&& third.records@.len() == 1 + (if called && !known {
                1int
            } else {
                0
            }) + (if third.action is AnswerEmpty {
                1int
            } else {
                0
            })
        }),
{
    lemma_lines(third.records@);
    law_credentials_are_forwarded(header_entries(head.headers));
    if let Some(request) = third.sample {
        assert(request@.trace == request.trace@);
        assert(request@.auth == request.auth@);
    }
}

/// Where upstream could not be reached, the request is answered with 502, its
/// permit is released, and the error is logged as a warning, with the time since
/// the request was sent.
pub proof fn law_unreachable_upstream(
    before: AppView,
    waiting: AppView,
    granting: AppView,
    sending: AppView,
    answering: AppView,
    after: AppView,
    head: RequestHead,
    permit: OwnedSemaphorePermit,
    upstream: UpstreamOutcome,
    received_at: Duration,
    granted_at: Duration,
    answered_at: Duration,
    first: HandlerStep,
    second: HandlerStep,
    third: HandlerStep,
)
    requires
        is_answered_request(
            before,
            waiting,
            granting,
            sending,
            answering,
            after,
            head,
            permit,
            upstream,
            received_at,
            granted_at,
            answered_at,
            first,
            second,
            third,
        ),
        upstream is Failed,
    ensures
        after == answering.released(),
        third.sample is None && third.fault is None,
        third.action matches HandlerAction::Answer(reply) && reply.status == 502
            && reply.retry_after is None && reply.body@ == "throttle: upstream error\n"@,
        third.records@.len() == 2,
        is_about(third.records@[0], before.next_request_id, head.path@),
        third.records@[0].level == Level::Warn,
        third.records@[0].event matches LogEvent::UpstreamSendError { upstream_send_ms, error }
            && upstream_send_ms == millis_between(granted_at, answered_at) && error@
            == upstream->error@,
        is_about(third.records@[1], before.next_request_id, head.path@),
        tells_release(
            third.records@[1],
            ReleaseReason::UpstreamSendError,
            granted_at,
            answered_at,
            answering,
            after,
        ),
        begins_grace(
            third.delayed,
            permit,
            before.next_request_id,
            head.path@,
            ReleaseReason::UpstreamSendError,
            granted_at,
            answered_at,
            answering,
        ),
{
    lemma_lines(third.records@);
    let reply = third.action->Answer_0;
    assert(reply@.status == reply.status);
}

// ---------------------------------------------------------------------------
// The response
// ---------------------------------------------------------------------------

/// A chunk of upstream goes to the client as it is, and nothing is released.
/// The idle window is over.
pub proof fn law_chunks_go_to_the_client<C, E>(
    before: AppView,
    after: AppView,
    body: BodyView,
    next: BodyView,
    chunk: C,
    now: Duration,
    step: BodyStep<C, E>,
)
    requires
        is_poll(before, after, body, next, StreamPoll::Chunk(chunk), now, step),
    ensures
        step.frame matches FramePoll::Data(given) && given == chunk,
        step.records@.len() == 0,
        step.delayed is None,
        after == before,
        next == (BodyView { idle_timer_armed: false, ..body }),
{
}

/// A stream without data leaves it to the idle timer: that is made at the first
/// time, set to `idle_timeout` at the beginning of each window, and asked.
pub proof fn law_silence_is_timed<C, E>(
    before: AppView,
    after: AppView,
    body: BodyView,
    next: BodyView,
    now: Duration,
    step: BodyStep<C, E>,
)
    requires
        is_poll(before, after, body, next, StreamPoll::Pending, now, step),
    ensures
        step.frame matches FramePoll::PollTimer { make, arm, idle_timeout } && make
            == !body.idle_timer_made && arm == !body.idle_timer_armed && idle_timeout
            == body.idle_timeout,
        step.records@.len() == 0,
        step.delayed is None,
        after == before,
        next == (BodyView { idle_timer_made: true, idle_timer_armed: true, ..body }),
{
}

/// The end of the stream ends the body and releases the permit, once.
pub proof fn law_end_releases<C, E>(
    before: AppView,
    after: AppView,
    body: BodyView,
    next: BodyView,
    now: Duration,
    step: BodyStep<C, E>,
)
    requires
        is_poll(before, after, body, next, StreamPoll::End, now, step),
    ensures
        step.frame is End,
        next == (BodyView { permit: None, release_reason: ReleaseReason::Complete, ..body }),
        body.permit is None ==> after == before && step.records@.len() == 0 && step.delayed is None,
        body.permit matches Some(permit) ==> {
            &&& after == before.released()
            &&& step.records@.len() == 1
            &&& is_about(step.records@[0], body.trace.request_id, body.trace.path)
            &&& tells_release(
                step.records@[0],
                ReleaseReason::Complete,
                body.acquired_at,
                now,
                before,
                after,
            )
            &&& begins_grace(
                step.delayed,
                permit,
                body.trace.request_id,
                body.trace.path,
                ReleaseReason::Complete,
                body.acquired_at,
                now,
                before,
            )
        },
{
    lemma_lines(step.records@);
}

/// An error of the stream goes to the client, is logged as a warning with its
/// text, and releases the permit, once.
pub proof fn law_stream_error_releases<C, E>(
    before: AppView,
    after: AppView,
    body: BodyView,
    next: BodyView,
    error: E,
    text: String,
    now: Duration,
    step: BodyStep<C, E>,
)
    requires
        is_poll(before, after, body, next, StreamPoll::Failed(error, text), now, step),
    ensures
        step.frame matches FramePoll::Failed(given) && given == error,
        next == (BodyView { permit: None, release_reason: ReleaseReason::StreamError, ..body }),
        step.records@.len() >= 1,
        is_about(step.records@[0], body.trace.request_id, body.trace.path),
        step.records@[0].level == Level::Warn,
        step.records@[0].event matches LogEvent::UpstreamStreamError { error: said } && said@
            == text@,
        body.permit is None ==> after == before && step.records@.len() == 1 && step.delayed is None,
        body.permit matches Some(permit) ==> {
            &&& after == before.released()
            &&& step.records@.len() == 2
            &&& is_about(step.records@[1], body.trace.request_id, body.trace.path)
            &&& tells_release(
                step.records@[1],
                ReleaseReason::StreamError,
                body.acquired_at,
                now,
                before,
                after,
            )
            &&& begins_grace(
                step.delayed,
                permit,
                body.trace.request_id,
                body.trace.path,
                ReleaseReason::StreamError,
                body.acquired_at,
                now,
                before,
            )
        },
{
    lemma_lines(step.records@);
}

/// An idle timer that fired ends the body, is logged as a warning with the
/// timeout, and releases the permit, once. One that did not changes nothing.
pub proof fn law_idle_timeout_releases<C, E>(
    before: AppView,
    after: AppView,
    body: BodyView,
    next: BodyView,
    fired: bool,
    now: Duration,
    step: BodyStep<C, E>,
)
    requires
        is_timer_poll(before, after, body, next, fired, now, step),
    ensures
        !fired ==> step.frame is Pending && step.records@.len() == 0 && step.delayed is None
            && after == before && next == body,
        fired ==> step.frame is End,
        fired ==> next == (BodyView {
            permit: None,
            release_reason: ReleaseReason::IdleTimeout,
            ..body
        }),
        fired ==> step.records@.len() >= 1 && is_about(
            step.records@[0],
            body.trace.request_id,
            body.trace.path,
        ) && step.records@[0].level == Level::Warn && (
        step.records@[0].event matches LogEvent::StreamIdleTimeout { idle_timeout_ms, snapshot }
            && idle_timeout_ms == millis_of(body.idle_timeout) && before.shows(snapshot)),
        fired && body.permit is None ==> after == before && step.records@.len() == 1
            && step.delayed is None,
        body.permit matches Some(permit) ==> fired ==> {
            &&& after == before.released()
            &&& step.records@.len() == 2
            &&& is_about(step.records@[1], body.trace.request_id, body.trace.path)
            &&& tells_release(
                step.records@[1],
                ReleaseReason::IdleTimeout,
                body.acquired_at,
                now,
                before,
                after,
            )
            &&& begins_grace(
                step.delayed,
                permit,
                body.trace.request_id,
                body.trace.path,
                ReleaseReason::IdleTimeout,
                body.acquired_at,
                now,
                before,
            )
        },
{
    lemma_lines(step.records@);
}

/// A body that is closed while it holds its permit releases it, once: a client
/// that went away is the reason unless there was another before.
pub proof fn law_closing_releases(
    before: AppView,
    after: AppView,
    body: BodyView,
    next: BodyView,
    now: Duration,
    release: Option<Release>,
)
    requires
        is_closing(before, after, body, next, now, release),
    ensures
        next == (BodyView { permit: None, ..body }),
        body.permit is None ==> after == before && release is None,
        body.permit matches Some(permit) ==> {
            &&& after == before.released()
            &&& release matches Some(made) && {
                &&& is_about(made.record, body.trace.request_id, body.trace.path)
                &&& tells_release(
                    made.record,
                    body.release_reason,
                    body.acquired_at,
                    now,
                    before,
                    after,
                )
                &&& begins_grace(
                    made.delayed,
                    permit,
                    body.trace.request_id,
                    body.trace.path,
                    body.release_reason,
                    body.acquired_at,
                    now,
                    before,
                )
            }
        },
{
    if let Some(made) = release {
        assert(made@.record == made.record@);
    }
}

/// A permit that waits out the grace is given back no sooner than that is over,
/// and is then logged under its request, with the time that it was held.
pub proof fn law_grace_ends(
    before: AppView,
    after: AppView,
    held: DelayedView,
    now: Duration,
    outcome: GraceOutcome,
)
    requires
        is_end_of_grace(before, after, held, now, outcome),
    ensures
        outcome is Over <==> now@ >= held.ended_at@ + held.grace@,
        outcome matches GraceOutcome::Waiting(rest) ==> after == before && rest@ == held,
        outcome matches GraceOutcome::Over(line) ==> {
            &&& after == before.grace_over()
            &&& is_about(line, held.trace.request_id, held.trace.path)
            &&& line.level == path_level(held.trace.path)
            &&& line.event matches LogEvent::PermitReleased {
                reason,
                held_ms,
                release_grace_ms,
                after: shown,
            } && reason == held.reason && held_ms == millis_between(held.acquired.acquired_at, now)
                && release_grace_ms == millis_of(held.grace) && after.shows(shown)
        },
{
}

/// What a waiting permit says of itself, and every look at its end.
pub proof fn law_calls_end_grace(
    held: DelayedRelease,
    state: &mut AppState,
    now: Duration,
    grace: Duration,
    rest: Duration,
    outcome: GraceOutcome,
)
    ensures
        call_ensures(DelayedRelease::grace, (&held,), grace) ==> grace == held@.grace,
        call_ensures(DelayedRelease::remaining, (&held, now), rest) ==> (now@ >= held@.ended_at@
            + held@.grace@ ==> rest@ == 0) && (held@.ended_at@ <= now@ < held@.ended_at@
            + held@.grace@ ==> now@ + rest@ == held@.ended_at@ + held@.grace@) && (now@
            < held@.ended_at@ ==> rest@ == held@.grace@),
        call_ensures(DelayedRelease::finish, (held, state, now), outcome) ==> is_end_of_grace(
            old(state)@,
            final(state)@,
            held@,
            now,
            outcome,
        ),
{
}

/// A permit that is acquired and released: what is logged and counted on the
/// way, and what the request gets that acquires none.
pub proof fn law_permits_are_acquired_and_released(
    state: &mut AppState,
    later: &mut AppState,
    trace: RequestTrace,
    outcome: AcquireOutcome,
    acquired: AcquiredPermit,
    reply: Reply,
    line: LogRecord<String>,
    reason: ReleaseReason,
    release: Release,
    granted_at: Duration,
    released_at: Duration,
)
    ensures
        call_ensures(
            acquire_permit,
            (state, &trace, outcome, granted_at),
            (Ok::<AcquiredPermit, Reply>(acquired), line),
        ) ==> {
            &&& outcome matches AcquireOutcome::Granted(permit) && permit == acquired@.permit
            &&& acquired@.acquired_at == granted_at
            &&& final(state)@ == old(state)@.granted()
            &&& is_about(line, trace.request_id, trace.path@)
            &&& line.level == path_level(trace.path@)
            &&& line.event matches LogEvent::PermitAcquired { queue_wait_ms, snapshot }
                && queue_wait_ms == millis_between(trace.started_at, granted_at) && final(state)@.shows(snapshot)
        },
        call_ensures(
            acquire_permit,
            (state, &trace, outcome, granted_at),
            (Err::<AcquiredPermit, Reply>(reply), line),
        ) ==> {
            &&& outcome is Closed || outcome is TimedOut
            &&& reply.status == 503
            &&& reply.body@ == "throttle: queue timeout\n"@
            &&& reply.retry_after is Some
            &&& final(state)@ == old(state)@.left_queue()
            &&& is_about(line, trace.request_id, trace.path@)
            &&& line.level == Level::Warn
            &&& outcome is TimedOut <==> line.event is QueueTimeout
            &&& outcome is Closed <==> line.event is SemaphoreClosed
        },
        call_ensures(
            release_acquired_permit,
            (later, &trace, acquired, reason, released_at),
            release,
        ) ==> {
            &&& final(later)@ == old(later)@.released()
            &&& is_about(release.record, trace.request_id, trace.path@)
            &&& tells_release(
                release.record,
                reason,
                acquired@.acquired_at,
                released_at,
                old(later)@,
                final(later)@,
            )
            &&& begins_grace(
                release.delayed,
                acquired@.permit,
                trace.request_id,
                trace.path@,
                reason,
                acquired@.acquired_at,
                released_at,
                old(later)@,
            )
        },
{
    assert(reply@.status == reply.status);
    assert(release@.record == release.record@);
    lemma_digits(retry_after_secs(old(state)@.max_wait));
}

// ---------------------------------------------------------------------------
// Usage samples
// ---------------------------------------------------------------------------

/// Whether a sample is taken, skipped or not called for.
pub proof fn law_sample_decisions(
    state: AppState,
    trace: RequestTrace,
    auth: UsageAuthHeaders,
    status: u16,
    decision: SampleDecision,
)
    requires
        call_ensures(maybe_sample_usage_on_429, (&state, &trace, auth, status), decision),
    ensures
        decision is NotCalledFor <==> status != 429 || state@.usage_sampling == UsageSampling::Off,
        decision is Skipped <==> status == 429 && state@.usage_sampling == UsageSampling::On429
            && auth.authorization is None && auth.x_api_key is None,
        decision matches SampleDecision::Skipped(line) ==> is_about(
            line,
            trace.request_id,
            trace.path@,
        ) && line.level == Level::Warn && (line.event matches LogEvent::RemoteUsageSampleSkipped {
            snapshot,
        } && state@.shows(snapshot)),
        decision matches SampleDecision::Take(request) ==> {
            &&& request.trace.request_id == trace.request_id
            &&& request.trace.path@ == trace.path@
            &&& request.trace.started_at == trace.started_at
            &&& request.auth@.authorization == auth@.authorization
            &&& request.auth@.x_api_key == auth@.x_api_key
        },
{
    if let SampleDecision::Take(request) = decision {
        assert(request@.trace == request.trace@);
        assert(request@.auth == request.auth@);
    }
}

/// A sample asks the usage endpoint, `/v1/usage` of the base, with the
/// credentials that it was given. Where that is no URL, it ends with a warning.
pub proof fn law_sample_begins(
    app: AppView,
    request: SampleRequest,
    now: Duration,
    action: SampleAction,
)
    requires
        moves_sample(app, SampleEvent::Begin(request), now, action),
    ensures
        action is Fetch <==> url_join(app.upstream_base, "/v1/usage"@) is Ok,
        action matches SampleAction::Fetch { url, auth, .. } ==> {
            &&& Ok::<Seq<char>, Seq<char>>(url@) == url_join(app.upstream_base, "/v1/usage"@)
            &&& auth.authorization is Some <==> request.auth.authorization is Some
            &&& auth.authorization matches Some(value) ==> value@
                == request.auth.authorization->0@
            &&& auth.x_api_key is Some <==> request.auth.x_api_key is Some
            &&& auth.x_api_key matches Some(value) ==> value@ == request.auth.x_api_key->0@
        },
        !(action is Fetch) ==> (action matches SampleAction::Done(line) && is_about(
            line,
            request.trace.request_id,
            request.trace.path@,
        ) && line.level == Level::Warn && (
        line.event matches LogEvent::RemoteUsageSampleFailed {
            failure,
            sample_ms,
            snapshot,
            error,
        } && failure == SampleFailure::InvalidUsageUrl && sample_ms == 0 && app.shows(snapshot)
            && Err::<Seq<char>, Seq<char>>(error@) == url_join(app.upstream_base, "/v1/usage"@))),
{
    assert(request@.auth == request.auth@);
    assert(request@.trace == request.trace@);
}

/// A sample whose request could not be sent, or was refused, ends with a warning
/// under the request that called for it, with the time since it began.
pub proof fn law_sample_fails(
    app: AppView,
    later: AppView,
    request: SampleRequest,
    error: String,
    status: u16,
    began_at: Duration,
    now: Duration,
    first: SampleAction,
    second: SampleAction,
)
    requires
        moves_sample(app, SampleEvent::Begin(request), began_at, first),
        first is Fetch,
    ensures
        moves_sample(later, SampleEvent::SendFailed(first->sample, error), now, second) ==> (
        second matches SampleAction::Done(line) && is_about(
            line,
            request.trace.request_id,
            request.trace.path@,
        ) && line.level == Level::Warn && (
        line.event matches LogEvent::RemoteUsageSampleFailed {
            failure,
            sample_ms,
            snapshot,
            error: said,
        } && failure == SampleFailure::SendFailed && sample_ms == millis_between(began_at, now)
            && later.shows(snapshot) && said@ == error@)),
        moves_sample(later, SampleEvent::Answered(first->sample, status), now, second) ==> (second
            is Decode <==> 200 <= status <= 299),
        moves_sample(later, SampleEvent::Answered(first->sample, status), now, second) && !(200
            <= status <= 299) ==> (second matches SampleAction::Done(line) && is_about(
            line,
            request.trace.request_id,
            request.trace.path@,
        ) && line.level == Level::Warn && (
        line.event matches LogEvent::RemoteUsageSampleRefused { status: given, sample_ms, snapshot }
            && given == status && sample_ms == millis_between(began_at, now) && later.shows(
            snapshot,
        ))),
{
    assert(request@.trace == request.trace@);
}

/// A sample that was answered ends with the numbers of the report, or with a
/// warning where the answer is no report.
pub proof fn law_sample_ends(
    app: AppView,
    answering: AppView,
    later: AppView,
    request: SampleRequest,
    status: u16,
    usage: UsageResponse,
    error: String,
    began_at: Duration,
    answered_at: Duration,
    now: Duration,
    first: SampleAction,
    second: SampleAction,
    third: SampleAction,
)
    requires
        moves_sample(app, SampleEvent::Begin(request), began_at, first),
        first is Fetch,
        moves_sample(answering, SampleEvent::Answered(first->sample, status), answered_at, second),
        second is Decode,
    ensures
        moves_sample(later, SampleEvent::Decoded(second->Decode_0, Err(error)), now, third) ==> (
        third matches SampleAction::Done(line) && is_about(
            line,
            request.trace.request_id,
            request.trace.path@,
        ) && line.level == Level::Warn && (
        line.event matches LogEvent::RemoteUsageSampleFailed {
            failure,
            sample_ms,
            snapshot,
            error: said,
        } && failure == SampleFailure::DecodeFailed && sample_ms == millis_between(began_at, now)
            && later.shows(snapshot) && said@ == error@)),
        moves_sample(later, SampleEvent::Decoded(second->Decode_0, Ok(usage)), now, third) ==> (
        third matches SampleAction::Done(line) && is_about(
            line,
            request.trace.request_id,
            request.trace.path@,
        ) && line.level == Level::Info && (line.event matches LogEvent::RemoteUsageSample {
            sample_ms,
            snapshot,
            remote_concurrent_sessions,
            remote_concurrency_limit,
            remote_concurrency_hard_cap,
            remote_priority_low,
        } && sample_ms == millis_between(began_at, now) && later.shows(snapshot)
            && remote_concurrent_sessions == (if usage.usage is Some {
            usage.usage->0.concurrent_sessions
        } else {
            None
        }) && remote_concurrency_limit == (if usage.limits is Some && usage.limits->0.concurrency
            is Some {
            usage.limits->0.concurrency->0.limit
        } else {
            None
        }) && remote_concurrency_hard_cap == (if usage.limits is Some
            && usage.limits->0.concurrency is Some {
            usage.limits->0.concurrency->0.hard_cap
        } else {
            None
        }) && remote_priority_low == (if usage.usage is Some && usage.usage->0.priority is Some {
            usage.usage->0.priority->0.low
        } else {
            None
        }))),
{
    assert(request@.trace == request.trace@);
}

// ---------------------------------------------------------------------------
// From the configuration on
// ---------------------------------------------------------------------------

/// The settings of the configuration hold at every moment of a run that starts
/// from it, whatever happens.
pub proof fn law_settings_hold_throughout<C, E>(
    config: Config,
    state: AppState,
    systems: Seq<System>,
    moves: Seq<(int, Move<C, E>)>,
    i: int,
)
    requires
        call_ensures(AppState::new, (&config,), state),
        is_run(systems, moves),
        systems[0].app == state@,
        0 <= i < systems.len(),
    ensures
        systems[i].app.upstream_base == state@.upstream_base,
        systems[i].app.semaphore == state@.semaphore,
        systems[i].app.max_in_flight == config.throttle.max_in_flight,
        systems[i].app.max_wait == config.throttle.max_wait,
        systems[i].app.idle_timeout == config.throttle.idle_timeout,
        systems[i].app.release_grace == config.throttle.release_grace,
        systems[i].app.usage_sampling == config.observability.usage_sampling,
    decreases i,
{
    if i > 0 {
        law_settings_hold_throughout(config, state, systems, moves, i - 1);
        assert(moves[i - 1].1.leads(moves[i - 1].0, systems[i - 1], systems[i - 1 + 1]));
    }
}

/// At every moment of a run that starts from a configuration, no more requests
/// are in flight upstream than it allows; and as long as fewer permits are out,
/// one more request can get one.
pub proof fn law_limit_is_the_configured_one<C, E>(
    config: Config,
    state: AppState,
    systems: Seq<System>,
    moves: Seq<(int, Move<C, E>)>,
    i: int,
    queued: Queued,
    permit: OwnedSemaphorePermit,
)
    requires
        config.throttle.max_in_flight <= usize::MAX / 8,
        call_ensures(AppState::new, (&config,), state),
        is_run(systems, moves),
        systems[0] == (System {
            app: state@,
            queued: Set::empty(),
            in_flight: Set::empty(),
            grace: Set::empty(),
            dropped_queued: 0,
            dropped_in_flight: 0,
        }),
        0 <= i < systems.len(),
    ensures
        systems[i].in_flight.len() <= config.throttle.max_in_flight,
        systems[i].in_flight.len() + systems[i].grace.len() <= config.throttle.max_in_flight,
        systems[i].in_flight.len() + systems[i].grace.len() < config.throttle.max_in_flight
            && systems[i].app.active_in_flight < usize::MAX ==> is_possible(
            systems[i],
            HandlerEvent::Acquired(queued, AcquireOutcome::Granted(permit)),
        ),
{
    assert(systems[0].is_accounted());
    law_limit_holds_at_every_moment(systems, moves, i);
    law_settings_hold_throughout(config, state, systems, moves, i);
}

/// A request that comes in is told to wait for a permit for exactly as long as
/// the configuration says; one that gets none is told to come back after that.
pub proof fn law_wait_is_the_configured_one<C, E>(
    config: Config,
    state: AppState,
    systems: Seq<System>,
    moves: Seq<(int, Move<C, E>)>,
    i: int,
    now: Duration,
    step: HandlerStep,
    head: RequestHead,
)
    requires
        call_ensures(AppState::new, (&config,), state),
        is_run(systems, moves),
        systems[0].app == state@,
        0 <= i < moves.len(),
        moves[i].1 == (Move::<C, E>::Step { event: HandlerEvent::Received(head), now, step }),
    ensures
        step.action matches HandlerAction::Acquire { max_wait, .. } && max_wait
            == config.throttle.max_wait,
{
    law_settings_hold_throughout(config, state, systems, moves, i);
    assert(moves[i].1.leads(moves[i].0, systems[i], systems[i + 1]));
    law_arrival(systems[i].app, systems[i + 1].app, head, now, step);
}

/// Whenever the stream of an answer is pending, however much came before, the
/// timer is set to exactly the `idle_timeout` of the configuration. It is made
/// the first time and set at the beginning of each window.
pub proof fn law_idle_window_is_the_configured_one<C, E>(
    config: Config,
    state: AppState,
    systems: Seq<System>,
    moves: Seq<(int, Move<C, E>)>,
    i: int,
    sent: Sent,
    upstream: UpstreamOutcome,
    answered_at: Duration,
    answer: HandlerStep,
    inputs: Seq<BodyInput>,
    before: AppView,
    after: AppView,
    next: BodyView,
    now: Duration,
    step: BodyStep<C, E>,
)
    requires
        call_ensures(AppState::new, (&config,), state),
        is_run(systems, moves),
        systems[0].app == state@,
        0 <= i < moves.len(),
        moves[i].1 == (Move::<C, E>::Step {
            event: HandlerEvent::Answered(sent, upstream),
            now: answered_at,
            step: answer,
        }),
        answer.action is AnswerStream,
        is_poll(
            before,
            after,
            body_after_all(answer.action->body@, inputs),
            next,
            StreamPoll::Pending,
            now,
            step,
        ),
    ensures
        step.frame matches FramePoll::PollTimer { make, arm, idle_timeout } && idle_timeout
            == config.throttle.idle_timeout && (make <==> forall|k: int|
            0 <= k < inputs.len() ==> !((#[trigger] inputs[k]) is Pending)) && (arm
            <==> !was_pending_since_data(inputs)),
{
    law_settings_hold_throughout(config, state, systems, moves, i);
    assert(moves[i].1.leads(moves[i].0, systems[i], systems[i + 1]));
    let body = answer.action->body@;
    law_idle_timer_runs_while_pending(sent@.acquired, body, inputs);
    lemma_body_keeps(body, inputs);
}

/// A body keeps its settings, whatever it is told.
proof fn lemma_body_keeps(body: BodyView, inputs: Seq<BodyInput>)
    ensures
        body_after_all(body, inputs).idle_timeout == body.idle_timeout,
        body_after_all(body, inputs).trace == body.trace,
        body_after_all(body, inputs).acquired_at == body.acquired_at,
    decreases inputs.len(),
{
    if inputs.len() > 0 {
        lemma_body_keeps(body, inputs.drop_last());
    }
}

/// A permit waits for exactly the `release_grace` of the configuration after the
/// end of its response, and not at all where that is 0.
pub proof fn law_grace_is_the_configured_one<C, E>(
    config: Config,
    state: AppState,
    systems: Seq<System>,
    moves: Seq<(int, Move<C, E>)>,
    i: int,
    body: BodyView,
    next: BodyView,
    now: Duration,
    step: BodyStep<C, E>,
)
    requires
        call_ensures(AppState::new, (&config,), state),
        is_run(systems, moves),
        systems[0].app == state@,
        0 <= i < moves.len(),
        moves[i].1 == (Move::<C, E>::Poll { body, next, polled: StreamPoll::End, now, step }),
    ensures
        step.frame is End,
        step.delayed is Some <==> config.throttle.release_grace@ > 0,
        step.delayed matches Some(held) ==> held@.grace == config.throttle.release_grace
            && held@.ended_at == now,
{
    law_settings_hold_throughout(config, state, systems, moves, i);
    assert(moves[i].1.leads(moves[i].0, systems[i], systems[i + 1]));
    law_end_releases(systems[i].app, systems[i + 1].app, body, next, now, step);
}

} // verus!
