//! The way of requests through the proxy, with a real semaphore and real header
//! maps. Each test plays the client, upstream and the clock.

use std::sync::Arc;

use axum::http::{HeaderMap, HeaderName, HeaderValue};
use tokio::sync::OwnedSemaphorePermit;
use umans_throttle::body::{FramePoll, PermitBody, StreamPoll};
use umans_throttle::config::{
    Config, ListenAddr, ObservabilityConfig, ServerConfig, ThrottleConfig, UpstreamConfig,
    UsageSampling,
};
use umans_throttle::handler::{
    proxy_handler, HandlerAction, HandlerEvent, HandlerStep, Queued, RequestHead, Sent,
    UpstreamOutcome,
};
use umans_throttle::log::{Level, LogEvent, LogRecord, ReleaseReason};
use umans_throttle::permit::{AcquireOutcome, GraceOutcome};
use umans_throttle::usage::{
    sample_usage_after_429, ConcurrencyLimit, SampleAction, SampleEvent, UsageCounters,
    UsageLimits, UsagePriority, UsageResponse,
};
use umans_throttle::{AppState, Duration};

const BASE: &str = "http://127.0.0.1:9";

fn config_with(
    max_in_flight: usize,
    max_wait: Duration,
    idle_timeout: Duration,
    release_grace: Duration,
    usage_sampling: UsageSampling,
) -> Config {
    Config {
        upstream: UpstreamConfig { base_url: BASE.to_string() },
        server: ServerConfig {
            listen: ListenAddr::V4 { octets: [127, 0, 0, 1], port: 0 },
            shutdown_timeout: Duration::from_secs(30),
        },
        throttle: ThrottleConfig { max_in_flight, max_wait, idle_timeout, release_grace },
        observability: ObservabilityConfig { usage_sampling },
    }
}

fn proxy(max_in_flight: usize, max_wait: Duration, idle_timeout: Duration) -> AppState {
    AppState::new(&config_with(
        max_in_flight,
        max_wait,
        idle_timeout,
        Duration::from_millis(0),
        UsageSampling::Off,
    ))
}

fn at(millis: u64) -> Duration {
    Duration::from_millis(millis)
}

fn headers_of(pairs: &[(&str, &str)]) -> HeaderMap {
    let mut headers = HeaderMap::new();
    for (name, value) in pairs {
        headers.append(
            HeaderName::from_bytes(name.as_bytes()).unwrap(),
            HeaderValue::from_str(value).unwrap(),
        );
    }
    headers
}

/// A request comes in and begins to wait.
fn arrive(state: &mut AppState, path: &str, target: &str, headers: HeaderMap, now: Duration) -> (
    Queued,
    Duration,
    Vec<LogRecord<String>>,
) {
    let step = proxy_handler(
        state,
        HandlerEvent::Received(RequestHead {
            method: "POST".to_string(),
            path: path.to_string(),
            target: Some(target.to_string()),
            headers,
        }),
        now,
    );
    assert!(step.delayed.is_none());
    assert!(step.sample.is_none());
    match step.action {
        HandlerAction::Acquire { queued, max_wait } => (queued, max_wait, step.records),
        _ => panic!("expected a wait for a permit"),
    }
}

fn try_permit(state: &AppState) -> Option<OwnedSemaphorePermit> {
    Arc::clone(state.semaphore()).try_acquire_owned().ok()
}

/// A waiting request gets its permit and is sent to upstream.
fn send(state: &mut AppState, queued: Queued, now: Duration) -> (
    Sent,
    String,
    HeaderMap,
    Vec<LogRecord<String>>,
) {
    let permit = try_permit(state).expect("a free permit");
    let step = proxy_handler(
        state,
        HandlerEvent::Acquired(queued, AcquireOutcome::Granted(permit)),
        now,
    );
    match step.action {
        HandlerAction::Send { sent, url, headers, .. } => (sent, url, headers, step.records),
        _ => panic!("expected a request to upstream"),
    }
}

fn answer(
    state: &mut AppState,
    sent: Sent,
    status: u16,
    headers: HeaderMap,
    now: Duration,
) -> HandlerStep {
    proxy_handler(
        state,
        HandlerEvent::Answered(sent, UpstreamOutcome::Response { status, headers }),
        now,
    )
}

fn streamed(step: HandlerStep) -> PermitBody {
    match step.action {
        HandlerAction::AnswerStream { body, .. } => body,
        _ => panic!("expected a streamed answer"),
    }
}

/// A request that is sent and answered with a stream.
fn open_stream(state: &mut AppState, now: Duration) -> PermitBody {
    let (queued, _, _) = arrive(state, "/", "/", HeaderMap::new(), now);
    let (sent, _, _, _) = send(state, queued, now);
    streamed(answer(state, sent, 200, HeaderMap::new(), now))
}

fn names(records: &[LogRecord<String>]) -> Vec<&'static str> {
    records.iter().map(|record| record.event.name()).collect()
}

#[test]
fn concurrency_limit_enforced() {
    let mut state = proxy(2, Duration::from_secs(5), Duration::from_secs(30));
    let mut waiting = Vec::new();
    for _ in 0..4 {
        let (queued, max_wait, _) = arrive(&mut state, "/", "/", HeaderMap::new(), at(0));
        assert_eq!(max_wait, Duration::from_secs(5));
        waiting.push(queued);
    }
    assert_eq!(state.queued(), 4);

    let mut total = 0;
    let mut in_flight = Vec::new();
    while state.available_permits() > 0 {
        let queued = waiting.remove(0);
        in_flight.push(send(&mut state, queued, at(1)).0);
        total += 1;
    }
    assert_eq!(in_flight.len(), 2);
    assert!(try_permit(&state).is_none());
    assert_eq!(state.active_in_flight(), 2);
    assert_eq!(state.queued(), 2);

    for sent in in_flight {
        let mut body = streamed(answer(&mut state, sent, 200, HeaderMap::new(), at(2)));
        let step = body.poll_frame::<&str, ()>(&mut state, StreamPoll::Chunk("ok"), at(2));
        assert!(matches!(step.frame, FramePoll::Data("ok")));
        let step = body.poll_frame::<&str, ()>(&mut state, StreamPoll::End, at(3));
        assert!(matches!(step.frame, FramePoll::End));
    }
    assert_eq!(state.available_permits(), 2);

    for queued in waiting {
        let (sent, _, _, _) = send(&mut state, queued, at(4));
        total += 1;
        let mut body = streamed(answer(&mut state, sent, 200, HeaderMap::new(), at(5)));
        body.poll_frame::<&str, ()>(&mut state, StreamPoll::End, at(6));
        assert!(!body.holds_permit());
    }
    assert_eq!(total, 4);
    assert_eq!(state.available_permits(), 2);
    assert_eq!(state.active_in_flight(), 0);
    assert_eq!(state.queued(), 0);
}

#[test]
fn queue_timeout_returns_503_with_retry_after() {
    let mut state = proxy(1, Duration::from_millis(100), Duration::from_secs(30));
    let (first, _, _) = arrive(&mut state, "/", "/", HeaderMap::new(), at(0));
    let (_hold, _, _, _) = send(&mut state, first, at(0));

    let (queued, max_wait, _) = arrive(&mut state, "/", "/", HeaderMap::new(), at(100));
    assert_eq!(max_wait, Duration::from_millis(100));
    assert!(try_permit(&state).is_none());
    let step = proxy_handler(
        &mut state,
        HandlerEvent::Acquired(queued, AcquireOutcome::TimedOut),
        at(200),
    );
    match step.action {
        HandlerAction::Answer(reply) => {
            assert_eq!(reply.status, 503);
            assert_eq!(reply.retry_after, Some(b"1".to_vec()));
            assert_eq!(reply.body, "throttle: queue timeout\n");
        }
        _ => panic!("expected an answer"),
    }
    assert_eq!(state.queued(), 0);
    assert_eq!(state.active_in_flight(), 1);
}

#[test]
fn permit_released_on_completion() {
    let mut state = proxy(1, Duration::from_secs(5), Duration::from_secs(30));
    let mut body = open_stream(&mut state, at(0));
    assert_eq!(state.available_permits(), 0);
    let step = body.poll_frame::<&str, ()>(&mut state, StreamPoll::End, at(1));
    assert!(matches!(step.frame, FramePoll::End));
    assert!(step.delayed.is_none());
    assert_eq!(state.available_permits(), 1);

    // The second request goes through at once.
    let mut body = open_stream(&mut state, at(1));
    body.poll_frame::<&str, ()>(&mut state, StreamPoll::End, at(2));
    assert_eq!(state.available_permits(), 1);
}

#[test]
fn permit_released_on_client_disconnect() {
    let mut state = proxy(1, Duration::from_secs(2), Duration::from_secs(30));
    let mut body = open_stream(&mut state, at(0));
    let step = body.poll_frame::<&str, ()>(
        &mut state,
        StreamPoll::Chunk("data: streaming\n\n"),
        at(50),
    );
    assert!(matches!(step.frame, FramePoll::Data("data: streaming\n\n")));
    assert!(body.holds_permit());
    assert_eq!(state.available_permits(), 0);

    let release = body.close(&mut state, at(150)).expect("a release");
    match release.record.event {
        LogEvent::PermitReleased { reason, held_ms, .. } => {
            assert_eq!(reason.as_str(), "client_drop");
            assert_eq!(held_ms, 150);
        }
        _ => panic!("expected a release"),
    }
    assert_eq!(state.available_permits(), 1);
    assert!(body.close(&mut state, at(151)).is_none());
    open_stream(&mut state, at(500));
}

#[test]
fn header_and_path_passthrough() {
    let mut state = proxy(2, Duration::from_secs(5), Duration::from_secs(30));
    let headers = headers_of(&[
        ("x-api-key", "sk-test-key"),
        ("x-custom", "keep-me"),
        ("Connection", "keep-alive"),
        ("connection", "close"),
        ("Transfer-Encoding", "chunked"),
        ("host", "localhost"),
        ("content-length", "5"),
    ]);
    let (queued, _, _) =
        arrive(&mut state, "/v1/messages", "/v1/messages?foo=bar", headers, at(0));
    let (sent, url, forwarded, _) = send(&mut state, queued, at(0));
    assert_eq!(url, "http://127.0.0.1:9/v1/messages?foo=bar");
    assert_eq!(forwarded.get("x-api-key").unwrap(), "sk-test-key");
    assert!(!forwarded.contains_key("connection"));
    assert!(!forwarded.contains_key("transfer-encoding"));
    assert!(!forwarded.contains_key("host"));
    assert!(!forwarded.contains_key("content-length"));
    assert_eq!(forwarded.get("x-custom").unwrap(), "keep-me");
    assert_eq!(forwarded.len(), 2);

    let step = answer(
        &mut state,
        sent,
        200,
        headers_of(&[("content-length", "32"), ("upgrade", "h2c"), ("x-up", "1")]),
        at(1),
    );
    match step.action {
        HandlerAction::AnswerStream { status, headers, .. } => {
            assert_eq!(status, 200);
            assert_eq!(headers.get("content-length").unwrap(), "32");
            assert_eq!(headers.get("x-up").unwrap(), "1");
            assert_eq!(headers.len(), 2);
        }
        _ => panic!("expected a streamed answer"),
    }
}

#[test]
fn request_without_a_target_asks_for_the_root() {
    let mut state = proxy(1, Duration::from_secs(5), Duration::from_secs(30));
    let step = proxy_handler(
        &mut state,
        HandlerEvent::Received(RequestHead {
            method: "GET".to_string(),
            path: "/".to_string(),
            target: None,
            headers: HeaderMap::new(),
        }),
        at(0),
    );
    let queued = match step.action {
        HandlerAction::Acquire { queued, .. } => queued,
        _ => panic!("expected a wait for a permit"),
    };
    let permit = try_permit(&state).unwrap();
    let step = proxy_handler(
        &mut state,
        HandlerEvent::Acquired(queued, AcquireOutcome::Granted(permit)),
        at(0),
    );
    match step.action {
        HandlerAction::Send { method, url, .. } => {
            assert_eq!(method, "GET");
            assert_eq!(url, "http://127.0.0.1:9/");
        }
        _ => panic!("expected a request to upstream"),
    }
}

#[test]
fn streaming_sse_passthrough() {
    let mut state = proxy(1, Duration::from_secs(5), Duration::from_secs(30));
    let mut body = open_stream(&mut state, at(0));
    let mut received = String::new();
    let mut now = 0;
    for chunk in ["data: one\n\n", "data: two\n\n", "data: three\n\n"] {
        let step = body.poll_frame::<&str, ()>(&mut state, StreamPoll::Chunk(chunk), at(now));
        match step.frame {
            FramePoll::Data(data) => received.push_str(data),
            _ => panic!("expected data"),
        }
        let step = body.poll_frame::<&str, ()>(&mut state, StreamPoll::Pending, at(now));
        assert!(matches!(step.frame, FramePoll::PollTimer { .. }));
        let step = body.poll_idle_timer::<&str, ()>(&mut state, false, at(now));
        assert!(matches!(step.frame, FramePoll::Pending));
        now += 50;
    }
    let step = body.poll_frame::<&str, ()>(&mut state, StreamPoll::End, at(now));
    assert!(matches!(step.frame, FramePoll::End));
    assert_eq!(received, "data: one\n\ndata: two\n\ndata: three\n\n");
}

#[test]
fn idle_timeout_aborts_hung_stream_and_releases_permit() {
    let mut state = proxy(1, Duration::from_secs(5), Duration::from_millis(300));
    let mut body = open_stream(&mut state, at(0));
    let step = body.poll_frame::<&str, ()>(
        &mut state,
        StreamPoll::Chunk("data: streaming\n\n"),
        at(20),
    );
    assert!(matches!(step.frame, FramePoll::Data(_)));

    // The timer is made and armed when the stream goes pending, and only once.
    let step = body.poll_frame::<&str, ()>(&mut state, StreamPoll::Pending, at(20));
    match step.frame {
        FramePoll::PollTimer { make, arm, idle_timeout } => {
            assert!(make);
            assert!(arm);
            assert_eq!(idle_timeout, Duration::from_millis(300));
        }
        _ => panic!("expected a look at the timer"),
    }
    let step = body.poll_frame::<&str, ()>(&mut state, StreamPoll::Pending, at(100));
    assert!(matches!(step.frame, FramePoll::PollTimer { make: false, arm: false, .. }));
    let step = body.poll_idle_timer::<&str, ()>(&mut state, false, at(100));
    assert!(matches!(step.frame, FramePoll::Pending));
    assert_eq!(state.available_permits(), 0);

    let step = body.poll_idle_timer::<&str, ()>(&mut state, true, at(320));
    assert!(matches!(step.frame, FramePoll::End));
    assert_eq!(names(&step.records), vec!["stream_idle_timeout", "permit_released"]);
    match &step.records[0].event {
        LogEvent::StreamIdleTimeout { idle_timeout_ms, snapshot } => {
            assert_eq!(*idle_timeout_ms, 300);
            assert_eq!(snapshot.held_permits, 1);
            assert_eq!(snapshot.active_in_flight, 1);
        }
        _ => panic!("expected an idle timeout"),
    }
    assert_eq!(state.available_permits(), 1);
    assert!(body.close(&mut state, at(321)).is_none());
    open_stream(&mut state, at(322));
}

#[test]
fn data_rearms_the_idle_timer_without_making_another() {
    let mut state = proxy(1, Duration::from_secs(5), Duration::from_millis(300));
    let mut body = open_stream(&mut state, at(0));
    let step = body.poll_frame::<u8, ()>(&mut state, StreamPoll::Pending, at(0));
    assert!(matches!(step.frame, FramePoll::PollTimer { make: true, arm: true, .. }));
    body.poll_frame::<u8, ()>(&mut state, StreamPoll::Chunk(7), at(1));
    let step = body.poll_frame::<u8, ()>(&mut state, StreamPoll::Pending, at(2));
    assert!(matches!(step.frame, FramePoll::PollTimer { make: false, arm: true, .. }));
}

#[test]
fn stream_error_is_handed_on_and_releases_permit() {
    let mut state = proxy(1, Duration::from_secs(5), Duration::from_secs(30));
    let mut body = open_stream(&mut state, at(0));
    let polled = StreamPoll::Failed("reset", "connection reset".to_string());
    let step = body.poll_frame::<&str, &str>(&mut state, polled, at(5));
    assert!(matches!(step.frame, FramePoll::Failed("reset")));
    assert_eq!(names(&step.records), vec!["upstream_stream_error", "permit_released"]);
    assert!(matches!(
        step.records[1].event,
        LogEvent::PermitReleased { reason: ReleaseReason::StreamError, .. }
    ));
    match &step.records[0].event {
        LogEvent::UpstreamStreamError { error } => assert_eq!(error, "connection reset"),
        _ => panic!("expected a stream error"),
    }
    assert_eq!(state.available_permits(), 1);
}

#[test]
fn upstream_error_status_passthrough() {
    let mut state = proxy(1, Duration::from_secs(5), Duration::from_secs(30));
    let (queued, _, _) = arrive(&mut state, "/", "/", HeaderMap::new(), at(0));
    let (sent, _, _, _) = send(&mut state, queued, at(0));
    let step = answer(&mut state, sent, 502, headers_of(&[("content-length", "0")]), at(1));
    match step.action {
        HandlerAction::AnswerEmpty { status, headers } => {
            assert_eq!(status, 502);
            assert_eq!(headers.get("content-length").unwrap(), "0");
        }
        _ => panic!("expected an empty answer"),
    }
    assert_eq!(state.available_permits(), 1);
}

#[test]
fn unreachable_upstream_is_answered_with_502() {
    let mut state = proxy(1, Duration::from_secs(5), Duration::from_secs(30));
    let (queued, _, _) = arrive(&mut state, "/", "/", HeaderMap::new(), at(0));
    let (sent, _, _, _) = send(&mut state, queued, at(10));
    let outcome = UpstreamOutcome::Failed { error: "connection refused".to_string() };
    let step = proxy_handler(&mut state, HandlerEvent::Answered(sent, outcome), at(35));
    assert_eq!(names(&step.records), vec!["upstream_send_error", "permit_released"]);
    match &step.records[0].event {
        LogEvent::UpstreamSendError { upstream_send_ms, error } => {
            assert_eq!(*upstream_send_ms, 25);
            assert_eq!(error, "connection refused");
        }
        _ => panic!("expected a send error"),
    }
    match step.action {
        HandlerAction::Answer(reply) => {
            assert_eq!(reply.status, 502);
            assert_eq!(reply.retry_after, None);
            assert_eq!(reply.body, "throttle: upstream error\n");
        }
        _ => panic!("expected an answer"),
    }
    assert_eq!(state.available_permits(), 1);
    assert_eq!(state.active_in_flight(), 0);
}

#[test]
fn path_without_an_upstream_url_is_answered_with_502() {
    let mut config = config_with(
        1,
        Duration::from_secs(5),
        Duration::from_secs(30),
        Duration::from_millis(0),
        UsageSampling::Off,
    );
    config.upstream.base_url = "mailto:a@example.org".to_string();
    let mut state = AppState::new(&config);
    let (queued, _, _) = arrive(&mut state, "/x", "/x?y=1", HeaderMap::new(), at(0));
    let permit = try_permit(&state).unwrap();
    let step = proxy_handler(
        &mut state,
        HandlerEvent::Acquired(queued, AcquireOutcome::Granted(permit)),
        at(0),
    );
    assert_eq!(names(&step.records), vec!["permit_acquired", "permit_released"]);
    assert!(matches!(
        step.records[1].event,
        LogEvent::PermitReleased { reason: ReleaseReason::InvalidUpstreamPath, .. }
    ));
    let fault = step.fault.expect("a fault");
    assert_eq!(fault.target, "/x?y=1");
    assert_eq!(fault.error, "relative URL with a cannot-be-a-base base");
    match step.action {
        HandlerAction::Answer(reply) => assert_eq!(reply.status, 502),
        _ => panic!("expected an answer"),
    }
    assert_eq!(state.available_permits(), 1);
}

#[test]
fn closed_semaphore_is_answered_with_503() {
    let mut state = proxy(1, Duration::from_secs(300), Duration::from_secs(30));
    let (queued, _, _) = arrive(&mut state, "/", "/", HeaderMap::new(), at(0));
    state.semaphore().close();
    let step = proxy_handler(
        &mut state,
        HandlerEvent::Acquired(queued, AcquireOutcome::Closed),
        at(3),
    );
    assert_eq!(names(&step.records), vec!["semaphore_closed"]);
    match step.action {
        HandlerAction::Answer(reply) => {
            assert_eq!(reply.status, 503);
            assert_eq!(reply.retry_after, Some(b"300".to_vec()));
        }
        _ => panic!("expected an answer"),
    }
}

#[test]
fn emits_minimal_raw_events_for_upstream_429() {
    let mut state = proxy(1, Duration::from_secs(5), Duration::from_secs(30));
    let (queued, _, mut records) =
        arrive(&mut state, "/v1/messages", "/v1/messages", HeaderMap::new(), at(0));
    let (sent, _, _, more) = send(&mut state, queued, at(0));
    records.extend(more);
    let step = answer(&mut state, sent, 429, headers_of(&[("content-length", "0")]), at(1));
    match step.action {
        HandlerAction::AnswerEmpty { status, .. } => assert_eq!(status, 429),
        _ => panic!("expected an empty answer"),
    }
    assert!(step.sample.is_none());
    records.extend(step.records);

    assert_eq!(
        names(&records),
        vec!["request_received", "permit_acquired", "upstream_headers", "permit_released"]
    );
    assert!(records.iter().all(|record| record.path == "/v1/messages" && record.request_id == 1));
    assert_eq!(records[0].level, Level::Info);
    assert_eq!(records[1].level, Level::Info);
    assert_eq!(records[2].level, Level::Warn);
    assert_eq!(records[3].level, Level::Info);
    match &records[0].event {
        LogEvent::RequestReceived { method, snapshot } => {
            assert_eq!(method, "POST");
            assert_eq!(snapshot.available_permits, 1);
            assert_eq!(snapshot.held_permits, 0);
            assert_eq!(snapshot.queued, 0);
        }
        _ => panic!("expected a receipt"),
    }
    match &records[2].event {
        LogEvent::UpstreamHeaders { status, .. } => assert_eq!(*status, 429),
        _ => panic!("expected headers"),
    }
    match &records[3].event {
        LogEvent::PermitReleased { reason, .. } => assert_eq!(reason.as_str(), "complete"),
        _ => panic!("expected a release"),
    }
}

#[test]
fn other_paths_are_logged_for_debugging_only() {
    let mut state = proxy(1, Duration::from_secs(5), Duration::from_secs(30));
    let (queued, _, records) = arrive(&mut state, "/v1/models", "/v1/models", HeaderMap::new(), at(0));
    assert_eq!(records[0].level, Level::Debug);
    let (sent, _, _, records) = send(&mut state, queued, at(0));
    assert_eq!(records[0].level, Level::Debug);
    let step = answer(&mut state, sent, 204, HeaderMap::new(), at(0));
    assert_eq!(step.records[0].level, Level::Debug);
    assert_eq!(step.records[1].level, Level::Debug);
}

#[test]
fn emits_queue_timeout_event_without_upstream_request() {
    let mut state = proxy(1, Duration::from_millis(100), Duration::from_secs(30));
    let (first, _, _) =
        arrive(&mut state, "/v1/messages", "/v1/messages", HeaderMap::new(), at(0));
    let (_hold, _, _, _) = send(&mut state, first, at(0));
    let (queued, _, _) =
        arrive(&mut state, "/v1/messages", "/v1/messages", HeaderMap::new(), at(100));
    let step = proxy_handler(
        &mut state,
        HandlerEvent::Acquired(queued, AcquireOutcome::TimedOut),
        at(201),
    );
    assert!(matches!(step.action, HandlerAction::Answer(_)));
    assert_eq!(names(&step.records), vec!["queue_timeout"]);
    match &step.records[0].event {
        LogEvent::QueueTimeout { wait_ms, snapshot } => {
            assert_eq!(*wait_ms, 101);
            assert_eq!(snapshot.held_permits, 1);
            assert_eq!(snapshot.active_in_flight, 1);
            assert_eq!(snapshot.queued, 0);
        }
        _ => panic!("expected a queue timeout"),
    }
}

#[test]
fn release_grace_delays_next_upstream_request_without_delaying_response_body() {
    let mut state = AppState::new(&config_with(
        1,
        Duration::from_secs(5),
        Duration::from_secs(30),
        Duration::from_millis(250),
        UsageSampling::Off,
    ));
    let mut body = open_stream(&mut state, at(0));
    let step = body.poll_frame::<&str, ()>(&mut state, StreamPoll::End, at(10));
    // The client has its whole response, and the permit is still out.
    assert!(matches!(step.frame, FramePoll::End));
    let delayed = step.delayed.expect("a permit that waits");
    assert_eq!(delayed.grace(), Duration::from_millis(250));
    assert_eq!(delayed.remaining(at(10)), Duration::from_millis(250));
    assert_eq!(delayed.remaining(at(100)), Duration::from_millis(160));
    assert_eq!(delayed.remaining(at(900)), Duration::from_millis(0));
    assert_eq!(state.available_permits(), 0);
    assert_eq!(state.grace_pending(), 1);
    assert!(try_permit(&state).is_none());

    // A look before the grace is over changes nothing.
    let delayed = match delayed.finish(&mut state, at(259)) {
        GraceOutcome::Waiting(delayed) => delayed,
        GraceOutcome::Over(_) => panic!("expected a permit that waits"),
    };
    assert_eq!(state.available_permits(), 0);
    assert_eq!(state.grace_pending(), 1);
    assert!(matches!(delayed.finish(&mut state, at(260)), GraceOutcome::Over(_)));
    assert_eq!(state.available_permits(), 1);
    assert_eq!(state.grace_pending(), 0);
    open_stream(&mut state, at(260));
}

#[test]
fn release_grace_emits_scheduled_and_released_events() {
    let mut state = AppState::new(&config_with(
        1,
        Duration::from_secs(5),
        Duration::from_secs(30),
        Duration::from_millis(150),
        UsageSampling::Off,
    ));
    let (queued, _, _) =
        arrive(&mut state, "/v1/messages", "/v1/messages", HeaderMap::new(), at(0));
    let (sent, _, _, _) = send(&mut state, queued, at(0));
    let mut body = streamed(answer(&mut state, sent, 200, HeaderMap::new(), at(0)));
    let step = body.poll_frame::<&str, ()>(&mut state, StreamPoll::End, at(7));
    assert_eq!(names(&step.records), vec!["permit_release_scheduled"]);
    match &step.records[0].event {
        LogEvent::PermitReleaseScheduled {
            reason,
            held_ms,
            release_grace_ms,
            available_permits,
            held_permits,
            active_in_flight_after,
            grace_pending_after,
            queued,
        } => {
            assert_eq!(reason.as_str(), "complete");
            assert_eq!(*held_ms, 7);
            assert_eq!(*release_grace_ms, 150);
            assert_eq!(*available_permits, 0);
            assert_eq!(*held_permits, 1);
            assert_eq!(*active_in_flight_after, 0);
            assert_eq!(*grace_pending_after, 1);
            assert_eq!(*queued, 0);
        }
        _ => panic!("expected a scheduled release"),
    }
    let line = match step.delayed.expect("a permit that waits").finish(&mut state, at(157)) {
        GraceOutcome::Over(line) => line,
        GraceOutcome::Waiting(_) => panic!("expected a release"),
    };
    assert_eq!(line.event.reason(), Some("complete"));
    assert_eq!(line.event.trigger(), None);
    assert_eq!(line.event.name(), "permit_released");
    match line.event {
        LogEvent::PermitReleased { reason, held_ms, release_grace_ms, after } => {
            assert_eq!(reason, ReleaseReason::Complete);
            assert_eq!(held_ms, 157);
            assert_eq!(release_grace_ms, 150);
            assert_eq!(after.grace_pending, 0);
            assert_eq!(after.held_permits, 0);
        }
        _ => panic!("expected a release"),
    }
}

#[test]
fn upstream_429_triggers_remote_usage_sample_event() {
    let mut state = AppState::new(&config_with(
        1,
        Duration::from_secs(5),
        Duration::from_secs(30),
        Duration::from_millis(0),
        UsageSampling::On429,
    ));
    let (queued, _, mut records) = arrive(
        &mut state,
        "/v1/messages",
        "/v1/messages",
        headers_of(&[("authorization", "Bearer sk-secret-for-test")]),
        at(0),
    );
    let (sent, _, _, more) = send(&mut state, queued, at(0));
    records.extend(more);
    let mut step = answer(
        &mut state,
        sent,
        429,
        headers_of(&[("retry-after", "1"), ("x-request-id", "upstream-test-id")]),
        at(1),
    );
    records.append(&mut step.records);
    let request = step.sample.take().expect("a sample");
    let mut body = match step.action {
        HandlerAction::AnswerStream { status, body, .. } => {
            assert_eq!(status, 429);
            body
        }
        _ => panic!("expected a streamed answer"),
    };
    records.extend(body.poll_frame::<&str, ()>(&mut state, StreamPoll::End, at(2)).records);

    let sample = match sample_usage_after_429(&state, SampleEvent::Begin(request), at(3)) {
        SampleAction::Fetch { sample, url, auth } => {
            assert_eq!(url, "http://127.0.0.1:9/v1/usage");
            assert_eq!(auth.authorization, Some(b"Bearer sk-secret-for-test".to_vec()));
            assert_eq!(auth.x_api_key, None);
            sample
        }
        _ => panic!("expected a request"),
    };
    let sample = match sample_usage_after_429(&state, SampleEvent::Answered(sample, 200), at(4)) {
        SampleAction::Decode(sample) => sample,
        _ => panic!("expected a look at the answer"),
    };
    let usage = UsageResponse {
        limits: Some(UsageLimits {
            concurrency: Some(ConcurrencyLimit { limit: Some(4), hard_cap: Some(8) }),
        }),
        usage: Some(UsageCounters {
            concurrent_sessions: Some(7),
            priority: Some(UsagePriority { low: Some(true) }),
        }),
    };
    match sample_usage_after_429(&state, SampleEvent::Decoded(sample, Ok(usage)), at(8)) {
        SampleAction::Done(line) => records.push(line),
        _ => panic!("expected the end of the sample"),
    }

    let upstream = records.iter().find(|record| record.event.name() == "upstream_headers").unwrap();
    match &upstream.event {
        LogEvent::UpstreamHeaders { upstream_request_id, retry_after, .. } => {
            assert_eq!(upstream_request_id, "upstream-test-id");
            assert_eq!(retry_after, "1");
        }
        _ => panic!("expected headers"),
    }
    let sampled = records.last().unwrap();
    assert_eq!(sampled.event.name(), "remote_usage_sample");
    assert_eq!(sampled.level, Level::Info);
    match sampled.event {
        LogEvent::RemoteUsageSample {
            sample_ms,
            remote_concurrent_sessions,
            remote_concurrency_limit,
            remote_concurrency_hard_cap,
            remote_priority_low,
            ..
        } => {
            assert_eq!(sample_ms, 5);
            assert_eq!(remote_concurrent_sessions, Some(7));
            assert_eq!(remote_concurrency_limit, Some(4));
            assert_eq!(remote_concurrency_hard_cap, Some(8));
            assert_eq!(remote_priority_low, Some(true));
        }
        _ => panic!("expected a sample"),
    }
    let output = format!("{records:?}");
    assert!(!output.contains("sk-secret-for-test"), "{output}");
}

#[test]
fn sample_without_credentials_is_skipped() {
    let mut state = AppState::new(&config_with(
        1,
        Duration::from_secs(5),
        Duration::from_secs(30),
        Duration::from_millis(0),
        UsageSampling::On429,
    ));
    let (queued, _, _) = arrive(&mut state, "/", "/", HeaderMap::new(), at(0));
    let (sent, _, _, _) = send(&mut state, queued, at(0));
    let step = answer(&mut state, sent, 429, headers_of(&[("content-length", "0")]), at(1));
    assert!(step.sample.is_none());
    assert_eq!(
        names(&step.records),
        vec!["upstream_headers", "remote_usage_sample_skipped", "permit_released"]
    );
}

#[test]
fn request_ids_count_up_from_one() {
    let mut state = proxy(1, Duration::from_secs(5), Duration::from_secs(30));
    for expected in 1..5u64 {
        let (_, _, records) = arrive(&mut state, "/", "/", HeaderMap::new(), at(0));
        assert_eq!(records[0].request_id, expected);
    }
}

#[test]
fn counters_return_to_zero_on_every_path() {
    let mut state = proxy(3, Duration::from_secs(5), Duration::from_secs(30));
    // Completed, failed and abandoned responses, an unreachable upstream, and a
    // request that waited too long.
    let mut completed = open_stream(&mut state, at(0));
    let mut failed = open_stream(&mut state, at(0));
    let mut abandoned = open_stream(&mut state, at(0));
    assert_eq!(state.available_permits(), 0);
    let (late, _, _) = arrive(&mut state, "/", "/", HeaderMap::new(), at(0));
    proxy_handler(&mut state, HandlerEvent::Acquired(late, AcquireOutcome::TimedOut), at(9));
    completed.poll_frame::<u8, ()>(&mut state, StreamPoll::End, at(9));
    failed.poll_frame::<u8, ()>(&mut state, StreamPoll::Failed((), String::new()), at(9));
    abandoned.close(&mut state, at(9));
    for mut body in [completed, failed, abandoned] {
        assert!(body.close(&mut state, at(10)).is_none());
    }
    let (queued, _, _) = arrive(&mut state, "/", "/", HeaderMap::new(), at(10));
    let (sent, _, _, _) = send(&mut state, queued, at(10));
    let outcome = UpstreamOutcome::Failed { error: String::new() };
    proxy_handler(&mut state, HandlerEvent::Answered(sent, outcome), at(11));
    assert_eq!(state.available_permits(), 3);
    assert_eq!(state.max_in_flight(), 3);
    let snapshot = state.snapshot();
    assert_eq!(snapshot.held_permits, 0);
    assert_eq!(snapshot.active_in_flight, 0);
    assert_eq!(snapshot.grace_pending, 0);
    assert_eq!(snapshot.queued, 0);
}

#[test]
fn dropped_requests_give_their_permits_back() {
    let mut state = proxy(1, Duration::from_secs(5), Duration::from_secs(30));
    let (waiting, _, _) = arrive(&mut state, "/", "/", HeaderMap::new(), at(0));
    drop(waiting);
    let (queued, _, _) = arrive(&mut state, "/", "/", HeaderMap::new(), at(0));
    let (sent, _, _, _) = send(&mut state, queued, at(0));
    assert_eq!(state.available_permits(), 0);
    drop(sent);
    assert_eq!(state.available_permits(), 1);
    // Both are still counted.
    assert_eq!(state.queued(), 1);
    assert_eq!(state.active_in_flight(), 1);
}

#[test]
fn credentials_reach_no_other_host() {
    let mut state = proxy(1, Duration::from_secs(5), Duration::from_secs(30));
    let headers = headers_of(&[("authorization", "Bearer k"), ("x-api-key", "k")]);
    let target = "//evil.example/x";
    let (queued, _, _) = arrive(&mut state, target, target, headers, at(0));
    let (_, url, forwarded, _) = send(&mut state, queued, at(0));
    assert_eq!(url, "http://127.0.0.1:9//evil.example/x");
    assert_eq!(forwarded.len(), 2);
}

#[test]
fn snapshots_add_up() {
    let mut state = AppState::new(&config_with(
        3,
        Duration::from_secs(5),
        Duration::from_secs(30),
        Duration::from_millis(250),
        UsageSampling::Off,
    ));
    let _open = open_stream(&mut state, at(0));
    let mut ended = open_stream(&mut state, at(0));
    let step = ended.poll_frame::<u8, ()>(&mut state, StreamPoll::End, at(1));
    let snapshot = state.snapshot();
    assert!(step.delayed.is_some());
    assert_eq!(snapshot.available_permits, 1);
    assert_eq!(snapshot.held_permits, 2);
    assert_eq!(snapshot.active_in_flight, 1);
    assert_eq!(snapshot.grace_pending, 1);
}
