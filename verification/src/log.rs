//! What is logged: which event, at which level, with which fields.
//!
//! A record over `String` is what the program hands to its logger; the same
//! record over `Seq<char>` is its view.

use axum::http::HeaderMap;
use vstd::prelude::*;

use crate::duration::Duration;
#[allow(unused_imports)]
use crate::duration::{millis_low_bits, saturating_difference};
#[allow(unused_imports)]
use crate::headers::{header_entries, shown_request_id, shown_retry_after};
use crate::headers::{retry_after, upstream_request_id};
use crate::state::{AppState, TrafficSnapshot};
use crate::text::same_text;
use crate::usage::UsageResponse;

verus! {

/// How much an event matters.
#[derive(Debug, Clone, Copy, PartialEq, Eq, Structural)]
pub enum Level {
    Debug,
    Info,
    Warn,
}

/// Why a permit is released.
#[derive(Debug, Clone, Copy, PartialEq, Eq, Structural)]
pub enum ReleaseReason {
    /// The response was handed on to its end.
    Complete,
    /// The upstream stream broke off.
    StreamError,
    /// Upstream stayed silent for too long.
    IdleTimeout,
    /// The client went away.
    ClientDrop,
    /// The requested path gives no upstream URL.
    InvalidUpstreamPath,
    /// Upstream could not be reached.
    UpstreamSendError,
}

impl ReleaseReason {
    /// The reason as it is logged.
    pub open spec fn text(self) -> Seq<char> {
        match self {
            ReleaseReason::Complete => "complete"@,
            ReleaseReason::StreamError => "stream_error"@,
            ReleaseReason::IdleTimeout => "idle_timeout"@,
            ReleaseReason::ClientDrop => "client_drop"@,
            ReleaseReason::InvalidUpstreamPath => "invalid_upstream_path"@,
            ReleaseReason::UpstreamSendError => "upstream_send_error"@,
        }
    }

    /// The reason as it is logged.
    pub fn as_str(&self) -> (text: &'static str)
        ensures
            text@ == self.text(),
    {
        match self {
            ReleaseReason::Complete => "complete",
            ReleaseReason::StreamError => "stream_error",
            ReleaseReason::IdleTimeout => "idle_timeout",
            ReleaseReason::ClientDrop => "client_drop",
            ReleaseReason::InvalidUpstreamPath => "invalid_upstream_path",
            ReleaseReason::UpstreamSendError => "upstream_send_error",
        }
    }
}

/// Why a usage sample came to nothing.
#[derive(Debug, Clone, Copy, PartialEq, Eq, Structural)]
pub enum SampleFailure {
    /// The base URL gives no usage URL.
    InvalidUsageUrl,
    /// The usage endpoint could not be reached.
    SendFailed,
    /// The answer is no usage report.
    DecodeFailed,
}

impl SampleFailure {
    /// The failure as it is logged.
    pub open spec fn text(self) -> Seq<char> {
        match self {
            SampleFailure::InvalidUsageUrl => "invalid_usage_url"@,
            SampleFailure::SendFailed => "send_failed"@,
            SampleFailure::DecodeFailed => "decode_failed"@,
        }
    }

    /// The failure as it is logged.
    pub fn as_str(&self) -> (text: &'static str)
        ensures
            text@ == self.text(),
    {
        match self {
            SampleFailure::InvalidUsageUrl => "invalid_usage_url",
            SampleFailure::SendFailed => "send_failed",
            SampleFailure::DecodeFailed => "decode_failed",
        }
    }
}

/// An event and the fields of its own.
#[derive(Debug)]
pub enum LogEvent<T> {
    RequestReceived { method: T, snapshot: TrafficSnapshot },
    PermitAcquired { queue_wait_ms: u64, snapshot: TrafficSnapshot },
    QueueTimeout { wait_ms: u64, snapshot: TrafficSnapshot },
    SemaphoreClosed { snapshot: TrafficSnapshot },
    UpstreamHeaders {
        status: u16,
        upstream_header_ms: u64,
        snapshot: TrafficSnapshot,
        retry_after: T,
        upstream_request_id: T,
    },
    UpstreamSendError { upstream_send_ms: u64, error: T },
    UpstreamStreamError { error: T },
    StreamIdleTimeout { idle_timeout_ms: u64, snapshot: TrafficSnapshot },
    PermitReleaseScheduled {
        reason: ReleaseReason,
        held_ms: u64,
        release_grace_ms: u64,
        available_permits: usize,
        held_permits: usize,
        active_in_flight_after: usize,
        grace_pending_after: usize,
        queued: usize,
    },
    PermitReleased {
        reason: ReleaseReason,
        held_ms: u64,
        release_grace_ms: u64,
        after: TrafficSnapshot,
    },
    /// Upstream answered 429, and the request carried no credential.
    RemoteUsageSampleSkipped { snapshot: TrafficSnapshot },
    /// The usage endpoint answered with something other than success.
    RemoteUsageSampleRefused { status: u16, sample_ms: u64, snapshot: TrafficSnapshot },
    RemoteUsageSampleFailed {
        failure: SampleFailure,
        sample_ms: u64,
        snapshot: TrafficSnapshot,
        error: T,
    },
    RemoteUsageSample {
        sample_ms: u64,
        snapshot: TrafficSnapshot,
        remote_concurrent_sessions: Option<u64>,
        remote_concurrency_limit: Option<u64>,
        remote_concurrency_hard_cap: Option<u64>,
        remote_priority_low: Option<bool>,
    },
}

/// One line of the log: an event of one request.
#[derive(Debug)]
pub struct LogRecord<T> {
    pub level: Level,
    pub request_id: u64,
    pub path: T,
    pub event: LogEvent<T>,
}

impl View for LogEvent<String> {
    type V = LogEvent<Seq<char>>;

    open spec fn view(&self) -> LogEvent<Seq<char>> {
        match *self {
            LogEvent::RequestReceived { method, snapshot } => LogEvent::RequestReceived {
                method: method@,
                snapshot,
            },
            LogEvent::PermitAcquired { queue_wait_ms, snapshot } => LogEvent::PermitAcquired {
                queue_wait_ms,
                snapshot,
            },
            LogEvent::QueueTimeout { wait_ms, snapshot } => LogEvent::QueueTimeout {
                wait_ms,
                snapshot,
            },
            LogEvent::SemaphoreClosed { snapshot } => LogEvent::SemaphoreClosed { snapshot },
            LogEvent::UpstreamHeaders {
                status,
                upstream_header_ms,
                snapshot,
                retry_after,
                upstream_request_id,
            } => LogEvent::UpstreamHeaders {
                status,
                upstream_header_ms,
                snapshot,
                retry_after: retry_after@,
                upstream_request_id: upstream_request_id@,
            },
            LogEvent::UpstreamSendError { upstream_send_ms, error } => {
                LogEvent::UpstreamSendError { upstream_send_ms, error: error@ }
            },
            LogEvent::UpstreamStreamError { error } => LogEvent::UpstreamStreamError {
                error: error@,
            },
            LogEvent::StreamIdleTimeout { idle_timeout_ms, snapshot } => {
                LogEvent::StreamIdleTimeout { idle_timeout_ms, snapshot }
            },
            LogEvent::PermitReleaseScheduled {
                reason,
                held_ms,
                release_grace_ms,
                available_permits,
                held_permits,
                active_in_flight_after,
                grace_pending_after,
                queued,
            } => LogEvent::PermitReleaseScheduled {
                reason,
                held_ms,
                release_grace_ms,
                available_permits,
                held_permits,
                active_in_flight_after,
                grace_pending_after,
                queued,
            },
            LogEvent::PermitReleased { reason, held_ms, release_grace_ms, after } => {
                LogEvent::PermitReleased { reason, held_ms, release_grace_ms, after }
            },
            LogEvent::RemoteUsageSampleSkipped { snapshot } => {
                LogEvent::RemoteUsageSampleSkipped { snapshot }
            },
            LogEvent::RemoteUsageSampleRefused { status, sample_ms, snapshot } => {
                LogEvent::RemoteUsageSampleRefused { status, sample_ms, snapshot }
            },
            LogEvent::RemoteUsageSampleFailed { failure, sample_ms, snapshot, error } => {
                LogEvent::RemoteUsageSampleFailed { failure, sample_ms, snapshot, error: error@ }
            },
            LogEvent::RemoteUsageSample {
                sample_ms,
                snapshot,
                remote_concurrent_sessions,
                remote_concurrency_limit,
                remote_concurrency_hard_cap,
                remote_priority_low,
            } => LogEvent::RemoteUsageSample {
                sample_ms,
                snapshot,
                remote_concurrent_sessions,
                remote_concurrency_limit,
                remote_concurrency_hard_cap,
                remote_priority_low,
            },
        }
    }
}

impl View for LogRecord<String> {
    type V = LogRecord<Seq<char>>;

    open spec fn view(&self) -> LogRecord<Seq<char>> {
        LogRecord {
            level: self.level,
            request_id: self.request_id,
            path: self.path@,
            event: self.event@,
        }
    }
}

/// The view of a list of records.
pub open spec fn record_views(records: Seq<LogRecord<String>>) -> Seq<LogRecord<Seq<char>>> {
    Seq::new(records.len(), |i: int| records[i]@)
}

impl<T> LogEvent<T> {
    /// The name of the event as it is logged.
    pub open spec fn name_text(self) -> Seq<char> {
        match self {
            LogEvent::RequestReceived { .. } => "request_received"@,
            LogEvent::PermitAcquired { .. } => "permit_acquired"@,
            LogEvent::QueueTimeout { .. } => "queue_timeout"@,
            LogEvent::SemaphoreClosed { .. } => "semaphore_closed"@,
            LogEvent::UpstreamHeaders { .. } => "upstream_headers"@,
            LogEvent::UpstreamSendError { .. } => "upstream_send_error"@,
            LogEvent::UpstreamStreamError { .. } => "upstream_stream_error"@,
            LogEvent::StreamIdleTimeout { .. } => "stream_idle_timeout"@,
            LogEvent::PermitReleaseScheduled { .. } => "permit_release_scheduled"@,
            LogEvent::PermitReleased { .. } => "permit_released"@,
            LogEvent::RemoteUsageSampleSkipped { .. } => "remote_usage_sample_skipped"@,
            LogEvent::RemoteUsageSampleRefused { .. } => "remote_usage_sample_failed"@,
            LogEvent::RemoteUsageSampleFailed { .. } => "remote_usage_sample_failed"@,
            LogEvent::RemoteUsageSample { .. } => "remote_usage_sample"@,
        }
    }

    /// The name of the event as it is logged.
    pub fn name(&self) -> (text: &'static str)
        ensures
            text@ == self.name_text(),
    {
        match self {
            LogEvent::RequestReceived { .. } => "request_received",
            LogEvent::PermitAcquired { .. } => "permit_acquired",
            LogEvent::QueueTimeout { .. } => "queue_timeout",
            LogEvent::SemaphoreClosed { .. } => "semaphore_closed",
            LogEvent::UpstreamHeaders { .. } => "upstream_headers",
            LogEvent::UpstreamSendError { .. } => "upstream_send_error",
            LogEvent::UpstreamStreamError { .. } => "upstream_stream_error",
            LogEvent::StreamIdleTimeout { .. } => "stream_idle_timeout",
            LogEvent::PermitReleaseScheduled { .. } => "permit_release_scheduled",
            LogEvent::PermitReleased { .. } => "permit_released",
            LogEvent::RemoteUsageSampleSkipped { .. } => "remote_usage_sample_skipped",
            LogEvent::RemoteUsageSampleRefused { .. } => "remote_usage_sample_failed",
            LogEvent::RemoteUsageSampleFailed { .. } => "remote_usage_sample_failed",
            LogEvent::RemoteUsageSample { .. } => "remote_usage_sample",
        }
    }

    /// What set the event off, as it is logged: usage samples are set off by a
    /// 429 of upstream.
    pub open spec fn trigger_text(self) -> Option<Seq<char>> {
        match self {
            LogEvent::RemoteUsageSampleSkipped { .. } => Some("upstream_429"@),
            LogEvent::RemoteUsageSampleRefused { .. } => Some("upstream_429"@),
            LogEvent::RemoteUsageSampleFailed { .. } => Some("upstream_429"@),
            LogEvent::RemoteUsageSample { .. } => Some("upstream_429"@),
            _ => None,
        }
    }

    /// What set the event off, as it is logged.
    pub fn trigger(&self) -> (text: Option<&'static str>)
        ensures
            match text {
                Some(shown) => self.trigger_text() == Some(shown@),
                None => self.trigger_text() is None,
            },
    {
        match self {
            LogEvent::RemoteUsageSampleSkipped { .. } => Some("upstream_429"),
            LogEvent::RemoteUsageSampleRefused { .. } => Some("upstream_429"),
            LogEvent::RemoteUsageSampleFailed { .. } => Some("upstream_429"),
            LogEvent::RemoteUsageSample { .. } => Some("upstream_429"),
            _ => None,
        }
    }

    /// The reason that is logged with the event.
    pub open spec fn reason_text(self) -> Option<Seq<char>> {
        match self {
            LogEvent::PermitReleaseScheduled { reason, .. } => Some(reason.text()),
            LogEvent::PermitReleased { reason, .. } => Some(reason.text()),
            LogEvent::RemoteUsageSampleSkipped { .. } => Some("missing_auth_header"@),
            LogEvent::RemoteUsageSampleFailed { failure, .. } => Some(failure.text()),
            _ => None,
        }
    }

    /// The reason that is logged with the event.
    pub fn reason(&self) -> (text: Option<&'static str>)
        ensures
            match text {
                Some(shown) => self.reason_text() == Some(shown@),
                None => self.reason_text() is None,
            },
    {
        match self {
            LogEvent::PermitReleaseScheduled { reason, .. } => Some(reason.as_str()),
            LogEvent::PermitReleased { reason, .. } => Some(reason.as_str()),
            LogEvent::RemoteUsageSampleSkipped { .. } => Some("missing_auth_header"),
            LogEvent::RemoteUsageSampleFailed { failure, .. } => Some(failure.as_str()),
            _ => None,
        }
    }
}

// ---------------------------------------------------------------------------
// The trace of a request
// ---------------------------------------------------------------------------

/// What the log says of every event of one request.
pub struct RequestTrace {
    pub request_id: u64,
    pub path: String,
    pub started_at: Duration,
}

/// The view of [`RequestTrace`].
pub ghost struct TraceView {
    pub request_id: u64,
    pub path: Seq<char>,
    pub started_at: Duration,
}

impl View for RequestTrace {
    type V = TraceView;

    open spec fn view(&self) -> TraceView {
        TraceView { request_id: self.request_id, path: self.path@, started_at: self.started_at }
    }
}

impl Clone for RequestTrace {
    fn clone(&self) -> (trace: RequestTrace)
        ensures
            trace@ == self@,
    {
        RequestTrace {
            request_id: self.request_id,
            path: self.path.clone(),
            started_at: self.started_at,
        }
    }
}

impl RequestTrace {
    /// The trace of a request that arrives `now`, under the next id.
    pub fn new(state: &mut AppState, path: String, now: Duration) -> (trace: RequestTrace)
        ensures
            trace@ == (TraceView {
                request_id: old(state)@.next_request_id,
                path: path@,
                started_at: now,
            }),
            final(state)@ == old(state)@.numbered(),
    {
        let request_id: u64 = state.take_request_id();
        RequestTrace { request_id, path, started_at: now }
    }
}

/// The whole milliseconds from one moment to another, 0 where `to` is the
/// earlier.
pub open spec fn millis_between(from: Duration, to: Duration) -> u64 {
    millis_low_bits(saturating_difference(to@, from@)) as u64
}

/// The whole milliseconds of a span.
pub open spec fn millis_of(span: Duration) -> u64 {
    millis_low_bits(span@) as u64
}

/// The whole milliseconds from one moment to another.
fn elapsed_ms(from: Duration, to: Duration) -> (millis: u64)
    ensures
        millis == millis_between(from, to),
{
    to.saturating_sub(from).as_millis_u64()
}

/// Whether this is the path of the messages endpoint.
pub fn is_messages_path(path: &str) -> (messages: bool)
    ensures
        messages == (path@ == "/v1/messages"@),
{
    same_text(path, "/v1/messages")
}

/// The level of an ordinary event: events of the messages endpoint are always
/// shown.
pub open spec fn path_level(path: Seq<char>) -> Level {
    if path == "/v1/messages"@ {
        Level::Info
    } else {
        Level::Debug
    }
}

/// The level of an ordinary event.
fn ordinary_level(path: &str) -> (level: Level)
    ensures
        level == path_level(path@),
{
    if is_messages_path(path) {
        Level::Info
    } else {
        Level::Debug
    }
}

// ---------------------------------------------------------------------------
// The records
// ---------------------------------------------------------------------------

impl TraceView {
    /// A record of this request.
    pub open spec fn record(self, level: Level, event: LogEvent<Seq<char>>) -> LogRecord<
        Seq<char>,
    > {
        LogRecord { level, request_id: self.request_id, path: self.path, event }
    }

    /// The request came in.
    pub open spec fn request_received(
        self,
        method: Seq<char>,
        snapshot: TrafficSnapshot,
    ) -> LogRecord<Seq<char>> {
        self.record(path_level(self.path), LogEvent::RequestReceived { method, snapshot })
    }

    /// The request got its permit.
    pub open spec fn permit_acquired(self, snapshot: TrafficSnapshot, now: Duration) -> LogRecord<
        Seq<char>,
    > {
        self.record(
            path_level(self.path),
            LogEvent::PermitAcquired {
                queue_wait_ms: millis_between(self.started_at, now),
                snapshot,
            },
        )
    }

    /// The request waited too long for a permit.
    pub open spec fn queue_timeout(self, snapshot: TrafficSnapshot, now: Duration) -> LogRecord<
        Seq<char>,
    > {
        self.record(
            Level::Warn,
            LogEvent::QueueTimeout { wait_ms: millis_between(self.started_at, now), snapshot },
        )
    }

    /// The semaphore gives out no more permits.
    pub open spec fn semaphore_closed(self, snapshot: TrafficSnapshot) -> LogRecord<Seq<char>> {
        self.record(Level::Warn, LogEvent::SemaphoreClosed { snapshot })
    }

    /// Upstream answered: 429 is always shown.
    pub open spec fn upstream_headers(
        self,
        snapshot: TrafficSnapshot,
        status: u16,
        entries: Map<Seq<char>, Seq<Seq<u8>>>,
        sent_at: Duration,
        now: Duration,
    ) -> LogRecord<Seq<char>> {
        self.record(
            if status == 429 {
                Level::Warn
            } else {
                path_level(self.path)
            },
            LogEvent::UpstreamHeaders {
                status,
                upstream_header_ms: millis_between(sent_at, now),
                snapshot,
                retry_after: shown_retry_after(entries),
                upstream_request_id: shown_request_id(entries),
            },
        )
    }

    /// Upstream could not be reached.
    pub open spec fn upstream_send_error(
        self,
        sent_at: Duration,
        now: Duration,
        error: Seq<char>,
    ) -> LogRecord<Seq<char>> {
        self.record(
            Level::Warn,
            LogEvent::UpstreamSendError { upstream_send_ms: millis_between(sent_at, now), error },
        )
    }

    /// The upstream stream broke off.
    pub open spec fn upstream_stream_error(self, error: Seq<char>) -> LogRecord<Seq<char>> {
        self.record(Level::Warn, LogEvent::UpstreamStreamError { error })
    }

    /// Upstream stayed silent for too long.
    pub open spec fn stream_idle_timeout(
        self,
        snapshot: TrafficSnapshot,
        idle_timeout: Duration,
    ) -> LogRecord<Seq<char>> {
        self.record(
            Level::Warn,
            LogEvent::StreamIdleTimeout { idle_timeout_ms: millis_of(idle_timeout), snapshot },
        )
    }

    /// The permit begins to wait out the release grace.
    pub open spec fn permit_release_scheduled(
        self,
        snapshot: TrafficSnapshot,
        acquired_at: Duration,
        now: Duration,
        reason: ReleaseReason,
        release_grace: Duration,
        active_in_flight_after: usize,
        grace_pending_after: usize,
    ) -> LogRecord<Seq<char>> {
        self.record(
            path_level(self.path),
            LogEvent::PermitReleaseScheduled {
                reason,
                held_ms: millis_between(acquired_at, now),
                release_grace_ms: millis_of(release_grace),
                available_permits: snapshot.available_permits,
                held_permits: snapshot.held_permits,
                active_in_flight_after,
                grace_pending_after,
                queued: snapshot.queued,
            },
        )
    }

    /// The permit was given back.
    pub open spec fn permit_released(
        self,
        after: TrafficSnapshot,
        acquired_at: Duration,
        now: Duration,
        reason: ReleaseReason,
        release_grace: Duration,
    ) -> LogRecord<Seq<char>> {
        self.record(
            path_level(self.path),
            LogEvent::PermitReleased {
                reason,
                held_ms: millis_between(acquired_at, now),
                release_grace_ms: millis_of(release_grace),
                after,
            },
        )
    }

    /// No usage sample is taken for want of a credential.
    pub open spec fn usage_sample_skipped(self, snapshot: TrafficSnapshot) -> LogRecord<
        Seq<char>,
    > {
        self.record(Level::Warn, LogEvent::RemoteUsageSampleSkipped { snapshot })
    }

    /// The usage endpoint answered with something other than success.
    pub open spec fn usage_sample_refused(
        self,
        snapshot: TrafficSnapshot,
        status: u16,
        started_at: Duration,
        now: Duration,
    ) -> LogRecord<Seq<char>> {
        self.record(
            Level::Warn,
            LogEvent::RemoteUsageSampleRefused {
                status,
                sample_ms: millis_between(started_at, now),
                snapshot,
            },
        )
    }

    /// A usage sample came to nothing.
    pub open spec fn remote_usage_error(
        self,
        snapshot: TrafficSnapshot,
        failure: SampleFailure,
        started_at: Duration,
        now: Duration,
        error: Seq<char>,
    ) -> LogRecord<Seq<char>> {
        self.record(
            Level::Warn,
            LogEvent::RemoteUsageSampleFailed {
                failure,
                sample_ms: millis_between(started_at, now),
                snapshot,
                error,
            },
        )
    }

    /// A usage sample.
    pub open spec fn remote_usage_sample(
        self,
        snapshot: TrafficSnapshot,
        usage: UsageResponse,
        started_at: Duration,
        now: Duration,
    ) -> LogRecord<Seq<char>> {
        self.record(
            Level::Info,
            LogEvent::RemoteUsageSample {
                sample_ms: millis_between(started_at, now),
                snapshot,
                remote_concurrent_sessions: usage.concurrent_sessions(),
                remote_concurrency_limit: usage.concurrency_limit(),
                remote_concurrency_hard_cap: usage.concurrency_hard_cap(),
                remote_priority_low: usage.priority_low(),
            },
        )
    }
}

/// A record of the request.
fn record(trace: &RequestTrace, level: Level, event: LogEvent<String>) -> (record: LogRecord<
    String,
>)
    ensures
        record@ == trace@.record(level, event@),
{
    LogRecord { level, request_id: trace.request_id, path: trace.path.clone(), event }
}

pub(crate) fn log_request_received(
    trace: &RequestTrace,
    method: String,
    snapshot: TrafficSnapshot,
) -> (line: LogRecord<String>)
    ensures
        line@ == trace@.request_received(method@, snapshot),
{
    record(
        trace,
        ordinary_level(trace.path.as_str()),
        LogEvent::RequestReceived { method, snapshot },
    )
}

pub(crate) fn log_permit_acquired(
    trace: &RequestTrace,
    snapshot: TrafficSnapshot,
    now: Duration,
) -> (line: LogRecord<String>)
    ensures
        line@ == trace@.permit_acquired(snapshot, now),
{
    record(
        trace,
        ordinary_level(trace.path.as_str()),
        LogEvent::PermitAcquired { queue_wait_ms: elapsed_ms(trace.started_at, now), snapshot },
    )
}

pub(crate) fn log_queue_timeout(
    trace: &RequestTrace,
    snapshot: TrafficSnapshot,
    now: Duration,
) -> (line: LogRecord<String>)
    ensures
        line@ == trace@.queue_timeout(snapshot, now),
{
    record(
        trace,
        Level::Warn,
        LogEvent::QueueTimeout { wait_ms: elapsed_ms(trace.started_at, now), snapshot },
    )
}

pub(crate) fn log_semaphore_closed(trace: &RequestTrace, snapshot: TrafficSnapshot) -> (line:
    LogRecord<String>)
    ensures
        line@ == trace@.semaphore_closed(snapshot),
{
    record(trace, Level::Warn, LogEvent::SemaphoreClosed { snapshot })
}

pub(crate) fn log_upstream_headers(
    trace: &RequestTrace,
    snapshot: TrafficSnapshot,
    status: u16,
    headers: &HeaderMap,
    sent_at: Duration,
    now: Duration,
) -> (line: LogRecord<String>)
    ensures
        line@ == trace@.upstream_headers(snapshot, status, header_entries(*headers), sent_at, now),
{
    let level = if status == 429 {
        Level::Warn
    } else {
        ordinary_level(trace.path.as_str())
    };
    record(
        trace,
        level,
        LogEvent::UpstreamHeaders {
            status,
            upstream_header_ms: elapsed_ms(sent_at, now),
            snapshot,
            retry_after: retry_after(headers),
            upstream_request_id: upstream_request_id(headers),
        },
    )
}

pub(crate) fn log_upstream_send_error(
    trace: &RequestTrace,
    sent_at: Duration,
    now: Duration,
    error: String,
) -> (line: LogRecord<String>)
    ensures
        line@ == trace@.upstream_send_error(sent_at, now, error@),
{
    record(
        trace,
        Level::Warn,
        LogEvent::UpstreamSendError { upstream_send_ms: elapsed_ms(sent_at, now), error },
    )
}

pub(crate) fn log_upstream_stream_error(trace: &RequestTrace, error: String) -> (line: LogRecord<
    String,
>)
    ensures
        line@ == trace@.upstream_stream_error(error@),
{
    record(trace, Level::Warn, LogEvent::UpstreamStreamError { error })
}

pub(crate) fn log_stream_idle_timeout(
    trace: &RequestTrace,
    snapshot: TrafficSnapshot,
    idle_timeout: Duration,
) -> (line: LogRecord<String>)
    ensures
        line@ == trace@.stream_idle_timeout(snapshot, idle_timeout),
{
    record(
        trace,
        Level::Warn,
        LogEvent::StreamIdleTimeout { idle_timeout_ms: idle_timeout.as_millis_u64(), snapshot },
    )
}

pub(crate) fn log_permit_release_scheduled(
    trace: &RequestTrace,
    snapshot: TrafficSnapshot,
    acquired_at: Duration,
    now: Duration,
    reason: ReleaseReason,
    release_grace: Duration,
    active_in_flight_after: usize,
    grace_pending_after: usize,
) -> (line: LogRecord<String>)
    ensures
        line@ == trace@.permit_release_scheduled(
            snapshot,
            acquired_at,
            now,
            reason,
            release_grace,
            active_in_flight_after,
            grace_pending_after,
        ),
{
    record(
        trace,
        ordinary_level(trace.path.as_str()),
        LogEvent::PermitReleaseScheduled {
            reason,
            held_ms: elapsed_ms(acquired_at, now),
            release_grace_ms: release_grace.as_millis_u64(),
            available_permits: snapshot.available_permits,
            held_permits: snapshot.held_permits,
            active_in_flight_after,
            grace_pending_after,
            queued: snapshot.queued,
        },
    )
}

pub(crate) fn log_permit_released(
    trace: &RequestTrace,
    after: TrafficSnapshot,
    acquired_at: Duration,
    now: Duration,
    reason: ReleaseReason,
    release_grace: Duration,
) -> (line: LogRecord<String>)
    ensures
        line@ == trace@.permit_released(after, acquired_at, now, reason, release_grace),
{
    record(
        trace,
        ordinary_level(trace.path.as_str()),
        LogEvent::PermitReleased {
            reason,
            held_ms: elapsed_ms(acquired_at, now),
            release_grace_ms: release_grace.as_millis_u64(),
            after,
        },
    )
}

pub(crate) fn log_usage_sample_skipped(trace: &RequestTrace, snapshot: TrafficSnapshot) -> (line:
    LogRecord<String>)
    ensures
        line@ == trace@.usage_sample_skipped(snapshot),
{
    record(trace, Level::Warn, LogEvent::RemoteUsageSampleSkipped { snapshot })
}

pub(crate) fn log_usage_sample_refused(
    trace: &RequestTrace,
    snapshot: TrafficSnapshot,
    status: u16,
    started_at: Duration,
    now: Duration,
) -> (line: LogRecord<String>)
    ensures
        line@ == trace@.usage_sample_refused(snapshot, status, started_at, now),
{
    record(
        trace,
        Level::Warn,
        LogEvent::RemoteUsageSampleRefused {
            status,
            sample_ms: elapsed_ms(started_at, now),
            snapshot,
        },
    )
}

pub(crate) fn log_remote_usage_error(
    trace: &RequestTrace,
    snapshot: TrafficSnapshot,
    failure: SampleFailure,
    started_at: Duration,
    now: Duration,
    error: String,
) -> (line: LogRecord<String>)
    ensures
        line@ == trace@.remote_usage_error(snapshot, failure, started_at, now, error@),
{
    record(
        trace,
        Level::Warn,
        LogEvent::RemoteUsageSampleFailed {
            failure,
            sample_ms: elapsed_ms(started_at, now),
            snapshot,
            error,
        },
    )
}

pub(crate) fn log_remote_usage_sample(
    trace: &RequestTrace,
    snapshot: TrafficSnapshot,
    usage: &UsageResponse,
    started_at: Duration,
    now: Duration,
) -> (line: LogRecord<String>)
    ensures
        line@ == trace@.remote_usage_sample(snapshot, *usage, started_at, now),
{
    let concurrency = match &usage.limits {
        Some(limits) => limits.concurrency,
        None => None,
    };
    let counters = usage.usage;
    let priority = match counters {
        Some(counters) => counters.priority,
        None => None,
    };
    record(
        trace,
        Level::Info,
        LogEvent::RemoteUsageSample {
            sample_ms: elapsed_ms(started_at, now),
            snapshot,
            remote_concurrent_sessions: match counters {
                Some(counters) => counters.concurrent_sessions,
                None => None,
            },
            remote_concurrency_limit: match concurrency {
                Some(concurrency) => concurrency.limit,
                None => None,
            },
            remote_concurrency_hard_cap: match concurrency {
                Some(concurrency) => concurrency.hard_cap,
                None => None,
            },
            remote_priority_low: match priority {
                Some(priority) => priority.low,
                None => None,
            },
        },
    )
}

} // verus!
