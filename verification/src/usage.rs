//! Samples of upstream's usage endpoint, taken after it answered 429.

use vstd::prelude::*;

use crate::config::UsageSampling;
use crate::duration::Duration;
use crate::headers::UsageAuthHeaders;
#[allow(unused_imports)]
use crate::headers::UsageAuthView;
use crate::log::{
    log_remote_usage_error, log_remote_usage_sample, log_usage_sample_refused,
    log_usage_sample_skipped, LogRecord, RequestTrace, SampleFailure,
};
#[allow(unused_imports)]
use crate::log::TraceView;
use crate::state::{AppState, TrafficSnapshot};
#[allow(unused_imports)]
use crate::state::AppView;
#[allow(unused_imports)]
use crate::text::text_or_fault;
use crate::upstream::usage_url;
#[allow(unused_imports)]
use crate::upstream::{stays_upstream, url_join};

verus! {

/// What the usage endpoint reports.
#[derive(Debug, Clone, Copy)]
pub struct UsageResponse {
    pub limits: Option<UsageLimits>,
    pub usage: Option<UsageCounters>,
}

#[derive(Debug, Clone, Copy)]
pub struct UsageLimits {
    pub concurrency: Option<ConcurrencyLimit>,
}

#[derive(Debug, Clone, Copy)]
pub struct ConcurrencyLimit {
    pub limit: Option<u64>,
    pub hard_cap: Option<u64>,
}

#[derive(Debug, Clone, Copy)]
pub struct UsageCounters {
    pub concurrent_sessions: Option<u64>,
    pub priority: Option<UsagePriority>,
}

#[derive(Debug, Clone, Copy)]
pub struct UsagePriority {
    pub low: Option<bool>,
}

impl UsageResponse {
    /// The concurrency limits, if reported.
    pub open spec fn concurrency(self) -> Option<ConcurrencyLimit> {
        match self.limits {
            Some(limits) => limits.concurrency,
            None => None,
        }
    }

    /// The concurrency limit, if reported.
    pub open spec fn concurrency_limit(self) -> Option<u64> {
        match self.concurrency() {
            Some(concurrency) => concurrency.limit,
            None => None,
        }
    }

    /// The hard cap on concurrency, if reported.
    pub open spec fn concurrency_hard_cap(self) -> Option<u64> {
        match self.concurrency() {
            Some(concurrency) => concurrency.hard_cap,
            None => None,
        }
    }

    /// The sessions that the account runs at the same time, if reported.
    pub open spec fn concurrent_sessions(self) -> Option<u64> {
        match self.usage {
            Some(counters) => counters.concurrent_sessions,
            None => None,
        }
    }

    /// Whether the account's priority is low, if reported.
    pub open spec fn priority_low(self) -> Option<bool> {
        match self.usage {
            Some(counters) => match counters.priority {
                Some(priority) => priority.low,
                None => None,
            },
            None => None,
        }
    }
}

/// A usage sample to be taken: for which request, with whose credentials.
pub struct SampleRequest {
    pub trace: RequestTrace,
    pub auth: UsageAuthHeaders,
}

/// The view of [`SampleRequest`].
pub ghost struct SampleRequestView {
    pub trace: TraceView,
    pub auth: UsageAuthView,
}

impl View for SampleRequest {
    type V = SampleRequestView;

    open spec fn view(&self) -> SampleRequestView {
        SampleRequestView { trace: self.trace@, auth: self.auth@ }
    }
}

/// The view of an optional sample to be taken.
pub open spec fn optional_sample(sample: Option<SampleRequest>) -> Option<SampleRequestView> {
    match sample {
        Some(request) => Some(request@),
        None => None,
    }
}

/// Whether the answer of upstream calls for a usage sample.
pub open spec fn calls_for_sample(app: AppView, status: u16) -> bool {
    status == 429 && app.usage_sampling == UsageSampling::On429
}

/// The sample to be taken after upstream answered with `status`.
pub open spec fn sample_taken(
    app: AppView,
    trace: TraceView,
    auth: UsageAuthView,
    status: u16,
) -> Option<SampleRequestView> {
    if calls_for_sample(app, status) && !auth.is_empty() {
        Some(SampleRequestView { trace, auth })
    } else {
        None
    }
}

/// The lines that are logged where upstream's answer calls for a sample, but
/// there is no credential to take it with.
pub open spec fn sample_skipped(
    app: AppView,
    trace: TraceView,
    auth: UsageAuthView,
    status: u16,
    snapshot: TrafficSnapshot,
) -> Seq<LogRecord<Seq<char>>> {
    if calls_for_sample(app, status) && auth.is_empty() {
        seq![trace.usage_sample_skipped(snapshot)]
    } else {
        Seq::empty()
    }
}

/// Whether the account's usage is to be sampled.
pub enum SampleDecision {
    /// No: nothing calls for it.
    NotCalledFor,
    /// No: the request carried no credential. The line says so.
    Skipped(LogRecord<String>),
    /// Yes.
    Take(SampleRequest),
}

/// Decides on a usage sample after upstream answered with `status`: only on
/// 429, only if sampling is on, and only with the credentials of the request.
pub fn maybe_sample_usage_on_429(
    state: &AppState,
    trace: &RequestTrace,
    auth: UsageAuthHeaders,
    status: u16,
) -> (decision: SampleDecision)
    ensures
        match decision {
            SampleDecision::NotCalledFor => !calls_for_sample(state@, status),
            SampleDecision::Skipped(line) => {
                &&& calls_for_sample(state@, status)
                &&& auth@.is_empty()
                &&& exists|snapshot: TrafficSnapshot| #[trigger]
                    state@.shows(snapshot) && line@ == trace@.usage_sample_skipped(snapshot)
            },
            SampleDecision::Take(request) => {
                &&& calls_for_sample(state@, status)
                &&& !auth@.is_empty()
                &&& request@ == (SampleRequestView { trace: trace@, auth: auth@ })
            },
        },
{
    if status != 429 {
        return SampleDecision::NotCalledFor;
    }
    match state.usage_sampling() {
        UsageSampling::On429 => {},
        UsageSampling::Off => {
            return SampleDecision::NotCalledFor;
        },
    }
    if auth.is_empty() {
        let snapshot = state.snapshot();
        return SampleDecision::Skipped(log_usage_sample_skipped(trace, snapshot));
    }
    SampleDecision::Take(SampleRequest { trace: trace.clone(), auth })
}

/// A usage sample that is being taken.
pub struct UsageSample {
    trace: RequestTrace,
    started_at: Duration,
}

/// The view of [`UsageSample`].
pub ghost struct UsageSampleView {
    pub trace: TraceView,
    pub started_at: Duration,
}

impl View for UsageSample {
    type V = UsageSampleView;

    closed spec fn view(&self) -> UsageSampleView {
        UsageSampleView { trace: self.trace@, started_at: self.started_at }
    }
}

/// What moves a usage sample on.
pub enum SampleEvent {
    /// The sample is to be taken.
    Begin(SampleRequest),
    /// The usage endpoint could not be reached, for what the text says.
    SendFailed(UsageSample, String),
    /// The usage endpoint answered with this status.
    Answered(UsageSample, u16),
    /// The answer was read: the usage report, or why it is none.
    Decoded(UsageSample, Result<UsageResponse, String>),
}

/// What a usage sample needs next.
pub enum SampleAction {
    /// Get this URL with these credentials.
    Fetch { sample: UsageSample, url: String, auth: UsageAuthHeaders },
    /// Read the answer as a usage report.
    Decode(UsageSample),
    /// Log this line. The sample is over.
    Done(LogRecord<String>),
}

/// Whether a status means success.
pub open spec fn is_success(status: u16) -> bool {
    200 <= status < 300
}

/// How a sample begins, when `url` is the URL of the usage endpoint, or why
/// there is none.
pub open spec fn begins_sample(
    app: AppView,
    request: SampleRequestView,
    url: Result<Seq<char>, Seq<char>>,
    now: Duration,
    action: SampleAction,
) -> bool {
    match url {
        Ok(text) => {
            &&& action matches SampleAction::Fetch { sample, url, auth }
            &&& sample@ == (UsageSampleView { trace: request.trace, started_at: now })
            &&& url@ == text
            &&& auth@ == request.auth
        },
        Err(error) => ends_sample(
            app,
            |snapshot: TrafficSnapshot|
                request.trace.remote_usage_error(
                    snapshot,
                    SampleFailure::InvalidUsageUrl,
                    now,
                    now,
                    error,
                ),
            action,
        ),
    }
}

/// The sample is over, with the line that `line` makes of a snapshot.
pub open spec fn ends_sample(
    app: AppView,
    line: spec_fn(TrafficSnapshot) -> LogRecord<Seq<char>>,
    action: SampleAction,
) -> bool {
    action matches SampleAction::Done(done) && exists|snapshot: TrafficSnapshot| #[trigger]
        app.shows(snapshot) && done@ == line(snapshot)
}

/// How a sample moves on.
pub open spec fn moves_sample(
    app: AppView,
    event: SampleEvent,
    now: Duration,
    action: SampleAction,
) -> bool {
    match event {
        SampleEvent::Begin(request) => {
            &&& begins_sample(
                app,
                request@,
                url_join(app.upstream_base, "/v1/usage"@),
                now,
                action,
            )
            &&& action matches SampleAction::Fetch { url, .. } ==> stays_upstream(
                app.upstream_base,
                "/v1/usage"@,
                url@,
            )
        },
        SampleEvent::SendFailed(sample, error) => ends_sample(
            app,
            |snapshot: TrafficSnapshot|
                sample@.trace.remote_usage_error(
                    snapshot,
                    SampleFailure::SendFailed,
                    sample@.started_at,
                    now,
                    error@,
                ),
            action,
        ),
        SampleEvent::Answered(sample, status) => if is_success(status) {
            action matches SampleAction::Decode(next) && next@ == sample@
        } else {
            ends_sample(
                app,
                |snapshot: TrafficSnapshot|
                    sample@.trace.usage_sample_refused(snapshot, status, sample@.started_at, now),
                action,
            )
        },
        SampleEvent::Decoded(sample, Ok(usage)) => ends_sample(
            app,
            |snapshot: TrafficSnapshot|
                sample@.trace.remote_usage_sample(snapshot, usage, sample@.started_at, now),
            action,
        ),
        SampleEvent::Decoded(sample, Err(error)) => ends_sample(
            app,
            |snapshot: TrafficSnapshot|
                sample@.trace.remote_usage_error(
                    snapshot,
                    SampleFailure::DecodeFailed,
                    sample@.started_at,
                    now,
                    error@,
                ),
            action,
        ),
    }
}

/// Begins a usage sample, when `url` is the URL of the usage endpoint, or why
/// there is none.
pub fn begin_sample(
    state: &AppState,
    request: SampleRequest,
    url: Result<String, String>,
    now: Duration,
) -> (action: SampleAction)
    ensures
        begins_sample(state@, request@, text_or_fault(url), now, action),
{
    match url {
        Ok(url) => SampleAction::Fetch {
            sample: UsageSample { trace: request.trace, started_at: now },
            url,
            auth: request.auth,
        },
        Err(error) => {
            let snapshot = state.snapshot();
            SampleAction::Done(
                log_remote_usage_error(
                    &request.trace,
                    snapshot,
                    SampleFailure::InvalidUsageUrl,
                    now,
                    now,
                    error,
                ),
            )
        },
    }
}

/// Moves a usage sample on, to its one line in the log.
pub fn sample_usage_after_429(state: &AppState, event: SampleEvent, now: Duration) -> (action:
    SampleAction)
    ensures
        moves_sample(state@, event, now, action),
{
    match event {
        SampleEvent::Begin(request) => {
            let url = usage_url(state.upstream_base());
            begin_sample(state, request, url, now)
        },
        SampleEvent::SendFailed(sample, error) => {
            let snapshot = state.snapshot();
            SampleAction::Done(
                log_remote_usage_error(
                    &sample.trace,
                    snapshot,
                    SampleFailure::SendFailed,
                    sample.started_at,
                    now,
                    error,
                ),
            )
        },
        SampleEvent::Answered(sample, status) => {
            if 200 <= status && status < 300 {
                SampleAction::Decode(sample)
            } else {
                let snapshot = state.snapshot();
                SampleAction::Done(
                    log_usage_sample_refused(
                        &sample.trace,
                        snapshot,
                        status,
                        sample.started_at,
                        now,
                    ),
                )
            }
        },
        SampleEvent::Decoded(sample, Ok(usage)) => {
            let snapshot = state.snapshot();
            SampleAction::Done(
                log_remote_usage_sample(&sample.trace, snapshot, &usage, sample.started_at, now),
            )
        },
        SampleEvent::Decoded(sample, Err(error)) => {
            let snapshot = state.snapshot();
            SampleAction::Done(
                log_remote_usage_error(
                    &sample.trace,
                    snapshot,
                    SampleFailure::DecodeFailed,
                    sample.started_at,
                    now,
                    error,
                ),
            )
        },
    }
}

} // verus!
