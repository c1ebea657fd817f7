//! The response body that owns the permit.
//!
//! The body decides what each poll of the upstream stream comes to: which frame
//! the client gets, when the idle timer runs, and when the permit is released.

use tokio::sync::OwnedSemaphorePermit;
use vstd::prelude::*;

use crate::duration::Duration;
use crate::log::{
    log_stream_idle_timeout, log_upstream_stream_error, LogRecord, ReleaseReason, RequestTrace,
};
#[allow(unused_imports)]
use crate::log::{record_views, TraceView};
use crate::permit::{release_acquired_permit, AcquiredPermit, DelayedRelease, Release};
#[allow(unused_imports)]
use crate::permit::{optional_delayed, release_of, AcquiredView, DelayedView};
use crate::state::{AppState, TrafficSnapshot};
#[allow(unused_imports)]
use crate::state::AppView;

verus! {

/// A streaming body that owns the permit of its request. The permit is released
/// at the end of the stream, on an error of it, on the idle timeout, and
/// otherwise when the body is closed (the client went away).
///
/// Idle timeout: when the stream has no data ready, a timer runs. If it fires
/// before data arrives, the body ends. This prevents a hung upstream from
/// permanently occupying a slot.
pub struct PermitBody {
    permit: Option<OwnedSemaphorePermit>,
    trace: RequestTrace,
    acquired_at: Duration,
    idle_timeout: Duration,
    idle_timer_made: bool,
    idle_timer_armed: bool,
    release_reason: ReleaseReason,
}

/// The view of [`PermitBody`].
pub ghost struct BodyView {
    /// The permit, until it is released.
    pub permit: Option<OwnedSemaphorePermit>,
    pub trace: TraceView,
    pub acquired_at: Duration,
    pub idle_timeout: Duration,
    /// The idle timer exists: it is made once and armed anew for each window.
    pub idle_timer_made: bool,
    /// The idle timer runs for the present window without data.
    pub idle_timer_armed: bool,
    /// The reason under which the permit is or would be released.
    pub release_reason: ReleaseReason,
}

impl View for PermitBody {
    type V = BodyView;

    closed spec fn view(&self) -> BodyView {
        BodyView {
            permit: self.permit,
            trace: self.trace@,
            acquired_at: self.acquired_at,
            idle_timeout: self.idle_timeout,
            idle_timer_made: self.idle_timer_made,
            idle_timer_armed: self.idle_timer_armed,
            release_reason: self.release_reason,
        }
    }
}

/// What polling the upstream stream gave: `C` is a chunk, `E` an error, which
/// comes with its text.
pub enum StreamPoll<C, E> {
    Chunk(C),
    Failed(E, String),
    End,
    Pending,
}

/// What a poll of the body comes to.
pub enum FramePoll<C, E> {
    /// The client gets this chunk.
    Data(C),
    /// The client gets this error.
    Failed(E),
    /// The body ends.
    End,
    /// Nothing yet.
    Pending,
    /// The idle timer decides: make it first where `make` says so, let it fire
    /// `idle_timeout` from now where `arm` says so, and poll it. Its answer
    /// goes to [`PermitBody::poll_idle_timer`].
    PollTimer { make: bool, arm: bool, idle_timeout: Duration },
}

/// A poll of the body: what it comes to, the lines to log, and a permit that
/// waits out the release grace.
pub struct BodyStep<C, E> {
    pub frame: FramePoll<C, E>,
    pub records: Vec<LogRecord<String>>,
    pub delayed: Option<DelayedRelease>,
}

/// The state, the lines and the delayed release after a body released the
/// permit that it may still hold.
pub ghost struct BodyRelease {
    pub app: AppView,
    pub records: Seq<LogRecord<Seq<char>>>,
    pub delayed: Option<DelayedView>,
}

impl BodyView {
    /// The body of a response that has just begun.
    pub open spec fn fresh(
        acquired: AcquiredView,
        trace: TraceView,
        idle_timeout: Duration,
    ) -> BodyView {
        BodyView {
            permit: Some(acquired.permit),
            trace,
            acquired_at: acquired.acquired_at,
            idle_timeout,
            idle_timer_made: false,
            idle_timer_armed: false,
            release_reason: ReleaseReason::ClientDrop,
        }
    }

    /// After data arrived: the next idle window begins when the stream is
    /// pending again.
    pub open spec fn after_data(self) -> BodyView {
        BodyView { idle_timer_armed: false, ..self }
    }

    /// After the stream was pending: the idle timer runs.
    pub open spec fn after_pending(self) -> BodyView {
        BodyView { idle_timer_made: true, idle_timer_armed: true, ..self }
    }

    /// After the permit was released for `reason`.
    pub open spec fn after_release(self, reason: ReleaseReason) -> BodyView {
        BodyView { permit: None, release_reason: reason, ..self }
    }

    /// The release of the permit that the body may still hold. `snapshot` is
    /// what the state shows after it.
    pub open spec fn release(
        self,
        app: AppView,
        reason: ReleaseReason,
        now: Duration,
        snapshot: TrafficSnapshot,
    ) -> BodyRelease {
        match self.permit {
            Some(permit) => {
                let release = release_of(
                    app,
                    self.trace,
                    AcquiredView { permit, acquired_at: self.acquired_at },
                    reason,
                    now,
                    snapshot,
                );
                BodyRelease {
                    app: app.released(),
                    records: seq![release.record],
                    delayed: release.delayed,
                }
            },
            None => BodyRelease { app, records: Seq::empty(), delayed: None },
        }
    }

    /// `step` and the state after it are a release of the permit that the body
    /// may still hold, after the lines `first`.
    pub open spec fn releases<C, E>(
        self,
        before: AppView,
        after: AppView,
        first: Seq<LogRecord<Seq<char>>>,
        reason: ReleaseReason,
        now: Duration,
        step: BodyStep<C, E>,
    ) -> bool {
        exists|snapshot: TrafficSnapshot| #[trigger]
            after.shows(snapshot) && {
                let release = self.release(before, reason, now, snapshot);
                &&& after == release.app
                &&& record_views(step.records@) == first + release.records
                &&& optional_delayed(step.delayed) == release.delayed
            }
    }

    /// The body gives up the permit that it may still hold: `release` is what
    /// that leaves to do.
    pub open spec fn gives_up(
        self,
        before: AppView,
        after: AppView,
        reason: ReleaseReason,
        now: Duration,
        release: Option<Release>,
    ) -> bool {
        match self.permit {
            Some(permit) => {
                &&& after == before.released()
                &&& release matches Some(made) && exists|snapshot: TrafficSnapshot| #[trigger]
                    after.shows(snapshot) && made@ == release_of(
                        before,
                        self.trace,
                        AcquiredView { permit, acquired_at: self.acquired_at },
                        reason,
                        now,
                        snapshot,
                    )
            },
            None => after == before && release is None,
        }
    }

    /// `step` logs nothing and releases nothing.
    pub open spec fn is_quiet<C, E>(step: BodyStep<C, E>) -> bool {
        step.records@.len() == 0 && step.delayed is None
    }
}

/// What a poll of the upstream stream comes to: a chunk is handed on as it is;
/// an error is handed on, and it and the end of the stream release the permit;
/// a pending stream leaves it to the idle timer, which is armed once for each
/// window without data.
pub open spec fn is_poll<C, E>(
    before: AppView,
    after: AppView,
    body: BodyView,
    next: BodyView,
    polled: StreamPoll<C, E>,
    now: Duration,
    step: BodyStep<C, E>,
) -> bool {
    match polled {
        StreamPoll::Chunk(chunk) => {
            &&& step.frame == FramePoll::<C, E>::Data(chunk)
            &&& BodyView::is_quiet(step)
            &&& next == body.after_data()
            &&& after == before
        },
        StreamPoll::Failed(error, text) => {
            &&& step.frame == FramePoll::<C, E>::Failed(error)
            &&& next == body.after_release(ReleaseReason::StreamError)
            &&& body.releases(
                before,
                after,
                seq![body.trace.upstream_stream_error(text@)],
                ReleaseReason::StreamError,
                now,
                step,
            )
        },
        StreamPoll::End => {
            &&& step.frame == FramePoll::<C, E>::End
            &&& next == body.after_release(ReleaseReason::Complete)
            &&& body.releases(
                before,
                after,
                Seq::empty(),
                ReleaseReason::Complete,
                now,
                step,
            )
        },
        StreamPoll::Pending => {
            &&& step.frame == (FramePoll::<C, E>::PollTimer {
                make: !body.idle_timer_made,
                arm: !body.idle_timer_armed,
                idle_timeout: body.idle_timeout,
            })
            &&& BodyView::is_quiet(step)
            &&& next == body.after_pending()
            &&& after == before
        },
    }
}

/// What the answer of the idle timer comes to: if it fired, the body ends and
/// the permit is released.
pub open spec fn is_timer_poll<C, E>(
    before: AppView,
    after: AppView,
    body: BodyView,
    next: BodyView,
    fired: bool,
    now: Duration,
    step: BodyStep<C, E>,
) -> bool {
    if fired {
        &&& step.frame == FramePoll::<C, E>::End
        &&& next == body.after_release(ReleaseReason::IdleTimeout)
        &&& exists|idle: TrafficSnapshot| #[trigger]
            before.shows(idle) && body.releases(
                before,
                after,
                seq![body.trace.stream_idle_timeout(idle, body.idle_timeout)],
                ReleaseReason::IdleTimeout,
                now,
                step,
            )
    } else {
        &&& step.frame == FramePoll::<C, E>::Pending
        &&& BodyView::is_quiet(step)
        &&& next == body
        &&& after == before
    }
}

/// What closing the body comes to: the permit is released if it is still held.
pub open spec fn is_closing(
    before: AppView,
    after: AppView,
    body: BodyView,
    next: BodyView,
    now: Duration,
    release: Option<Release>,
) -> bool {
    &&& next == body.after_release(body.release_reason)
    &&& body.gives_up(before, after, body.release_reason, now, release)
}

impl PermitBody {
    /// The body of a response that has just begun.
    pub fn new(acquired: AcquiredPermit, trace: RequestTrace, idle_timeout: Duration) -> (body:
        PermitBody)
        ensures
            body@ == BodyView::fresh(acquired@, trace@, idle_timeout),
    {
        let (permit, acquired_at) = acquired.into_parts();
        PermitBody {
            permit: Some(permit),
            trace,
            acquired_at,
            idle_timeout,
            idle_timer_made: false,
            idle_timer_armed: false,
            release_reason: ReleaseReason::ClientDrop,
        }
    }

    /// Whether the body still holds its permit.
    pub fn holds_permit(&self) -> (held: bool)
        ensures
            held == self@.permit is Some,
    {
        self.permit.is_some()
    }

    /// Releases the permit, if it is still held.
    fn release_permit(&mut self, state: &mut AppState, reason: ReleaseReason, now: Duration) -> (
    release: Option<Release>)
        ensures
            final(self)@ == old(self)@.after_release(reason),
            old(self)@.gives_up(old(state)@, final(state)@, reason, now, release),
    {
        self.release_reason = reason;
        match self.permit.take() {
            Some(permit) => Some(
                release_acquired_permit(
                    state,
                    &self.trace,
                    AcquiredPermit::from_parts(permit, self.acquired_at),
                    reason,
                    now,
                ),
            ),
            None => None,
        }
    }

    /// Ends the body with a release: the lines so far, the frame, and the
    /// release of the permit.
    fn finish<C, E>(
        &mut self,
        state: &mut AppState,
        first: Vec<LogRecord<String>>,
        frame: FramePoll<C, E>,
        reason: ReleaseReason,
        now: Duration,
    ) -> (step: BodyStep<C, E>)
        ensures
            final(self)@ == old(self)@.after_release(reason),
            step.frame == frame,
            old(self)@.releases(
                old(state)@,
                final(state)@,
                record_views(first@),
                reason,
                now,
                step,
            ),
    {
        let mut records = first;
        match self.release_permit(state, reason, now) {
            Some(release) => {
                let ghost snapshot = choose|snapshot: TrafficSnapshot| #[trigger]
                    state@.shows(snapshot) && release@ == release_of(
                        old(state)@,
                        old(self)@.trace,
                        AcquiredView {
                            permit: old(self)@.permit->0,
                            acquired_at: old(self)@.acquired_at,
                        },
                        reason,
                        now,
                        snapshot,
                    );
                records.push(release.record);
                let step = BodyStep { frame, records, delayed: release.delayed };
                proof {
                    assert(state@.shows(snapshot));
                    assert(record_views(step.records@) =~= record_views(first@) + old(
                        self,
                    )@.release(old(state)@, reason, now, snapshot).records);
                }
                step
            },
            None => {
                let ghost snapshot = state@.snapshot_at(0);
                let step = BodyStep { frame, records, delayed: None };
                proof {
                    assert(state@.shows(snapshot));
                    assert(record_views(step.records@) =~= record_views(first@) + old(
                        self,
                    )@.release(old(state)@, reason, now, snapshot).records);
                }
                step
            },
        }
    }

    /// What a poll of the upstream stream comes to.
    pub fn poll_frame<C, E>(
        &mut self,
        state: &mut AppState,
        polled: StreamPoll<C, E>,
        now: Duration,
    ) -> (step: BodyStep<C, E>)
        ensures
            is_poll(
                old(state)@,
                final(state)@,
                old(self)@,
                final(self)@,
                polled,
                now,
                step,
            ),
    {
        match polled {
            StreamPoll::Chunk(chunk) => {
                self.idle_timer_armed = false;
                BodyStep { frame: FramePoll::Data(chunk), records: Vec::new(), delayed: None }
            },
            StreamPoll::Failed(error, text) => {
                let mut records: Vec<LogRecord<String>> = Vec::new();
                records.push(log_upstream_stream_error(&self.trace, text));
                assert(record_views(records@) =~= seq![self@.trace.upstream_stream_error(text@)]);
                self.finish(
                    state,
                    records,
                    FramePoll::Failed(error),
                    ReleaseReason::StreamError,
                    now,
                )
            },
            StreamPoll::End => {
                let records: Vec<LogRecord<String>> = Vec::new();
                assert(record_views(records@) =~= Seq::empty());
                self.finish(state, records, FramePoll::End, ReleaseReason::Complete, now)
            },
            StreamPoll::Pending => {
                let make = !self.idle_timer_made;
                let arm = !self.idle_timer_armed;
                self.idle_timer_made = true;
                self.idle_timer_armed = true;
                BodyStep {
                    frame: FramePoll::PollTimer { make, arm, idle_timeout: self.idle_timeout },
                    records: Vec::new(),
                    delayed: None,
                }
            },
        }
    }

    /// What the answer of the idle timer comes to: the body ends if it `fired`.
    pub fn poll_idle_timer<C, E>(
        &mut self,
        state: &mut AppState,
        fired: bool,
        now: Duration,
    ) -> (step: BodyStep<C, E>)
        ensures
            is_timer_poll(
                old(state)@,
                final(state)@,
                old(self)@,
                final(self)@,
                fired,
                now,
                step,
            ),
    {
        if fired {
            let idle = state.snapshot();
            let mut records: Vec<LogRecord<String>> = Vec::new();
            records.push(log_stream_idle_timeout(&self.trace, idle, self.idle_timeout));
            assert(record_views(records@) =~= seq![
                self@.trace.stream_idle_timeout(idle, self@.idle_timeout),
            ]);
            self.finish(state, records, FramePoll::End, ReleaseReason::IdleTimeout, now)
        } else {
            BodyStep { frame: FramePoll::Pending, records: Vec::new(), delayed: None }
        }
    }

    /// Closes the body, when it is dropped: releases the permit if it is still
    /// held.
    pub fn close(&mut self, state: &mut AppState, now: Duration) -> (release: Option<Release>)
        ensures
            is_closing(
                old(state)@,
                final(state)@,
                old(self)@,
                final(self)@,
                now,
                release,
            ),
    {
        let reason = self.release_reason;
        self.release_permit(state, reason, now)
    }
}

} // verus!
