//! The lifecycle of a permit: it is acquired before a request is forwarded,
//! held until the response has ended, and released exactly once.

use tokio::sync::OwnedSemaphorePermit;
use vstd::prelude::*;

use crate::duration::Duration;
#[allow(unused_imports)]
use crate::duration::saturating_difference;
use crate::log::{
    log_permit_acquired, log_permit_release_scheduled, log_permit_released, log_queue_timeout,
    log_semaphore_closed, LogRecord, ReleaseReason, RequestTrace,
};
#[allow(unused_imports)]
use crate::log::TraceView;
use crate::reply::{queue_timeout_response, Reply};
#[allow(unused_imports)]
use crate::reply::queue_timeout_reply;
use crate::state::{AppState, TrafficSnapshot};
#[allow(unused_imports)]
use crate::state::{next_count, saturating_count, AppView};

verus! {

/// A permit and the moment at which it was acquired.
pub struct AcquiredPermit {
    permit: OwnedSemaphorePermit,
    acquired_at: Duration,
}

/// The view of [`AcquiredPermit`].
pub ghost struct AcquiredView {
    pub permit: OwnedSemaphorePermit,
    pub acquired_at: Duration,
}

impl View for AcquiredPermit {
    type V = AcquiredView;

    closed spec fn view(&self) -> AcquiredView {
        AcquiredView { permit: self.permit, acquired_at: self.acquired_at }
    }
}

impl AcquiredPermit {
    /// A permit that was acquired at `acquired_at`.
    pub(crate) fn from_parts(permit: OwnedSemaphorePermit, acquired_at: Duration) -> (acquired:
        AcquiredPermit)
        ensures
            acquired@ == (AcquiredView { permit, acquired_at }),
    {
        AcquiredPermit { permit, acquired_at }
    }

    /// The permit and the moment at which it was acquired.
    pub(crate) fn into_parts(self) -> (parts: (OwnedSemaphorePermit, Duration))
        ensures
            self@ == (AcquiredView { permit: parts.0, acquired_at: parts.1 }),
    {
        (self.permit, self.acquired_at)
    }
}

/// How waiting for a permit ended.
pub enum AcquireOutcome {
    /// The semaphore gave out a permit.
    Granted(OwnedSemaphorePermit),
    /// The semaphore gives out no more permits.
    Closed,
    /// The request waited for longer than `max_wait`.
    TimedOut,
}

/// Ends the wait of a queued request: with a permit, or with the response that
/// it gets instead.
pub fn acquire_permit(
    state: &mut AppState,
    trace: &RequestTrace,
    outcome: AcquireOutcome,
    now: Duration,
) -> (ended: (Result<AcquiredPermit, Reply>, LogRecord<String>))
    ensures
        match outcome {
            AcquireOutcome::Granted(permit) => {
                &&& final(state)@ == old(state)@.granted()
                &&& ended.0 matches Ok(acquired) && acquired@ == (AcquiredView {
                    permit,
                    acquired_at: now,
                })
                &&& exists|snapshot: TrafficSnapshot| #[trigger]
                    final(state)@.shows(snapshot) && ended.1@ == trace@.permit_acquired(
                        snapshot,
                        now,
                    )
            },
            AcquireOutcome::Closed => {
                &&& final(state)@ == old(state)@.left_queue()
                &&& ended.0 matches Err(reply) && reply@ == queue_timeout_reply(
                    old(state)@.max_wait,
                )
                &&& exists|snapshot: TrafficSnapshot| #[trigger]
                    final(state)@.shows(snapshot) && ended.1@ == trace@.semaphore_closed(snapshot)
            },
            AcquireOutcome::TimedOut => {
                &&& final(state)@ == old(state)@.left_queue()
                &&& ended.0 matches Err(reply) && reply@ == queue_timeout_reply(
                    old(state)@.max_wait,
                )
                &&& exists|snapshot: TrafficSnapshot| #[trigger]
                    final(state)@.shows(snapshot) && ended.1@ == trace@.queue_timeout(
                        snapshot,
                        now,
                    )
            },
        },
{
    match outcome {
        AcquireOutcome::Granted(permit) => {
            state.grant();
            let snapshot = state.snapshot();
            let line = log_permit_acquired(trace, snapshot, now);
            (Ok(AcquiredPermit { permit, acquired_at: now }), line)
        },
        AcquireOutcome::Closed => {
            state.leave_queue();
            let snapshot = state.snapshot();
            let line = log_semaphore_closed(trace, snapshot);
            (Err(queue_timeout_response(state.max_wait())), line)
        },
        AcquireOutcome::TimedOut => {
            state.leave_queue();
            let snapshot = state.snapshot();
            let line = log_queue_timeout(trace, snapshot, now);
            (Err(queue_timeout_response(state.max_wait())), line)
        },
    }
}

/// A permit that waits out the release grace, from the moment at which its
/// request was done. It is given back by [`DelayedRelease::finish`].
pub struct DelayedRelease {
    acquired: AcquiredPermit,
    trace: RequestTrace,
    reason: ReleaseReason,
    ended_at: Duration,
    grace: Duration,
}

/// The view of [`DelayedRelease`].
pub ghost struct DelayedView {
    pub acquired: AcquiredView,
    pub trace: TraceView,
    pub reason: ReleaseReason,
    /// The moment from which the grace runs: the request was done.
    pub ended_at: Duration,
    pub grace: Duration,
}

impl DelayedView {
    /// The moment at which the grace is over, in nanoseconds.
    pub open spec fn due(self) -> nat {
        self.ended_at@ + self.grace@
    }
}

impl View for DelayedRelease {
    type V = DelayedView;

    closed spec fn view(&self) -> DelayedView {
        DelayedView {
            acquired: self.acquired@,
            trace: self.trace@,
            reason: self.reason,
            ended_at: self.ended_at,
            grace: self.grace,
        }
    }
}

/// The view of an optional delayed release.
pub open spec fn optional_delayed(delayed: Option<DelayedRelease>) -> Option<DelayedView> {
    match delayed {
        Some(held) => Some(held@),
        None => None,
    }
}

/// What a release leaves to do: a line to log and, where there is a release
/// grace, a permit that waits it out.
pub struct Release {
    pub record: LogRecord<String>,
    pub delayed: Option<DelayedRelease>,
}

/// The view of [`Release`].
pub ghost struct ReleaseView {
    pub record: LogRecord<Seq<char>>,
    pub delayed: Option<DelayedView>,
}

impl View for Release {
    type V = ReleaseView;

    open spec fn view(&self) -> ReleaseView {
        ReleaseView { record: self.record@, delayed: optional_delayed(self.delayed) }
    }
}

/// What the release of a permit leaves to do, in a state `before` it, when
/// `snapshot` is what the state shows after it.
pub open spec fn release_of(
    before: AppView,
    trace: TraceView,
    acquired: AcquiredView,
    reason: ReleaseReason,
    now: Duration,
    snapshot: TrafficSnapshot,
) -> ReleaseView {
    if before.release_grace@ == 0 {
        ReleaseView {
            record: trace.permit_released(
                snapshot,
                acquired.acquired_at,
                now,
                reason,
                before.release_grace,
            ),
            delayed: None,
        }
    } else {
        ReleaseView {
            record: trace.permit_release_scheduled(
                snapshot,
                acquired.acquired_at,
                now,
                reason,
                before.release_grace,
                saturating_count(before.active_in_flight, 1),
                next_count(before.grace_pending),
            ),
            delayed: Some(
                DelayedView {
                    acquired,
                    trace,
                    reason,
                    ended_at: now,
                    grace: before.release_grace,
                },
            ),
        }
    }
}

/// Gives the permit back to its semaphore, by dropping it. What the drop does to
/// the semaphore is tokio's and is not stated: others take and give back permits
/// at the same time.
fn give_back(_acquired: AcquiredPermit) {
}

/// Releases the permit of a request that is done: at once, or, where there is a
/// release grace, by handing it on to wait that out.
pub fn release_acquired_permit(
    state: &mut AppState,
    trace: &RequestTrace,
    acquired: AcquiredPermit,
    reason: ReleaseReason,
    now: Duration,
) -> (release: Release)
    ensures
        final(state)@ == old(state)@.released(),
        exists|snapshot: TrafficSnapshot| #[trigger]
            final(state)@.shows(snapshot) && release@ == release_of(
                old(state)@,
                trace@,
                acquired@,
                reason,
                now,
                snapshot,
            ),
{
    let release_grace = state.release_grace();
    let acquired_at = acquired.acquired_at;
    let active_in_flight_after: usize = state.active_in_flight().saturating_sub(1);
    state.release();

    if release_grace.is_zero() {
        give_back(acquired);
        let snapshot = state.snapshot();
        let record = log_permit_released(
            trace,
            snapshot,
            acquired_at,
            now,
            reason,
            release_grace,
        );
        return Release { record, delayed: None };
    }
    let grace_pending_after: usize = state.grace_pending();
    let snapshot = state.snapshot();
    let record = log_permit_release_scheduled(
        trace,
        snapshot,
        acquired_at,
        now,
        reason,
        release_grace,
        active_in_flight_after,
        grace_pending_after,
    );
    Release {
        record,
        delayed: Some(
            DelayedRelease {
                acquired,
                trace: trace.clone(),
                reason,
                ended_at: now,
                grace: release_grace,
            },
        ),
    }
}

/// What became of a permit that waits out the release grace.
pub enum GraceOutcome {
    /// It was given back. The line says so.
    Over(LogRecord<String>),
    /// It is too early: the permit goes on waiting.
    Waiting(DelayedRelease),
}

/// What the end of the release grace comes to: the permit is given back if the
/// grace is over, and not before.
pub open spec fn is_end_of_grace(
    before: AppView,
    after: AppView,
    held: DelayedView,
    now: Duration,
    outcome: GraceOutcome,
) -> bool {
    if now@ >= held.due() {
        &&& after == before.grace_over()
        &&& outcome matches GraceOutcome::Over(record) && exists|snapshot: TrafficSnapshot|
            #[trigger]
            after.shows(snapshot) && record@ == held.trace.permit_released(
                snapshot,
                held.acquired.acquired_at,
                now,
                held.reason,
                held.grace,
            )
    } else {
        &&& after == before
        &&& outcome matches GraceOutcome::Waiting(rest) && rest@ == held
    }
}

impl DelayedRelease {
    /// How long the permit is to wait.
    pub fn grace(&self) -> (span: Duration)
        ensures
            span == self@.grace,
    {
        self.grace
    }

    /// How long the permit is still to wait.
    pub fn remaining(&self, now: Duration) -> (span: Duration)
        ensures
            span@ == saturating_difference(
                self@.grace@,
                saturating_difference(now@, self@.ended_at@),
            ),
    {
        self.grace.saturating_sub(now.saturating_sub(self.ended_at))
    }

    /// Gives the permit back, if the grace is over.
    pub fn finish(self, state: &mut AppState, now: Duration) -> (outcome: GraceOutcome)
        ensures
            is_end_of_grace(old(state)@, final(state)@, self@, now, outcome),
    {
        if !now.is_at_least(self.ended_at) || !now.saturating_sub(self.ended_at).is_at_least(
            self.grace,
        ) {
            return GraceOutcome::Waiting(self);
        }
        let acquired_at = self.acquired.acquired_at;
        give_back(self.acquired);
        state.end_grace();
        let snapshot = state.snapshot();
        GraceOutcome::Over(
            log_permit_released(&self.trace, snapshot, acquired_at, now, self.reason, self.grace),
        )
    }
}

} // verus!
