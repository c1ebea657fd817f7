//! What holds of the proxy as a whole.

use tokio::sync::OwnedSemaphorePermit;
use vstd::prelude::*;

use crate::body::{
    is_closing, is_poll, is_timer_poll, BodyStep, BodyView, FramePoll, StreamPoll,
};
use crate::config::Config;
use crate::duration::Duration;
use crate::handler::{
    answer_lines, is_acquisition, is_answer, is_receipt, is_step, HandlerAction, HandlerEvent,
    HandlerStep, Queued, QueuedView, RequestHead, SentView, UpstreamOutcome,
};
use crate::headers::{
    dropped_from_request, dropped_from_response, first_value, header_entries, is_hop_by_hop,
    without, UsageAuthView, HOP_BY_HOP,
};
use crate::log::{ReleaseReason, TraceView};
use crate::permit::{
    is_end_of_grace, release_of, AcquireOutcome, AcquiredView, DelayedView, GraceOutcome, Release,
};
use crate::reply::{queue_timeout_reply, retry_after_secs};
use crate::state::{max_permits, semaphore_size, AppView, TrafficSnapshot};
use crate::upstream::{
    is_request_target, is_skipped, is_slash, is_web, lemma_own_reference, own_reference,
    requested_target, site, url_parse,
};
use crate::usage::{moves_sample, SampleAction, SampleEvent};

verus! {

// ---------------------------------------------------------------------------
// The permits of all requests
// ---------------------------------------------------------------------------

/// Where a request stands with its permit.
pub ghost enum Stage {
    /// It waits for a permit.
    Queued,
    /// It holds a permit, and its response has not ended.
    InFlight,
    /// It is done, and its permit waits out the release grace.
    Grace,
}

/// The state together with the requests that it counts.
///
/// A client may go away before its answer has begun. Its request is dropped at
/// once, and with it the permit that it may hold; but nothing counts that, so
/// the counters go on counting it. How many there were of those is part of the
/// system.
pub ghost struct System {
    pub app: AppView,
    pub queued: Set<int>,
    pub in_flight: Set<int>,
    pub grace: Set<int>,
    /// Requests that were dropped while they waited for a permit.
    pub dropped_queued: nat,
    /// Requests that were dropped after they were sent and before upstream
    /// answered.
    pub dropped_in_flight: nat,
}

impl System {
    /// Where the request `id` stands, if it is there.
    pub open spec fn stage(self, id: int) -> Option<Stage> {
        if self.queued.contains(id) {
            Some(Stage::Queued)
        } else if self.in_flight.contains(id) {
            Some(Stage::InFlight)
        } else if self.grace.contains(id) {
            Some(Stage::Grace)
        } else {
            None
        }
    }

    /// The system after the request `id` came to stand at `stage`, in the state
    /// `app`.
    pub open spec fn moved(self, app: AppView, id: int, stage: Option<Stage>) -> System {
        System {
            app,
            queued: if stage == Some(Stage::Queued) {
                self.queued.insert(id)
            } else {
                self.queued.remove(id)
            },
            in_flight: if stage == Some(Stage::InFlight) {
                self.in_flight.insert(id)
            } else {
                self.in_flight.remove(id)
            },
            grace: if stage == Some(Stage::Grace) {
                self.grace.insert(id)
            } else {
                self.grace.remove(id)
            },
            ..self
        }
    }

    /// The system after the client of the request `id` went away before its
    /// answer had begun.
    pub open spec fn dropped(self, id: int) -> System {
        let rest = self.moved(self.app, id, None);
        match self.stage(id) {
            Some(Stage::Queued) => System { dropped_queued: self.dropped_queued + 1, ..rest },
            Some(Stage::InFlight) => System {
                dropped_in_flight: self.dropped_in_flight + 1,
                ..rest
            },
            _ => self,
        }
    }

    /// The permits that are out.
    pub open spec fn permits_out(self) -> nat {
        self.in_flight.len() + self.grace.len()
    }

    /// The permits that are left: the semaphore's count of free permits, when
    /// the permits that are out are those of the requests and nothing else.
    pub open spec fn free_permits(self) -> int {
        self.app.max_in_flight - self.permits_out()
    }

    /// The counters count the requests, with those that were dropped; each
    /// request stands at one place; and no more permits are out than the
    /// semaphore was made with.
    pub open spec fn is_accounted(self) -> bool {
        &&& self.queued.finite()
        &&& self.in_flight.finite()
        &&& self.grace.finite()
        &&& self.queued.disjoint(self.in_flight)
        &&& self.queued.disjoint(self.grace)
        &&& self.in_flight.disjoint(self.grace)
        &&& self.app.queued == self.queued.len() + self.dropped_queued
        &&& self.app.active_in_flight == self.in_flight.len() + self.dropped_in_flight
        &&& self.app.grace_pending == self.grace.len()
        &&& self.permits_out() <= self.app.max_in_flight
        &&& semaphore_size(self.app.semaphore) == self.app.max_in_flight
        &&& self.app.max_in_flight <= max_permits()
    }
}

/// Where a request stands before an event of it.
pub open spec fn stage_before(event: HandlerEvent) -> Option<Stage> {
    match event {
        HandlerEvent::Received(_) => None,
        HandlerEvent::Acquired(_, _) => Some(Stage::Queued),
        HandlerEvent::Answered(_, _) => Some(Stage::InFlight),
    }
}

/// Where a request stands after a step of it.
pub open spec fn stage_after(step: HandlerStep) -> Option<Stage> {
    match step.action {
        HandlerAction::Acquire { .. } => Some(Stage::Queued),
        HandlerAction::Send { .. } => Some(Stage::InFlight),
        HandlerAction::AnswerStream { .. } => Some(Stage::InFlight),
        HandlerAction::Answer(_) => if step.delayed is Some {
            Some(Stage::Grace)
        } else {
            None
        },
        HandlerAction::AnswerEmpty { .. } => if step.delayed is Some {
            Some(Stage::Grace)
        } else {
            None
        },
    }
}

/// What the surroundings grant to an event: its request can still be counted,
/// and the semaphore gives out no more permits than it was made with.
pub open spec fn is_possible(system: System, event: HandlerEvent) -> bool {
    match event {
        HandlerEvent::Received(_) => system.app.queued < usize::MAX,
        HandlerEvent::Acquired(_, AcquireOutcome::Granted(_)) => system.permits_out()
            < semaphore_size(system.app.semaphore) && system.app.active_in_flight < usize::MAX,
        _ => true,
    }
}

/// A proxy that starts from a usable configuration counts no request.
pub proof fn law_start_is_accounted(app: AppView, base: Seq<char>, config: Config)
    requires
        app.starts_at(base, config),
        config.throttle.max_in_flight <= max_permits(),
    ensures
        (System {
            app,
            queued: Set::empty(),
            in_flight: Set::empty(),
            grace: Set::empty(),
            dropped_queued: 0,
            dropped_in_flight: 0,
        }).is_accounted(),
{
}

/// Every step of a request keeps the requests accounted for. So no more
/// requests are in flight upstream than `max_in_flight`, whatever comes in.
pub proof fn law_steps_keep_accounts(
    system: System,
    id: int,
    after: AppView,
    event: HandlerEvent,
    now: Duration,
    step: HandlerStep,
)
    requires
        system.is_accounted(),
        system.stage(id) == stage_before(event),
        is_possible(system, event),
        is_step(system.app, after, event, now, step),
    ensures
        system.moved(after, id, stage_after(step)).is_accounted(),
        system.moved(after, id, stage_after(step)).in_flight.len() <= after.max_in_flight,
{
    let next = system.moved(after, id, stage_after(step));
    match event {
        HandlerEvent::Received(_) => {
            assert(next.in_flight =~= system.in_flight);
            assert(next.grace =~= system.grace);
        },
        HandlerEvent::Acquired(_, AcquireOutcome::Granted(_)) => {
            lemma_granted(system, id);
            let granted = system.moved(system.app.granted(), id, Some(Stage::InFlight));
            if step.action is Send {
                assert(next == granted);
            } else {
                lemma_released(granted, id, step.delayed is Some);
                assert(next.queued =~= granted.queued.remove(id));
                assert(next.in_flight =~= granted.in_flight.remove(id));
                assert(next.grace =~= granted.moved(after, id, stage_after(step)).grace);
            }
        },
        HandlerEvent::Acquired(_, _) => {
            assert(next.in_flight =~= system.in_flight);
            assert(next.grace =~= system.grace);
        },
        HandlerEvent::Answered(_, _) => {
            if step.action is AnswerStream {
                assert(next.queued =~= system.queued);
                assert(next.in_flight =~= system.in_flight);
                assert(next.grace =~= system.grace);
            } else {
                lemma_released(system, id, step.delayed is Some);
            }
        },
    }
}

/// A waiting request gets a permit.
proof fn lemma_granted(system: System, id: int)
    requires
        system.is_accounted(),
        system.stage(id) == Some(Stage::Queued),
        system.permits_out() < semaphore_size(system.app.semaphore),
        system.app.active_in_flight < usize::MAX,
    ensures
        system.moved(system.app.granted(), id, Some(Stage::InFlight)).is_accounted(),
{
    assert(system.queued.remove(id).len() < system.queued.len());
    assert(system.grace.remove(id) =~= system.grace);
}

/// The permit of a request in flight is released.
proof fn lemma_released(system: System, id: int, delayed: bool)
    requires
        system.is_accounted(),
        system.stage(id) == Some(Stage::InFlight),
        delayed == (system.app.release_grace@ != 0),
    ensures
        system.moved(
            system.app.released(),
            id,
            if delayed {
                Some(Stage::Grace)
            } else {
                None
            },
        ).is_accounted(),
{
    assert(system.in_flight.remove(id).len() < system.in_flight.len());
    assert(system.queued.remove(id) =~= system.queued);
    assert(system.grace.remove(id) =~= system.grace);
}

/// Where a request stands after the end of its release grace was looked at.
pub open spec fn stage_of_grace(outcome: GraceOutcome) -> Option<Stage> {
    match outcome {
        GraceOutcome::Over(_) => None,
        GraceOutcome::Waiting(_) => Some(Stage::Grace),
    }
}

/// A permit that waits out the release grace, and is given back after it, keeps
/// the requests accounted for.
pub proof fn law_end_of_grace_keeps_accounts(
    system: System,
    id: int,
    after: AppView,
    held: DelayedView,
    now: Duration,
    outcome: GraceOutcome,
)
    requires
        system.is_accounted(),
        system.stage(id) == Some(Stage::Grace),
        is_end_of_grace(system.app, after, held, now, outcome),
    ensures
        system.moved(after, id, stage_of_grace(outcome)).is_accounted(),
{
    assert(system.queued.remove(id) =~= system.queued);
    assert(system.in_flight.remove(id) =~= system.in_flight);
    if outcome is Over {
        assert(system.grace.remove(id).len() < system.grace.len());
    } else {
        assert(system.grace.insert(id) =~= system.grace);
    }
}

/// A client that goes away before its answer has begun, at whatever point,
/// leaves the requests accounted for: its permit, if it had one, is no longer
/// out.
pub proof fn law_drops_keep_accounts(system: System, id: int)
    requires
        system.is_accounted(),
        system.stage(id) == Some(Stage::Queued) || system.stage(id) == Some(Stage::InFlight),
    ensures
        system.dropped(id).is_accounted(),
        system.dropped(id).app == system.app,
        system.dropped(id).permits_out() == system.permits_out() - (if system.stage(id) == Some(
            Stage::InFlight,
        ) {
            1int
        } else {
            0
        }),
{
    assert(system.grace.remove(id) =~= system.grace);
    if system.stage(id) == Some(Stage::Queued) {
        assert(system.queued.remove(id).len() < system.queued.len());
        assert(system.in_flight.remove(id) =~= system.in_flight);
    } else {
        assert(system.in_flight.remove(id).len() < system.in_flight.len());
        assert(system.queued.remove(id) =~= system.queued);
    }
}

/// When no request is left, no permit is out: no permit leaks. The counters are
/// then 0, but for the requests that were dropped before their answer.
pub proof fn law_no_permit_leaks(system: System)
    requires
        system.is_accounted(),
        forall|id: int| system.stage(id) is None,
    ensures
        system.permits_out() == 0,
        system.app.queued == system.dropped_queued,
        system.app.active_in_flight == system.dropped_in_flight,
        system.app.grace_pending == 0,
{
    assert forall|id: int| !system.queued.contains(id) && !system.in_flight.contains(id)
        && !system.grace.contains(id) by {
        assert(system.stage(id) is None);
    }
    assert(system.queued =~= Set::empty());
    assert(system.in_flight =~= Set::empty());
    assert(system.grace =~= Set::empty());
}

// ---------------------------------------------------------------------------
// The permit of one response
// ---------------------------------------------------------------------------

/// Where the request of a response stands after its body came to be `next`,
/// when a permit waits out the release grace where `delayed` says so.
pub open spec fn stage_of_body(next: BodyView, delayed: bool) -> Option<Stage> {
    if next.permit is Some {
        Some(Stage::InFlight)
    } else if delayed {
        Some(Stage::Grace)
    } else {
        None
    }
}

/// Every poll of a response that holds its permit keeps the requests accounted
/// for.
pub proof fn law_polls_keep_accounts<C, E>(
    system: System,
    id: int,
    after: AppView,
    body: BodyView,
    next: BodyView,
    polled: StreamPoll<C, E>,
    now: Duration,
    step: BodyStep<C, E>,
)
    requires
        system.is_accounted(),
        system.stage(id) == Some(Stage::InFlight),
        body.permit is Some,
        is_poll(system.app, after, body, next, polled, now, step),
    ensures
        system.moved(after, id, stage_of_body(next, step.delayed is Some)).is_accounted(),
{
    if next.permit is Some {
        lemma_unmoved(system, id);
    } else {
        lemma_released(system, id, step.delayed is Some);
    }
}

/// Every answer of the idle timer to a response that holds its permit keeps the
/// requests accounted for.
pub proof fn law_timer_polls_keep_accounts<C, E>(
    system: System,
    id: int,
    after: AppView,
    body: BodyView,
    next: BodyView,
    fired: bool,
    now: Duration,
    step: BodyStep<C, E>,
)
    requires
        system.is_accounted(),
        system.stage(id) == Some(Stage::InFlight),
        body.permit is Some,
        is_timer_poll(system.app, after, body, next, fired, now, step),
    ensures
        system.moved(after, id, stage_of_body(next, step.delayed is Some)).is_accounted(),
{
    if next.permit is Some {
        lemma_unmoved(system, id);
    } else {
        lemma_released(system, id, step.delayed is Some);
    }
}

/// Closing a response that holds its permit, when the client goes away, keeps
/// the requests accounted for.
pub proof fn law_closing_keeps_accounts(
    system: System,
    id: int,
    after: AppView,
    body: BodyView,
    next: BodyView,
    now: Duration,
    release: Option<Release>,
)
    requires
        system.is_accounted(),
        system.stage(id) == Some(Stage::InFlight),
        body.permit is Some,
        is_closing(system.app, after, body, next, now, release),
    ensures
        next.permit is None,
        release is Some,
        system.moved(
            after,
            id,
            stage_of_body(next, release->0.delayed is Some),
        ).is_accounted(),
{
    lemma_released(system, id, release->0.delayed is Some);
}

/// A request in flight stays so.
proof fn lemma_unmoved(system: System, id: int)
    requires
        system.is_accounted(),
        system.stage(id) == Some(Stage::InFlight),
    ensures
        system.moved(system.app, id, Some(Stage::InFlight)) == system,
{
    let same = system.moved(system.app, id, Some(Stage::InFlight));
    assert(same.queued =~= system.queued);
    assert(same.in_flight =~= system.in_flight);
    assert(same.grace =~= system.grace);
}

// ---------------------------------------------------------------------------
// Any number of requests at the same time
// ---------------------------------------------------------------------------

/// Something that happens to one request.
pub ghost enum Move<C, E> {
    /// A step from its arrival to its answer.
    Step { event: HandlerEvent, now: Duration, step: HandlerStep },
    /// A poll of its response.
    Poll {
        body: BodyView,
        next: BodyView,
        polled: StreamPoll<C, E>,
        now: Duration,
        step: BodyStep<C, E>,
    },
    /// An answer of the idle timer to its response.
    Timer { body: BodyView, next: BodyView, fired: bool, now: Duration, step: BodyStep<C, E> },
    /// Its response is closed.
    Close { body: BodyView, next: BodyView, now: Duration, release: Option<Release> },
    /// The end of its release grace is looked at.
    Grace { held: DelayedView, now: Duration, outcome: GraceOutcome },
    /// Its client goes away before the answer has begun.
    Drop,
}

impl<C, E> Move<C, E> {
    /// The move takes the request `id`, and with it the system, from one place
    /// to another.
    pub open spec fn leads(self, id: int, from: System, to: System) -> bool {
        match self {
            Move::Step { event, now, step } => {
                &&& from.stage(id) == stage_before(event)
                &&& is_possible(from, event)
                &&& is_step(from.app, to.app, event, now, step)
                &&& to == from.moved(to.app, id, stage_after(step))
            },
            Move::Poll { body, next, polled, now, step } => {
                &&& from.stage(id) == Some(Stage::InFlight)
                &&& body.permit is Some
                &&& is_poll(from.app, to.app, body, next, polled, now, step)
                &&& to == from.moved(to.app, id, stage_of_body(next, step.delayed is Some))
            },
            Move::Timer { body, next, fired, now, step } => {
                &&& from.stage(id) == Some(Stage::InFlight)
                &&& body.permit is Some
                &&& is_timer_poll(from.app, to.app, body, next, fired, now, step)
                &&& to == from.moved(to.app, id, stage_of_body(next, step.delayed is Some))
            },
            Move::Close { body, next, now, release } => {
                &&& from.stage(id) == Some(Stage::InFlight)
                &&& body.permit is Some
                &&& is_closing(from.app, to.app, body, next, now, release)
                &&& to == from.moved(
                    to.app,
                    id,
                    stage_of_body(next, release->0.delayed is Some),
                )
            },
            Move::Grace { held, now, outcome } => {
                &&& from.stage(id) == Some(Stage::Grace)
                &&& is_end_of_grace(from.app, to.app, held, now, outcome)
                &&& to == from.moved(to.app, id, stage_of_grace(outcome))
            },
            Move::Drop => {
                &&& from.stage(id) == Some(Stage::Queued) || from.stage(id) == Some(
                    Stage::InFlight,
                )
                &&& to == from.dropped(id)
            },
        }
    }
}

/// A run of the proxy: the system at each moment, and between two moments the
/// request that moves and what happens to it.
pub open spec fn is_run<C, E>(systems: Seq<System>, moves: Seq<(int, Move<C, E>)>) -> bool {
    &&& systems.len() == moves.len() + 1
    &&& forall|i: int|
        0 <= i < moves.len() ==> (#[trigger] moves[i]).1.leads(
            moves[i].0,
            systems[i],
            systems[i + 1],
        )
}

/// A move keeps the requests accounted for, and the limit as it is.
proof fn lemma_move<C, E>(taken: Move<C, E>, id: int, from: System, to: System)
    requires
        from.is_accounted(),
        taken.leads(id, from, to),
    ensures
        to.is_accounted(),
        to.app.max_in_flight == from.app.max_in_flight,
{
    match taken {
        Move::Step { event, now, step } => {
            law_steps_keep_accounts(from, id, to.app, event, now, step);
        },
        Move::Poll { body, next, polled, now, step } => {
            law_polls_keep_accounts(from, id, to.app, body, next, polled, now, step);
        },
        Move::Timer { body, next, fired, now, step } => {
            law_timer_polls_keep_accounts(from, id, to.app, body, next, fired, now, step);
        },
        Move::Close { body, next, now, release } => {
            law_closing_keeps_accounts(from, id, to.app, body, next, now, release);
        },
        Move::Grace { held, now, outcome } => {
            law_end_of_grace_keeps_accounts(from, id, to.app, held, now, outcome);
        },
        Move::Drop => {
            law_drops_keep_accounts(from, id);
        },
    }
}

/// At every moment, whatever comes in and in whatever order things happen, no
/// more requests are in flight upstream than `max_in_flight`, and no more
/// permits are out: as long as the semaphore gives out no more than it was made
/// with, which is the semaphore's part.
pub proof fn law_limit_holds_at_every_moment<C, E>(
    systems: Seq<System>,
    moves: Seq<(int, Move<C, E>)>,
    i: int,
)
    requires
        is_run(systems, moves),
        systems[0].is_accounted(),
        0 <= i < systems.len(),
    ensures
        systems[i].is_accounted(),
        systems[i].app.max_in_flight == systems[0].app.max_in_flight,
        systems[i].in_flight.len() <= systems[0].app.max_in_flight,
        systems[i].permits_out() <= systems[0].app.max_in_flight,
    decreases i,
{
    if i > 0 {
        law_limit_holds_at_every_moment(systems, moves, i - 1);
        assert(moves[i - 1].1.leads(moves[i - 1].0, systems[i - 1], systems[i - 1 + 1]));
        lemma_move(moves[i - 1].1, moves[i - 1].0, systems[i - 1], systems[i]);
    }
}

/// The permit of a request comes back on every path: when a request came in and
/// is gone, and no other request moved meanwhile, as many permits are left as
/// before.
pub proof fn law_permit_comes_back<C, E>(
    systems: Seq<System>,
    moves: Seq<(int, Move<C, E>)>,
    id: int,
)
    requires
        is_run(systems, moves),
        systems[0].is_accounted(),
        forall|i: int| 0 <= i < moves.len() ==> (#[trigger] moves[i]).0 == id,
        systems[0].stage(id) is None,
        systems.last().stage(id) is None,
    ensures
        systems.last().free_permits() == systems[0].free_permits(),
{
    let end = systems.len() - 1;
    law_limit_holds_at_every_moment(systems, moves, end);
    lemma_others_stay(systems, moves, id, end);
    let last = systems[end];
    assert(last.in_flight =~= last.in_flight.remove(id));
    assert(last.grace =~= last.grace.remove(id));
    assert(systems[0].in_flight =~= systems[0].in_flight.remove(id));
    assert(systems[0].grace =~= systems[0].grace.remove(id));
}

/// The moves of one request leave the others where they are.
proof fn lemma_others_stay<C, E>(
    systems: Seq<System>,
    moves: Seq<(int, Move<C, E>)>,
    id: int,
    i: int,
)
    requires
        is_run(systems, moves),
        forall|k: int| 0 <= k < moves.len() ==> (#[trigger] moves[k]).0 == id,
        0 <= i < systems.len(),
    ensures
        systems[i].in_flight.remove(id) == systems[0].in_flight.remove(id),
        systems[i].grace.remove(id) == systems[0].grace.remove(id),
    decreases i,
{
    if i > 0 {
        lemma_others_stay(systems, moves, id, i - 1);
        let from = systems[i - 1];
        let to = systems[i];
        assert(moves[i - 1].1.leads(moves[i - 1].0, systems[i - 1], systems[i - 1 + 1]));
        assert(to.in_flight.remove(id) =~= from.in_flight.remove(id));
        assert(to.grace.remove(id) =~= from.grace.remove(id));
    }
}

/// When all permits are out, no request gets one before another gives its own
/// back.
pub proof fn law_full_proxy_grants_nothing(
    system: System,
    queued: Queued,
    permit: OwnedSemaphorePermit,
)
    requires
        system.is_accounted(),
        system.free_permits() == 0,
    ensures
        !is_possible(system, HandlerEvent::Acquired(queued, AcquireOutcome::Granted(permit))),
{
}

/// The numbers of a snapshot add up. The free and the held permits are
/// `max_in_flight` together. When the free permits are those that the requests
/// leave, the held ones are those in flight and those in grace, but for the
/// requests that were dropped before their answer.
pub proof fn law_snapshot_adds_up(system: System, snapshot: TrafficSnapshot)
    requires
        system.is_accounted(),
        system.app.shows(snapshot),
    ensures
        snapshot.available_permits <= system.app.max_in_flight ==> snapshot.available_permits
            + snapshot.held_permits == system.app.max_in_flight,
        snapshot.available_permits == system.free_permits() ==> snapshot.held_permits
            + system.dropped_in_flight == snapshot.active_in_flight + snapshot.grace_pending,
        system.dropped_in_flight == 0 ==> snapshot.active_in_flight + snapshot.grace_pending
            <= system.app.max_in_flight,
{
}

/// A permit is given back no sooner than the release grace after its request
/// was done, and at the first look after that.
pub proof fn law_grace_is_waited_out(
    app: AppView,
    trace: TraceView,
    acquired: AcquiredView,
    reason: ReleaseReason,
    ended_at: Duration,
    snapshot: TrafficSnapshot,
    before: AppView,
    after: AppView,
    held: DelayedView,
    now: Duration,
    outcome: GraceOutcome,
)
    requires
        release_of(app, trace, acquired, reason, ended_at, snapshot).delayed == Some(held),
        is_end_of_grace(before, after, held, now, outcome),
    ensures
        held.acquired == acquired,
        outcome is Over <==> now@ >= ended_at@ + app.release_grace@,
{
}

/// The release grace delays the permit and not the response: the client gets
/// the end of the body in the same poll in which the grace begins.
pub proof fn law_grace_does_not_delay_the_response<C, E>(
    before: AppView,
    after: AppView,
    body: BodyView,
    next: BodyView,
    now: Duration,
    step: BodyStep<C, E>,
)
    requires
        is_poll(before, after, body, next, StreamPoll::End, now, step),
        body.permit is Some,
    ensures
        step.frame == FramePoll::<C, E>::End,
        step.delayed is Some <==> before.release_grace@ > 0,
        step.delayed matches Some(held) ==> held@.ended_at == now && held@.grace
            == before.release_grace && Some(held@.acquired.permit) == body.permit,
{
}

// ---------------------------------------------------------------------------
// The body of one response
// ---------------------------------------------------------------------------

/// What a body is told.
pub ghost enum BodyInput {
    Chunk,
    Failed,
    End,
    Pending,
    TimerFired,
    TimerQuiet,
    Closed,
}

impl BodyInput {
    /// The body is over with this.
    pub open spec fn is_last(self) -> bool {
        self is Failed || self is End || self is TimerFired || self is Closed
    }

    /// What a poll of the upstream stream tells the body.
    pub open spec fn of_poll<C, E>(polled: StreamPoll<C, E>) -> BodyInput {
        match polled {
            StreamPoll::Chunk(_) => BodyInput::Chunk,
            StreamPoll::Failed(_, _) => BodyInput::Failed,
            StreamPoll::End => BodyInput::End,
            StreamPoll::Pending => BodyInput::Pending,
        }
    }
}

/// The body after it was told `input`.
pub open spec fn body_after(body: BodyView, input: BodyInput) -> BodyView {
    match input {
        BodyInput::Chunk => body.after_data(),
        BodyInput::Failed => body.after_release(ReleaseReason::StreamError),
        BodyInput::End => body.after_release(ReleaseReason::Complete),
        BodyInput::Pending => body.after_pending(),
        BodyInput::TimerFired => body.after_release(ReleaseReason::IdleTimeout),
        BodyInput::TimerQuiet => body,
        BodyInput::Closed => body.after_release(body.release_reason),
    }
}

/// The body after it was told all of `inputs`.
pub open spec fn body_after_all(body: BodyView, inputs: Seq<BodyInput>) -> BodyView
    decreases inputs.len(),
{
    if inputs.len() == 0 {
        body
    } else {
        body_after(body_after_all(body, inputs.drop_last()), inputs.last())
    }
}

/// How often a permit is released while the body is told `inputs`: a release is
/// an input before which the body holds its permit and after which it does not.
pub open spec fn releases_during(body: BodyView, inputs: Seq<BodyInput>) -> nat
    decreases inputs.len(),
{
    if inputs.len() == 0 {
        0
    } else {
        let before = body_after_all(body, inputs.drop_last());
        releases_during(body, inputs.drop_last()) + if before.permit is Some && body_after(
            before,
            inputs.last(),
        ).permit is None {
            1nat
        } else {
            0
        }
    }
}

/// The body does what [`body_after`] says at every poll, answer of the timer
/// and closing.
pub proof fn law_body_follows_its_inputs<C, E>(
    before: AppView,
    after: AppView,
    body: BodyView,
    next: BodyView,
    polled: StreamPoll<C, E>,
    fired: bool,
    now: Duration,
    step: BodyStep<C, E>,
    release: Option<Release>,
)
    ensures
        is_poll(before, after, body, next, polled, now, step) ==> next == body_after(
            body,
            BodyInput::of_poll(polled),
        ),
        is_timer_poll(before, after, body, next, fired, now, step) ==> next == body_after(
            body,
            if fired {
                BodyInput::TimerFired
            } else {
                BodyInput::TimerQuiet
            },
        ),
        is_closing(before, after, body, next, now, release) ==> next == body_after(
            body,
            BodyInput::Closed,
        ),
{
}

/// The permit of a response is released exactly once, on every path: at the end
/// of the stream, on its error, on the idle timeout, or when the client goes
/// away, whichever comes first, and never before that.
pub proof fn law_permit_is_released_once(body: BodyView, inputs: Seq<BodyInput>)
    requires
        body.permit is Some,
    ensures
        releases_during(body, inputs) == (if exists|i: int|
            0 <= i < inputs.len() && (#[trigger] inputs[i]).is_last() {
            1nat
        } else {
            0
        }),
        body_after_all(body, inputs).permit is None <==> exists|i: int|
            0 <= i < inputs.len() && (#[trigger] inputs[i]).is_last(),
    decreases inputs.len(),
{
    if inputs.len() > 0 {
        let rest = inputs.drop_last();
        law_permit_is_released_once(body, rest);
        if exists|i: int| 0 <= i < rest.len() && (#[trigger] rest[i]).is_last() {
            let i = choose|i: int| 0 <= i < rest.len() && (#[trigger] rest[i]).is_last();
            assert(inputs[i].is_last());
        } else {
            assert forall|i: int| 0 <= i < inputs.len() - 1 implies !(
            #[trigger] inputs[i]).is_last() by {
                assert(rest[i] == inputs[i]);
            }
            assert(inputs.last() == inputs[inputs.len() - 1]);
        }
    }
}

/// The idle timer is made once for a response, when the stream first goes
/// pending. It runs exactly if the stream was pending since the last data: it is
/// armed when the stream goes pending after data, and not again before the next
/// data.
pub proof fn law_idle_timer_runs_while_pending(
    acquired: AcquiredView,
    body: BodyView,
    inputs: Seq<BodyInput>,
)
    requires
        body == BodyView::fresh(acquired, body.trace, body.idle_timeout),
    ensures
        body_after_all(body, inputs).idle_timer_made <==> exists|i: int|
            0 <= i < inputs.len() && (#[trigger] inputs[i]) is Pending,
        body_after_all(body, inputs).idle_timer_armed <==> was_pending_since_data(inputs),
    decreases inputs.len(),
{
    if inputs.len() > 0 {
        let rest = inputs.drop_last();
        let last = inputs.len() - 1;
        law_idle_timer_runs_while_pending(acquired, body, rest);
        assert(inputs.last() == inputs[last]);
        assert forall|i: int| 0 <= i < last implies #[trigger] inputs[i] == rest[i] by {}
        if exists|i: int| 0 <= i < rest.len() && (#[trigger] rest[i]) is Pending {
            let i = choose|i: int| 0 <= i < rest.len() && (#[trigger] rest[i]) is Pending;
            assert(inputs[i] is Pending);
        }
        if was_pending_since_data(rest) && !(inputs.last() is Chunk) {
            let i = choose|i: int|
                0 <= i < rest.len() && (#[trigger] rest[i]) is Pending && no_data_after(rest, i);
            assert(inputs[i] is Pending && no_data_after(inputs, i));
        }
        if was_pending_since_data(inputs) && !(inputs.last() is Pending) {
            let i = choose|i: int|
                0 <= i < inputs.len() && (#[trigger] inputs[i]) is Pending && no_data_after(
                    inputs,
                    i,
                );
            assert(rest[i] is Pending && no_data_after(rest, i));
        }
    }
}

/// No data came after the input at `i`.
pub open spec fn no_data_after(inputs: Seq<BodyInput>, i: int) -> bool {
    forall|j: int| i < j < inputs.len() ==> !((#[trigger] inputs[j]) is Chunk)
}

/// The stream was pending, and no data came since.
pub open spec fn was_pending_since_data(inputs: Seq<BodyInput>) -> bool {
    exists|i: int|
        0 <= i < inputs.len() && (#[trigger] inputs[i]) is Pending && no_data_after(inputs, i)
}

/// The permit that a request was granted is the permit that its response holds.
pub proof fn law_permit_travels_with_request(
    before: AppView,
    sending: AppView,
    answering: AppView,
    after: AppView,
    queued: QueuedView,
    permit: OwnedSemaphorePermit,
    outcome: UpstreamOutcome,
    granted_at: Duration,
    answered_at: Duration,
    first: HandlerStep,
    second: HandlerStep,
)
    requires
        is_acquisition(
            before,
            sending,
            queued,
            AcquireOutcome::Granted(permit),
            granted_at,
            first,
        ),
        first.action is Send,
        is_answer(
            answering,
            after,
            first.action->sent@,
            outcome,
            answered_at,
            second,
        ),
        second.action is AnswerStream,
    ensures
        second.action->body@.permit == Some(permit),
        second.action->body@.acquired_at == granted_at,
        second.action->body@.trace == queued.trace,
{
}

// ---------------------------------------------------------------------------
// Where requests go
// ---------------------------------------------------------------------------

/// The reference that a path is joined as begins with one slash: it names no
/// host of its own. A path that begins with one slash is joined as it is.
pub proof fn law_path_names_no_host(target: Seq<char>)
    requires
        target.len() > 0,
        target[0] == '/',
    ensures
        own_reference(target)[0] == '/',
        own_reference(target).len() > 1 ==> !is_slash(own_reference(target)[1]) && !is_skipped(
            own_reference(target)[1],
        ),
        target.len() == 1 || !is_slash(target[1]) && !is_skipped(target[1]) ==> own_reference(
            target,
        ) == target,
{
    reveal_strlit("/.");
    lemma_own_reference(target);
}

/// Whatever a client asks for, its request, and with it its credentials, goes
/// to the scheme, host and port of the base URL and to no other.
pub proof fn law_requests_stay_upstream(
    before: AppView,
    after: AppView,
    queued: QueuedView,
    outcome: AcquireOutcome,
    now: Duration,
    step: HandlerStep,
    base: Seq<char>,
)
    requires
        is_acquisition(before, after, queued, outcome, now, step),
        step.action is Send,
        url_parse(before.upstream_base) == Some(base),
        is_web(base),
        is_request_target(requested_target(queued.target)),
    ensures
        is_web(step.action->url@),
        site(step.action->url@) == site(base),
{
}

/// A usage sample goes, with the credentials of its request, to the scheme,
/// host and port of the base URL and to no other.
pub proof fn law_samples_stay_upstream(
    app: AppView,
    event: SampleEvent,
    now: Duration,
    action: SampleAction,
    base: Seq<char>,
)
    requires
        moves_sample(app, event, now, action),
        action is Fetch,
        url_parse(app.upstream_base) == Some(base),
        is_web(base),
    ensures
        is_web(action->url@),
        site(action->url@) == site(base),
{
    reveal_strlit("/v1/usage");
}

/// A request is sent to upstream with the method that it came with, and with
/// the headers that it came with but for those that are dropped.
pub proof fn law_requests_are_forwarded_as_received(
    before: AppView,
    waiting: AppView,
    granting: AppView,
    after: AppView,
    head: RequestHead,
    outcome: AcquireOutcome,
    received_at: Duration,
    now: Duration,
    first: HandlerStep,
    second: HandlerStep,
)
    requires
        is_receipt(before, waiting, head, received_at, first),
        is_acquisition(granting, after, first.action->queued@, outcome, now, second),
        second.action is Send,
    ensures
        second.action->method@ == head.method@,
        header_entries(second.action->Send_headers) == without(
            header_entries(head.headers),
            |n: Seq<char>| dropped_from_request(n),
        ),
{
}

// ---------------------------------------------------------------------------
// What the client gets
// ---------------------------------------------------------------------------

/// The chunks among the polls of an upstream stream.
pub open spec fn chunks_of<C, E>(polls: Seq<StreamPoll<C, E>>) -> Seq<C>
    decreases polls.len(),
{
    if polls.len() == 0 {
        Seq::empty()
    } else {
        match polls.last() {
            StreamPoll::Chunk(chunk) => chunks_of(polls.drop_last()).push(chunk),
            _ => chunks_of(polls.drop_last()),
        }
    }
}

/// The chunks among the frames of a body.
pub open spec fn data_of<C, E>(frames: Seq<FramePoll<C, E>>) -> Seq<C>
    decreases frames.len(),
{
    if frames.len() == 0 {
        Seq::empty()
    } else {
        match frames.last() {
            FramePoll::Data(chunk) => data_of(frames.drop_last()).push(chunk),
            _ => data_of(frames.drop_last()),
        }
    }
}

/// The frame is what some poll of a body came to.
pub open spec fn is_frame_of<C, E>(polled: StreamPoll<C, E>, frame: FramePoll<C, E>) -> bool {
    exists|
        before: AppView,
        after: AppView,
        body: BodyView,
        next: BodyView,
        now: Duration,
        step: BodyStep<C, E>,
    |
        #[trigger] is_poll(before, after, body, next, polled, now, step) && step.frame == frame
}

/// The client gets the chunks of upstream, all of them, unchanged and in order.
pub proof fn law_stream_is_handed_on<C, E>(
    polls: Seq<StreamPoll<C, E>>,
    frames: Seq<FramePoll<C, E>>,
)
    requires
        polls.len() == frames.len(),
        forall|i: int| 0 <= i < polls.len() ==> is_frame_of(#[trigger] polls[i], frames[i]),
    ensures
        data_of(frames) == chunks_of(polls),
    decreases polls.len(),
{
    if polls.len() > 0 {
        let earlier = polls.drop_last();
        assert forall|i: int| 0 <= i < earlier.len() implies is_frame_of(
            #[trigger] earlier[i],
            frames.drop_last()[i],
        ) by {
            assert(is_frame_of(polls[i], frames[i]));
        }
        law_stream_is_handed_on(earlier, frames.drop_last());
        assert(is_frame_of(polls[polls.len() - 1], frames[frames.len() - 1]));
    }
}

/// The status that a step answers the client with.
pub open spec fn answered_status(action: HandlerAction) -> Option<u16> {
    match action {
        HandlerAction::Answer(reply) => Some(reply.status),
        HandlerAction::AnswerEmpty { status, .. } => Some(status),
        HandlerAction::AnswerStream { status, .. } => Some(status),
        _ => None,
    }
}

/// The status that upstream answered with, if that is what happened.
pub open spec fn upstream_status(event: HandlerEvent) -> Option<u16> {
    match event {
        HandlerEvent::Answered(_, UpstreamOutcome::Response { status, .. }) => Some(status),
        _ => None,
    }
}

/// The client gets upstream's status where there is one. Otherwise it gets 502
/// or 503, and so never a 429 that upstream did not give.
pub proof fn law_status_is_handed_on(
    before: AppView,
    after: AppView,
    event: HandlerEvent,
    now: Duration,
    step: HandlerStep,
)
    requires
        is_step(before, after, event, now, step),
    ensures
        upstream_status(event) is Some ==> answered_status(step.action) == upstream_status(event),
        upstream_status(event) is None && answered_status(step.action) is Some ==> answered_status(
            step.action,
        ) == Some(502u16) || answered_status(step.action) == Some(503u16),
        answered_status(step.action) == Some(429u16) ==> upstream_status(event) == Some(429u16),
{
    match event {
        HandlerEvent::Acquired(_, _) => {
            if let HandlerAction::Answer(reply) = step.action {
                assert(reply@.status == reply.status);
            }
        },
        HandlerEvent::Answered(_, _) => {
            if let HandlerAction::Answer(reply) = step.action {
                assert(reply@.status == reply.status);
            }
        },
        _ => {},
    }
}

/// A client that got no permit is told to wait for at least a second, and for
/// no longer than the queue would have held it, to the second.
pub proof fn law_retry_after_is_sensible(max_wait: Duration)
    ensures
        queue_timeout_reply(max_wait).retry_after is Some,
        retry_after_secs(max_wait) >= 1,
        retry_after_secs(max_wait) > 1 ==> retry_after_secs(max_wait) * 1_000_000_000 <= max_wait@,
{
}

// ---------------------------------------------------------------------------
// Headers
// ---------------------------------------------------------------------------

/// A header is forwarded exactly if it is none of those that are dropped, and
/// with all of its values; the same of a response. No hop-by-hop header passes
/// in either direction.
pub proof fn law_other_headers_pass(entries: Map<Seq<char>, Seq<Seq<u8>>>, name: Seq<char>)
    ensures
        ({
            let forwarded = without(entries, |n: Seq<char>| dropped_from_request(n));
            let handed_on = without(entries, |n: Seq<char>| dropped_from_response(n));
            &&& forwarded.contains_key(name) <==> entries.contains_key(name)
                && !dropped_from_request(name)
            &&& handed_on.contains_key(name) <==> entries.contains_key(name)
                && !dropped_from_response(name)
            &&& forwarded.contains_key(name) ==> forwarded[name] == entries[name]
            &&& handed_on.contains_key(name) ==> handed_on[name] == entries[name]
            &&& is_hop_by_hop(name) ==> !forwarded.contains_key(name) && !handed_on.contains_key(
                name,
            )
        }),
{
}

/// Stripping headers that were stripped before changes nothing.
pub proof fn law_stripping_is_idempotent(entries: Map<Seq<char>, Seq<Seq<u8>>>)
    ensures
        ({
            let forwarded = without(entries, |n: Seq<char>| dropped_from_request(n));
            without(forwarded, |n: Seq<char>| dropped_from_request(n)) == forwarded
        }),
        ({
            let handed_on = without(entries, |n: Seq<char>| dropped_from_response(n));
            without(handed_on, |n: Seq<char>| dropped_from_response(n)) == handed_on
        }),
{
    let forwarded = without(entries, |n: Seq<char>| dropped_from_request(n));
    assert(without(forwarded, |n: Seq<char>| dropped_from_request(n)) =~= forwarded);
    let handed_on = without(entries, |n: Seq<char>| dropped_from_response(n));
    assert(without(handed_on, |n: Seq<char>| dropped_from_response(n)) =~= handed_on);
}

/// The lengths of the hop-by-hop names.
proof fn lemma_lengths_of_hop_by_hop_names(name: Seq<char>)
    requires
        is_hop_by_hop(name),
    ensures
        name.len() == 10 || name.len() == 18 || name.len() == 19 || name.len() == 2 || name.len()
            == 8 || name.len() == 17 || name.len() == 7,
{
    reveal_strlit("connection");
    reveal_strlit("keep-alive");
    reveal_strlit("proxy-authenticate");
    reveal_strlit("proxy-authorization");
    reveal_strlit("te");
    reveal_strlit("trailers");
    reveal_strlit("transfer-encoding");
    reveal_strlit("upgrade");
    let i = choose|i: int| 0 <= i < HOP_BY_HOP@.len() && #[trigger] HOP_BY_HOP@[i]@ == name;
    assert(i == 0 || i == 1 || i == 2 || i == 3 || i == 4 || i == 5 || i == 6 || i == 7);
}

/// The credentials of a request are forwarded untouched, and a usage sample is
/// taken with those same credentials.
pub proof fn law_credentials_are_forwarded(entries: Map<Seq<char>, Seq<Seq<u8>>>)
    ensures
        ({
            let forwarded = without(entries, |n: Seq<char>| dropped_from_request(n));
            &&& forwarded.contains_key("authorization"@) == entries.contains_key("authorization"@)
            &&& entries.contains_key("authorization"@) ==> forwarded["authorization"@]
                == entries["authorization"@]
            &&& forwarded.contains_key("x-api-key"@) == entries.contains_key("x-api-key"@)
            &&& entries.contains_key("x-api-key"@) ==> forwarded["x-api-key"@]
                == entries["x-api-key"@]
            &&& UsageAuthView::of_request(forwarded) == UsageAuthView::of_request(entries)
        }),
{
    reveal_strlit("authorization");
    reveal_strlit("x-api-key");
    reveal_strlit("host");
    reveal_strlit("content-length");
    if is_hop_by_hop("authorization"@) {
        lemma_lengths_of_hop_by_hop_names("authorization"@);
    }
    if is_hop_by_hop("x-api-key"@) {
        lemma_lengths_of_hop_by_hop_names("x-api-key"@);
    }
    assert("host"@.len() == 4);
    assert("content-length"@.len() == 14);
    assert(!dropped_from_request("authorization"@));
    assert(!dropped_from_request("x-api-key"@));
}

/// A response keeps its `content-length`; a request is forwarded without it and
/// without `host`.
pub proof fn law_content_length_is_kept_in_responses(entries: Map<Seq<char>, Seq<Seq<u8>>>)
    ensures
        first_value(
            without(entries, |n: Seq<char>| dropped_from_response(n)),
            "content-length"@,
        ) == first_value(entries, "content-length"@),
        first_value(
            without(entries, |n: Seq<char>| dropped_from_request(n)),
            "content-length"@,
        ) is None,
        first_value(without(entries, |n: Seq<char>| dropped_from_request(n)), "host"@) is None,
{
    reveal_strlit("content-length");
    if is_hop_by_hop("content-length"@) {
        lemma_lengths_of_hop_by_hop_names("content-length"@);
    }
}

// ---------------------------------------------------------------------------
// The log
// ---------------------------------------------------------------------------

/// What is logged of an answer does not depend on the credentials of the
/// request, but for whether there are any: no key shows in the log.
pub proof fn law_log_shows_no_credential(
    app: AppView,
    sent: SentView,
    auth: UsageAuthView,
    status: u16,
    entries: Map<Seq<char>, Seq<Seq<u8>>>,
    now: Duration,
    on_headers: TrafficSnapshot,
    on_skip: TrafficSnapshot,
)
    requires
        auth.is_empty() == sent.auth.is_empty(),
    ensures
        answer_lines(app, sent, status, entries, now, on_headers, on_skip) == answer_lines(
            app,
            SentView { auth, ..sent },
            status,
            entries,
            now,
            on_headers,
            on_skip,
        ),
{
}

/// The state after `n` requests were numbered.
pub open spec fn numbered_times(app: AppView, n: nat) -> AppView
    decreases n,
{
    if n == 0 {
        app
    } else {
        numbered_times(app, (n - 1) as nat).numbered()
    }
}

/// Requests are numbered from 1 on, one after the other: no two of the first
/// 2^64 - 1 requests have the same id.
pub proof fn law_request_ids_count_up(app: AppView, n: nat)
    requires
        app.next_request_id == 1,
        n < u64::MAX,
    ensures
        numbered_times(app, n).next_request_id == n + 1,
    decreases n,
{
    if n > 0 {
        law_request_ids_count_up(app, (n - 1) as nat);
    }
}

} // verus!
