//! The shared state of the proxy: its settings, its semaphore and its counters.

use std::sync::Arc;

use tokio::sync::Semaphore;
use vstd::prelude::*;

use crate::config::{Config, UsageSampling};
use crate::duration::Duration;
use crate::upstream::parse_base;
#[allow(unused_imports)]
use crate::upstream::{trimmed, upstream_base};

verus! {

// ---------------------------------------------------------------------------
// The semaphore
// ---------------------------------------------------------------------------

/// tokio's semaphore. It is both the concurrency counter and the wait queue: a
/// permit of it is held for as long as an upstream request is in flight.
#[verifier::external_type_specification]
#[verifier::external_body]
pub struct ExSemaphore(tokio::sync::Semaphore);

/// A permit of a [`Semaphore`], given back to it when the permit is dropped.
#[verifier::external_type_specification]
#[verifier::external_body]
pub struct ExOwnedSemaphorePermit(tokio::sync::OwnedSemaphorePermit);

/// The number of permits that a semaphore was made with.
pub uninterp spec fn semaphore_size(semaphore: Semaphore) -> nat;

/// The most permits that a semaphore can be made with.
pub open spec fn max_permits() -> nat {
    (usize::MAX / 8) as nat
}

/// `Semaphore::new`: a semaphore with that many permits. It panics on more
/// than `Semaphore::MAX_PERMITS`, which is `usize::MAX >> 3`.
#[verifier::external_body]
fn new_semaphore(permits: usize) -> (semaphore: Semaphore)
    requires
        permits <= max_permits(),
    ensures
        semaphore_size(semaphore) == permits,
{
    Semaphore::new(permits)
}

/// The most permits that a semaphore can show as free.
pub open spec fn max_free_permits() -> nat {
    (usize::MAX / 2) as nat
}

/// `Semaphore::available_permits`: the permits that are free at the moment of
/// the call. Other holders take and give back permits at any time, so nothing
/// is said of the number but that it is a machine word less the bit that marks
/// a closed semaphore. (It can exceed `Semaphore::MAX_PERMITS`: adding too many
/// permits panics only after they were added.)
#[verifier::external_body]
fn free_permits(semaphore: &Semaphore) -> (free: usize)
    ensures
        free <= max_free_permits(),
{
    semaphore.available_permits()
}

// ---------------------------------------------------------------------------
// The state
// ---------------------------------------------------------------------------

/// The state that all requests share.
pub struct AppState {
    upstream_base: String,
    semaphore: Arc<Semaphore>,
    max_in_flight: usize,
    max_wait: Duration,
    idle_timeout: Duration,
    release_grace: Duration,
    usage_sampling: UsageSampling,
    next_request_id: u64,
    active_in_flight: usize,
    grace_pending: usize,
    queued: usize,
}

/// The view of [`AppState`].
pub ghost struct AppView {
    /// The URL that requests are joined to.
    pub upstream_base: Seq<char>,
    pub semaphore: Semaphore,
    pub max_in_flight: usize,
    pub max_wait: Duration,
    pub idle_timeout: Duration,
    pub release_grace: Duration,
    pub usage_sampling: UsageSampling,
    /// The id of the next request.
    pub next_request_id: u64,
    /// Requests that hold a permit and are not done.
    pub active_in_flight: usize,
    /// Permits that wait out the release grace.
    pub grace_pending: usize,
    /// Requests that wait for a permit.
    pub queued: usize,
}

impl View for AppState {
    type V = AppView;

    closed spec fn view(&self) -> AppView {
        AppView {
            upstream_base: self.upstream_base@,
            semaphore: *self.semaphore,
            max_in_flight: self.max_in_flight,
            max_wait: self.max_wait,
            idle_timeout: self.idle_timeout,
            release_grace: self.release_grace,
            usage_sampling: self.usage_sampling,
            next_request_id: self.next_request_id,
            active_in_flight: self.active_in_flight,
            grace_pending: self.grace_pending,
            queued: self.queued,
        }
    }
}

/// The counter after `n` that wraps around at its end.
pub open spec fn next_count(n: usize) -> usize {
    if n == usize::MAX {
        0
    } else {
        (n + 1) as usize
    }
}

/// The counter before `n` that wraps around at its start.
pub open spec fn previous_count(n: usize) -> usize {
    if n == 0 {
        usize::MAX
    } else {
        (n - 1) as usize
    }
}

/// The request id after `id`, which wraps around at its end.
pub open spec fn next_id(id: u64) -> u64 {
    if id == u64::MAX {
        0
    } else {
        (id + 1) as u64
    }
}

/// A configuration that a state can be made of: its base URL is one, and a
/// semaphore can be as large as its limit.
pub open spec fn is_usable(config: Config) -> bool {
    upstream_base(config.upstream.base_url@) is Some && config.throttle.max_in_flight
        <= max_permits()
}

impl AppView {
    /// The state that a configuration starts with: requests are joined to its
    /// base URL.
    pub open spec fn starts_from(self, config: Config) -> bool {
        self.starts_at(trimmed(config.upstream.base_url@), config)
    }

    /// The state that a configuration starts with, when requests are joined to
    /// `base`: its settings, a semaphore of `max_in_flight` permits, no request
    /// and request ids from 1 on.
    pub open spec fn starts_at(self, base: Seq<char>, config: Config) -> bool {
        &&& self.upstream_base == base
        &&& semaphore_size(self.semaphore) == config.throttle.max_in_flight
        &&& self.max_in_flight == config.throttle.max_in_flight
        &&& self.max_wait == config.throttle.max_wait
        &&& self.idle_timeout == config.throttle.idle_timeout
        &&& self.release_grace == config.throttle.release_grace
        &&& self.usage_sampling == config.observability.usage_sampling
        &&& self.next_request_id == 1
        &&& self.active_in_flight == 0
        &&& self.grace_pending == 0
        &&& self.queued == 0
    }

    /// After an id was given out.
    pub open spec fn numbered(self) -> AppView {
        AppView { next_request_id: next_id(self.next_request_id), ..self }
    }

    /// After a request began to wait for a permit.
    pub open spec fn entered_queue(self) -> AppView {
        AppView { queued: next_count(self.queued), ..self }
    }

    /// After a request stopped waiting without a permit.
    pub open spec fn left_queue(self) -> AppView {
        AppView { queued: previous_count(self.queued), ..self }
    }

    /// After a waiting request got its permit.
    pub open spec fn granted(self) -> AppView {
        AppView {
            queued: previous_count(self.queued),
            active_in_flight: next_count(self.active_in_flight),
            ..self
        }
    }

    /// After a request was done: its permit is given back at once, or waits out
    /// the release grace if there is one.
    pub open spec fn released(self) -> AppView {
        if self.release_grace@ == 0 {
            AppView { active_in_flight: previous_count(self.active_in_flight), ..self }
        } else {
            AppView {
                active_in_flight: previous_count(self.active_in_flight),
                grace_pending: next_count(self.grace_pending),
                ..self
            }
        }
    }

    /// After a permit waited out the release grace and was given back.
    pub open spec fn grace_over(self) -> AppView {
        AppView { grace_pending: previous_count(self.grace_pending), ..self }
    }

    /// What the state shows when `available_permits` of the semaphore's
    /// permits are free.
    pub open spec fn snapshot_at(self, available_permits: usize) -> TrafficSnapshot {
        TrafficSnapshot {
            available_permits,
            held_permits: saturating_count(self.max_in_flight, available_permits),
            active_in_flight: self.active_in_flight,
            grace_pending: self.grace_pending,
            queued: self.queued,
        }
    }

    /// `snapshot` is what the state shows at some number of free permits.
    pub open spec fn shows(self, snapshot: TrafficSnapshot) -> bool {
        snapshot.available_permits <= max_free_permits() && snapshot == self.snapshot_at(
            snapshot.available_permits,
        )
    }
}

/// `a - b`, or 0 where `b` is the larger.
pub open spec fn saturating_count(a: usize, b: usize) -> usize {
    if a >= b {
        (a - b) as usize
    } else {
        0
    }
}

/// The traffic at one moment, as it is logged.
#[derive(Debug, Clone, Copy, PartialEq, Eq, Structural)]
pub struct TrafficSnapshot {
    pub available_permits: usize,
    pub held_permits: usize,
    pub active_in_flight: usize,
    pub grace_pending: usize,
    pub queued: usize,
}

impl AppState {
    /// The state that a usable configuration starts with.
    pub fn new(config: &Config) -> (state: AppState)
        requires
            is_usable(*config),
        ensures
            state@.starts_from(*config),
    {
        AppState::with_base(parse_base(config.upstream.base_url.as_str()).unwrap(), config)
    }

    /// The state that a configuration starts with, when `base` is the URL that
    /// requests are joined to.
    pub fn with_base(base: String, config: &Config) -> (state: AppState)
        requires
            config.throttle.max_in_flight <= max_permits(),
        ensures
            state@.starts_at(base@, *config),
    {
        AppState {
            upstream_base: base,
            semaphore: Arc::new(new_semaphore(config.throttle.max_in_flight)),
            max_in_flight: config.throttle.max_in_flight,
            max_wait: config.throttle.max_wait,
            idle_timeout: config.throttle.idle_timeout,
            release_grace: config.throttle.release_grace,
            usage_sampling: config.observability.usage_sampling,
            next_request_id: 1,
            active_in_flight: 0,
            grace_pending: 0,
            queued: 0,
        }
    }

    /// The state that a configuration starts with, if it is usable.
    pub fn from_config(config: &Config) -> (state: Option<AppState>)
        ensures
            match state {
                Some(made) => is_usable(*config) && made@.starts_from(*config),
                None => !is_usable(*config),
            },
    {
        if config.throttle.max_in_flight <= usize::MAX / 8 && parse_base(
            config.upstream.base_url.as_str(),
        ).is_some() {
            Some(AppState::new(config))
        } else {
            None
        }
    }

    /// The semaphore whose permits the requests hold.
    pub fn semaphore(&self) -> (semaphore: &Arc<Semaphore>)
        ensures
            **semaphore == self@.semaphore,
    {
        &self.semaphore
    }

    /// The number of free permits right now (for diagnostics and testing). It
    /// may have changed by the time that it is looked at, so no more is said of
    /// it than holds at every moment. What the library makes of the number is
    /// what [`AppState::snapshot_with`] says.
    pub fn available_permits(&self) -> (free: usize)
        ensures
            free <= max_free_permits(),
    {
        free_permits(&self.semaphore)
    }

    /// The most requests that may be in flight upstream at a time.
    pub fn max_in_flight(&self) -> (limit: usize)
        ensures
            limit == self@.max_in_flight,
    {
        self.max_in_flight
    }

    /// How long a request may wait for a permit.
    pub fn max_wait(&self) -> (span: Duration)
        ensures
            span == self@.max_wait,
    {
        self.max_wait
    }

    /// How long upstream may stay silent in the middle of a response.
    pub fn idle_timeout(&self) -> (span: Duration)
        ensures
            span == self@.idle_timeout,
    {
        self.idle_timeout
    }

    /// How long a permit is kept after its request is done.
    pub fn release_grace(&self) -> (span: Duration)
        ensures
            span == self@.release_grace,
    {
        self.release_grace
    }

    /// When upstream's usage endpoint is sampled.
    pub fn usage_sampling(&self) -> (sampling: UsageSampling)
        ensures
            sampling == self@.usage_sampling,
    {
        self.usage_sampling
    }

    /// The requests that hold a permit and are not done.
    pub fn active_in_flight(&self) -> (count: usize)
        ensures
            count == self@.active_in_flight,
    {
        self.active_in_flight
    }

    /// The permits that wait out the release grace.
    pub fn grace_pending(&self) -> (count: usize)
        ensures
            count == self@.grace_pending,
    {
        self.grace_pending
    }

    /// The requests that wait for a permit.
    pub fn queued(&self) -> (count: usize)
        ensures
            count == self@.queued,
    {
        self.queued
    }

    /// The URL that requests are joined to.
    pub fn upstream_base(&self) -> (base: &str)
        ensures
            base@ == self@.upstream_base,
    {
        self.upstream_base.as_str()
    }

    /// The traffic right now.
    pub fn snapshot(&self) -> (snapshot: TrafficSnapshot)
        ensures
            self@.shows(snapshot),
    {
        let available_permits: usize = self.available_permits();
        self.snapshot_with(available_permits)
    }

    /// The traffic when `available_permits` permits are free.
    pub fn snapshot_with(&self, available_permits: usize) -> (snapshot: TrafficSnapshot)
        ensures
            snapshot == self@.snapshot_at(available_permits),
    {
        TrafficSnapshot {
            available_permits,
            held_permits: self.max_in_flight.saturating_sub(available_permits),
            active_in_flight: self.active_in_flight,
            grace_pending: self.grace_pending,
            queued: self.queued,
        }
    }

    /// Gives out the next request id.
    pub(crate) fn take_request_id(&mut self) -> (id: u64)
        ensures
            id == old(self)@.next_request_id,
            final(self)@ == old(self)@.numbered(),
    {
        let id: u64 = self.next_request_id;
        self.next_request_id = id.wrapping_add(1);
        id
    }

    /// Counts a request that begins to wait for a permit.
    pub(crate) fn enter_queue(&mut self)
        ensures
            final(self)@ == old(self)@.entered_queue(),
    {
        self.queued = self.queued.wrapping_add(1);
    }

    /// Counts a request that stops waiting without a permit.
    pub(crate) fn leave_queue(&mut self)
        ensures
            final(self)@ == old(self)@.left_queue(),
    {
        self.queued = self.queued.wrapping_sub(1);
    }

    /// Counts a waiting request that got its permit.
    pub(crate) fn grant(&mut self)
        ensures
            final(self)@ == old(self)@.granted(),
    {
        self.queued = self.queued.wrapping_sub(1);
        self.active_in_flight = self.active_in_flight.wrapping_add(1);
    }

    /// Counts a request that is done.
    pub(crate) fn release(&mut self)
        ensures
            final(self)@ == old(self)@.released(),
    {
        self.active_in_flight = self.active_in_flight.wrapping_sub(1);
        if !self.release_grace.is_zero() {
            self.grace_pending = self.grace_pending.wrapping_add(1);
        }
    }

    /// Counts a permit that waited out the release grace.
    pub(crate) fn end_grace(&mut self)
        ensures
            final(self)@ == old(self)@.grace_over(),
    {
        self.grace_pending = self.grace_pending.wrapping_sub(1);
    }
}

} // verus!
