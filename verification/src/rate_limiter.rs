//! A fixed-window rate limiter.
use vstd::prelude::*;

use core::time::Duration;
use std::time::Instant;

verus! {

#[verifier::external_type_specification]
#[verifier::external_body]
pub struct ExInstant(Instant);

/// Reads the monotonic clock (`Instant::now`). Nothing is claimed of the reading.
#[verifier::external_body]
fn instant_now() -> (r: Instant) {
    Instant::now()
}

/// Whole nanoseconds elapsed since `origin` (`Instant::elapsed`, as nanoseconds).
/// Nothing is claimed of the reading: it depends on the clock.
#[verifier::external_body]
fn nanos_since(origin: &Instant) -> (r: u128) {
    origin.elapsed().as_nanos()
}

/// The whole nanoseconds in a duration, as `Duration::as_nanos` counts them.
pub uninterp spec fn nanos_of(d: Duration) -> u128;

/// Whole nanoseconds in a duration (`Duration::as_nanos`), trusted to be the
/// named count of the duration: it depends on the duration alone.
#[verifier::external_body]
pub(crate) fn duration_nanos(d: &Duration) -> (r: u128)
    ensures
        r == nanos_of(*d),
{
    d.as_nanos()
}

/// `a + b`, clamped to `u128::MAX`.
pub open spec fn clamp_add(a: u128, b: u128) -> u128 {
    if a + b > u128::MAX { u128::MAX } else { (a + b) as u128 }
}

/// The window state of a limiter: permits granted in the current window and
/// the instant (in nanoseconds since the limiter's origin) at which it ends.
pub struct WindowState {
    /// Permits granted in the current window.
    pub count: u64,
    /// End of the current window.
    pub reset_at: u128,
}

/// A window holds no more permits than the capacity allows, and at most one
/// when the capacity is zero.
pub open spec fn counted_within(s: WindowState, capacity: u64) -> bool {
    s.count <= if capacity > 0 { capacity } else { 1 }
}

/// One acquisition attempt at time `now`: returns the next window state and
/// whether the permit is granted. An expired window restarts at `now` with
/// one permit taken; otherwise a permit is granted while fewer than
/// `capacity` were taken.
pub open spec fn acquire_step(
    s: WindowState,
    capacity: u64,
    period: u128,
    now: u128,
) -> (WindowState, bool) {
    if now >= s.reset_at {
        (WindowState { count: 1, reset_at: clamp_add(now, period) }, true)
    } else if s.count < capacity {
        (WindowState { count: (s.count + 1) as u64, reset_at: s.reset_at }, true)
    } else {
        (s, false)
    }
}

/// A simple fixed window rate limiter.
pub struct RateLimiter {
    count: u64,
    reset_at: u128,
    capacity: u64,
    period: u128,
    origin: Instant,
}

impl RateLimiter {
    /// Current window state.
    pub closed spec fn state(&self) -> WindowState {
        WindowState { count: self.count, reset_at: self.reset_at }
    }

    /// Permits per window.
    pub closed spec fn capacity(&self) -> u64 {
        self.capacity
    }

    /// Window length in nanoseconds.
    pub closed spec fn period(&self) -> u128 {
        self.period
    }

    /// The limiter never counts more permits than its capacity allows, and at
    /// least one per window.
    #[verifier::type_invariant]
    spec fn counted_within_capacity(&self) -> bool {
        counted_within(self.state(), self.capacity)
    }

    /// A limiter created at time `now` (nanoseconds since `origin`) with
    /// `capacity` permits per window of `period` nanoseconds.
    pub fn new_at(capacity: u64, period: u128, now: u128, origin: Instant) -> (r: Self)
        ensures
            counted_within(r.state(), r.capacity()),
            r.capacity() == capacity,
            r.period() == period,
            r.state() == (WindowState { count: 0, reset_at: clamp_add(now, period) }),
    {
        RateLimiter {
            count: 0,
            reset_at: now.saturating_add(period),
            capacity,
            period,
            origin,
        }
    }

    /// Create a new [`RateLimiter`] with the given `capacity` and `period`.
    /// The first window ends one period after creation (whatever the clock
    /// read at that moment).
    pub fn new(capacity: u64, period: Duration) -> (r: Self)
        ensures
            counted_within(r.state(), r.capacity()),
            r.capacity() == capacity,
            r.period() == nanos_of(period),
            exists|now: u128|
                r.state() == (WindowState { count: 0, reset_at: clamp_add(now, nanos_of(period)) }),
    {
        let origin = instant_now();
        let period_nanos = duration_nanos(&period);
        let now = nanos_since(&origin);
        Self::new_at(capacity, period_nanos, now, origin)
    }

    /// Attempt to acquire a permit at time `now` (nanoseconds since the origin).
    pub fn try_acquire_at(&mut self, now: u128) -> (granted: bool)
        ensures
            counted_within(final(self).state(), final(self).capacity()),
            final(self).capacity() == old(self).capacity(),
            final(self).period() == old(self).period(),
            (final(self).state(), granted) == acquire_step(
                old(self).state(),
                old(self).capacity(),
                old(self).period(),
                now,
            ),
    {
        proof {
            use_type_invariant(&*self);
        }
        if now >= self.reset_at {
            self.reset_at = now.saturating_add(self.period);
            self.count = 1;
            true
        } else if self.count < self.capacity {
            self.count = self.count + 1;
            true
        } else {
            false
        }
    }

    /// Attempt to acquire a permit now.
    pub fn try_acquire(&mut self) -> (granted: bool)
        ensures
            counted_within(final(self).state(), final(self).capacity()),
            final(self).capacity() == old(self).capacity(),
            final(self).period() == old(self).period(),
            exists|now: u128|
                (final(self).state(), granted) == acquire_step(
                    old(self).state(),
                    old(self).capacity(),
                    old(self).period(),
                    now,
                ),
    {
        let now = nanos_since(&self.origin);
        self.try_acquire_at(now)
    }
}

/// Permits granted by a run of attempts at the given times, from state `s`.
pub open spec fn grants(s: WindowState, capacity: u64, period: u128, times: Seq<u128>) -> nat
    decreases times.len(),
{
    if times.len() == 0 {
        0
    } else {
        let (next, granted) = acquire_step(s, capacity, period, times[0]);
        (if granted { 1nat } else { 0nat }) + grants(next, capacity, period, times.drop_first())
    }
}

/// Law: within one window no more permits are granted than the capacity
/// leaves: attempts that all come before the window ends grant exactly
/// `capacity - count` permits when there are that many attempts, and one per
/// attempt when there are fewer.
pub proof fn law_window_grants_at_most_capacity(
    s: WindowState,
    capacity: u64,
    period: u128,
    times: Seq<u128>,
)
    requires
        s.count <= capacity,
        forall|i: int| 0 <= i < times.len() ==> times[i] < s.reset_at,
    ensures
        grants(s, capacity, period, times) <= capacity - s.count,
        grants(s, capacity, period, times) == if times.len() <= capacity - s.count {
            times.len() as int
        } else {
            capacity - s.count
        },
    decreases times.len(),
{
    if times.len() > 0 {
        let (next, granted) = acquire_step(s, capacity, period, times[0]);
        assert forall|i: int| 0 <= i < times.drop_first().len() implies times.drop_first()[i]
            < next.reset_at by {
            assert(times.drop_first()[i] == times[i + 1]);
        }
        law_window_grants_at_most_capacity(next, capacity, period, times.drop_first());
    }
}

/// Law: a limiter, as every call leaves it, grants at most its capacity in
/// what remains of its window: a run of `try_acquire_at` calls at times
/// before the window ends (each call following `acquire_step`) is granted at
/// most `capacity - count` times, so at most `capacity` times per window.
pub proof fn law_limiter_grants_at_most_capacity_per_window(l: RateLimiter, times: Seq<u128>)
    requires
        l.capacity() > 0,
        counted_within(l.state(), l.capacity()),
        forall|i: int| 0 <= i < times.len() ==> times[i] < l.state().reset_at,
    ensures
        grants(l.state(), l.capacity(), l.period(), times) <= l.capacity() - l.state().count,
        grants(l.state(), l.capacity(), l.period(), times) <= l.capacity(),
{
    law_window_grants_at_most_capacity(l.state(), l.capacity(), l.period(), times);
}

/// Law: once the window has ended, the next attempt is always granted and
/// opens a new window that ends one period later.
pub proof fn law_expired_window_grants(s: WindowState, capacity: u64, period: u128, now: u128)
    requires
        now >= s.reset_at,
    ensures
        acquire_step(s, capacity, period, now).1,
        acquire_step(s, capacity, period, now).0.count == 1,
        acquire_step(s, capacity, period, now).0.reset_at == clamp_add(now, period),
{
}

} // verus!
