//! Request admission for the API server: allowed CORS origins and rate limiting.
use vstd::prelude::*;

use core::time::Duration;

use crate::rate_limiter::{nanos_of, RateLimiter};
use crate::text::{decimal, ends_with, has_prefix, has_suffix, push_decimal, starts_with, str_equal};

verus! {

/// Whether a request origin may read API responses: an explicitly allowed
/// origin, any `*.vercel.app` deployment, or a local development server.
pub open spec fn origin_allowed_spec(allowed: Seq<Seq<char>>, origin: Seq<char>) -> bool {
    allowed.contains(origin) || has_suffix(origin, ".vercel.app"@) || has_prefix(
        origin,
        "http://localhost:"@,
    ) || has_prefix(origin, "http://127.0.0.1:"@)
}

/// Law: every entry of the allowed list is admitted, whatever else the list
/// holds, and an origin outside the list is admitted only as a `*.vercel.app`
/// deployment or a local development server.
pub proof fn law_every_listed_origin_is_allowed(allowed: Seq<Seq<char>>, origin: Seq<char>)
    ensures
        forall|j: int| 0 <= j < allowed.len() ==> origin_allowed_spec(allowed, #[trigger] allowed[j]),
        origin_allowed_spec(allowed, origin) && !allowed.contains(origin) ==> has_suffix(
            origin,
            ".vercel.app"@,
        ) || has_prefix(origin, "http://localhost:"@) || has_prefix(origin, "http://127.0.0.1:"@),
{
    assert forall|j: int| 0 <= j < allowed.len() implies origin_allowed_spec(
        allowed,
        #[trigger] allowed[j],
    ) by {
        assert(allowed.contains(allowed[j]));
    }
}

/// Decides whether a request origin is allowed.
pub fn origin_allowed(allowed: &Vec<String>, origin: &str) -> (r: bool)
    ensures
        r == origin_allowed_spec(allowed@.map_values(|s: String| s@), origin@),
        forall|j: int| 0 <= j < allowed@.len() && #[trigger] allowed@[j]@ == origin@ ==> r,
        r ==> (exists|j: int| 0 <= j < allowed@.len() && #[trigger] allowed@[j]@ == origin@)
            || has_suffix(origin@, ".vercel.app"@) || has_prefix(origin@, "http://localhost:"@)
            || has_prefix(origin@, "http://127.0.0.1:"@),
{
    let ghost views = allowed@.map_values(|s: String| s@);
    let mut found = false;
    let mut i: usize = 0;
    while i < allowed.len()
        invariant
            i <= allowed@.len(),
            views == allowed@.map_values(|s: String| s@),
            found == exists|j: int| 0 <= j < i && views[j] == origin@,
        decreases allowed@.len() - i,
    {
        if str_equal(allowed[i].as_str(), origin) {
            found = true;
            proof {
                assert(views[i as int] == origin@);
            }
        }
        i = i + 1;
    }
    proof {
        if views.contains(origin@) {
            let j = choose|j: int| 0 <= j < views.len() && views[j] == origin@;
            assert(0 <= j < i);
        }
        law_every_listed_origin_is_allowed(views, origin@);
        assert forall|j: int| 0 <= j < allowed@.len() && #[trigger] allowed@[j]@ == origin@
            implies views.contains(origin@) by {
            assert(views[j] == origin@);
        }
        if views.contains(origin@) {
            let j = choose|j: int| 0 <= j < views.len() && views[j] == origin@;
            assert(allowed@[j]@ == origin@);
        }
    }
    found || ends_with(origin, ".vercel.app") || starts_with(origin, "http://localhost:")
        || starts_with(origin, "http://127.0.0.1:")
}

/// Whole seconds in a duration (`Duration::as_secs`), trusted to be the
/// whole seconds of its nanosecond count (`Duration::as_nanos`), as std
/// documents both.
#[verifier::external_body]
fn duration_secs(d: &Duration) -> (r: u64)
    ensures
        r == nanos_of(*d) / 1_000_000_000,
{
    d.as_secs()
}

/// A request turned away by the rate limiter.
#[derive(Debug)]
pub struct Rejection {
    /// Seconds after which the client may retry (the `Retry-After` header).
    pub retry_after_secs: u64,
    /// Human-readable detail of the error response.
    pub message: String,
}

/// Rate limiting of API requests: a shared fixed-window limiter and the
/// retry hint returned to rejected clients.
pub struct RateLimitLayer {
    limiter: RateLimiter,
    period_secs: u64,
}

impl RateLimitLayer {
    /// The retry hint, in seconds.
    pub closed spec fn period_secs(&self) -> u64 {
        self.period_secs
    }

    /// The limiter behind the layer.
    pub closed spec fn limiter(&self) -> RateLimiter {
        self.limiter
    }

    /// A layer admitting `max` requests per `period`.
    pub fn new(max: u64, period: Duration) -> (r: Self)
        ensures
            r.period_secs() == nanos_of(period) / 1_000_000_000,
            r.period_secs() == r.limiter().period() / 1_000_000_000,
            r.limiter().capacity() == max,
            r.limiter().period() == nanos_of(period),
            exists|now: u128|
                r.limiter().state() == (crate::rate_limiter::WindowState {
                    count: 0,
                    reset_at: crate::rate_limiter::clamp_add(now, nanos_of(period)),
                }),
    {
        RateLimitLayer { limiter: RateLimiter::new(max, period), period_secs: duration_secs(&period) }
    }

    /// Lets a request through, or rejects it with a hint to retry after one period.
    pub fn check_request(&mut self) -> (r: Option<Rejection>)
        ensures
            final(self).period_secs() == old(self).period_secs(),
            final(self).limiter().capacity() == old(self).limiter().capacity(),
            final(self).limiter().period() == old(self).limiter().period(),
            match r {
                Some(rej) => rej.retry_after_secs == old(self).period_secs() && rej.message@
                    == "Rate limit exceeded. Retry after "@ + decimal(old(self).period_secs() as nat)
                    + " seconds"@,
                None => true,
            },
            exists|now: u128|
                (final(self).limiter().state(), r is None) == crate::rate_limiter::acquire_step(
                    old(self).limiter().state(),
                    old(self).limiter().capacity(),
                    old(self).limiter().period(),
                    now,
                ),
    {
        if self.limiter.try_acquire() {
            None
        } else {
            let mut message = String::from_str("Rate limit exceeded. Retry after ");
            push_decimal(&mut message, self.period_secs);
            message.append(" seconds");
            Some(Rejection { retry_after_secs: self.period_secs, message })
        }
    }
}

} // verus!
