//! Publishing events with retries.
use vstd::prelude::*;

use crate::processor::{backoff_ms, retry_backoff_ms};
use vstd::arithmetic::power2::pow2;

verus! {

/// What follows one attempt to publish an event.
#[derive(Debug, Clone, Copy, PartialEq, Eq, Structural)]
pub enum PublishStep {
    /// The event was published.
    Done,
    /// Retries are exhausted: report the error.
    GiveUp,
    /// Publish again after a backoff.
    Retry {
        /// The retry count after this retry.
        retries: u32,
        /// Backoff before the retry, in milliseconds.
        delay_ms: u64,
    },
}

/// The step after a publish attempt.
pub open spec fn publish_step_spec(succeeded: bool, retries: u32, max_retries: u32) -> PublishStep {
    if succeeded {
        PublishStep::Done
    } else if retries >= max_retries {
        PublishStep::GiveUp
    } else {
        PublishStep::Retry {
            retries: (retries + 1) as u32,
            delay_ms: backoff_ms((retries + 1) as nat) as u64,
        }
    }
}

/// Decides what follows a publish attempt: done on success, a retry after
/// `100 * 2^retries` milliseconds while fewer than `max_retries` retries were
/// made, else give up. The backoff is defined for at most 57 retries.
pub fn after_publish_attempt(succeeded: bool, retries: u32, max_retries: u32) -> (r: PublishStep)
    requires
        succeeded || retries >= max_retries || retries < 57,
    ensures
        r == publish_step_spec(succeeded, retries, max_retries),
        succeeded ==> r == PublishStep::Done,
        !succeeded && retries >= max_retries ==> r == PublishStep::GiveUp,
        !succeeded && retries < max_retries ==> r == (PublishStep::Retry {
            retries: (retries + 1) as u32,
            delay_ms: (100 * pow2((retries + 1) as nat)) as u64,
        }),
{
    if succeeded {
        PublishStep::Done
    } else if retries >= max_retries {
        PublishStep::GiveUp
    } else {
        let next = retries + 1;
        PublishStep::Retry { retries: next, delay_ms: retry_backoff_ms(next) }
    }
}

/// Law: an event is published at most `max_retries + 1` times: a successful
/// attempt is done whatever the retry count, every retry raises the count by
/// one and stays within `max_retries`, and failing at the limit gives up.
pub proof fn law_publish_attempts_bounded(succeeded: bool, retries: u32, max_retries: u32)
    ensures
        succeeded ==> publish_step_spec(succeeded, retries, max_retries) == PublishStep::Done,
        publish_step_spec(succeeded, retries, max_retries) matches PublishStep::Retry { retries: n, .. }
            ==> n == retries + 1 && n <= max_retries,
        publish_step_spec(succeeded, retries, max_retries) matches PublishStep::Retry { retries: n, delay_ms: d }
            ==> (100 * pow2(n as nat) <= u64::MAX ==> d == 100 * pow2(n as nat)),
        !succeeded && retries >= max_retries ==> publish_step_spec(succeeded, retries, max_retries)
            == PublishStep::GiveUp,
{
}

} // verus!
