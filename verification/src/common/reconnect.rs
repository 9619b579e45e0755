//! Reconnection policy for WebSocket connections: how many attempts are made.

use vstd::prelude::*;

verus! {

/// The maximum number of reconnection attempts of a default policy.
pub const DEFAULT_MAX_RETRIES: u32 = 5;

/// Whether another reconnection attempt is made after `attempt` attempts: below the maximum,
/// or always where there is none.
pub open spec fn retry_allowed(max_retries: Option<u32>, attempt: u32) -> bool {
    match max_retries {
        Some(max) => attempt < max,
        None => true,
    }
}

/// Once the policy refuses an attempt, it refuses every later one.
pub proof fn retries_stop_for_good(max_retries: Option<u32>, attempt: u32, later: u32)
    requires
        attempt <= later,
        !retry_allowed(max_retries, attempt),
    ensures
        !retry_allowed(max_retries, later),
{
}

/// With a maximum, every attempt below it is retried and none from it on, whatever the
/// maximum is; without one, every attempt is retried. A larger maximum never refuses what a
/// smaller one allows.
pub proof fn retries_below_the_maximum(max: u32, attempt: u32, larger: u32)
    ensures
        retry_allowed(Some(max), attempt) <==> attempt < max,
        retry_allowed(None, attempt),
        max <= larger && retry_allowed(Some(max), attempt) ==> retry_allowed(Some(larger), attempt),
{
}

/// Whether another reconnection attempt is made after `attempt` attempts (counted from 0),
/// given the maximum number of retries (`None` for unlimited): every attempt below the maximum,
/// and every attempt where there is none.
pub fn should_retry(max_retries: Option<u32>, attempt: u32) -> (retry: bool)
    ensures
        retry == retry_allowed(max_retries, attempt),
        max_retries is Some ==> (retry <==> attempt < max_retries->0),
        max_retries is None ==> retry,
{
    match max_retries {
        Some(max) => attempt < max,
        None => true,
    }
}

} // verus!
