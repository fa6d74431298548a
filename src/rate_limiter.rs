//! Minimum spacing between outbound requests.

use vstd::prelude::*;

verus! {

/// Smallest gap between two permitted requests: about three per second.
pub const MIN_REQUEST_INTERVAL_MS: u64 = 334;

/// Whether a request at `now` is permitted after the last one at `last`.
pub open spec fn permits(last: Option<u64>, min_interval: u64, now: u64) -> bool {
    match last {
        None => true,
        Some(l) => now >= l && now - l >= min_interval,
    }
}

/// Grants at most one request per minimum interval.
#[derive(Clone, Copy, Debug, PartialEq, Eq, Structural)]
pub struct RateLimiter {
    pub last_request_ms: Option<u64>,
    pub min_interval_ms: u64,
}

impl RateLimiter {
    /// A limiter that has granted nothing yet.
    pub fn new() -> (r: RateLimiter)
        ensures
            r.last_request_ms is None,
            r.min_interval_ms == MIN_REQUEST_INTERVAL_MS,
    {
        RateLimiter { last_request_ms: None, min_interval_ms: MIN_REQUEST_INTERVAL_MS }
    }

    /// Grants a request at time `now_ms` (in milliseconds of a clock that never
    /// goes back) where the minimum interval has passed since the last grant.
    pub fn can_make_request(&mut self, now_ms: u64) -> (granted: bool)
        ensures
            granted == permits(old(self).last_request_ms, old(self).min_interval_ms, now_ms),
            granted ==> final(self).last_request_ms == Some(now_ms),
            !granted ==> final(self).last_request_ms == old(self).last_request_ms,
            final(self).min_interval_ms == old(self).min_interval_ms,
    {
        let ok = match self.last_request_ms {
            None => true,
            Some(last) => now_ms >= last && now_ms - last >= self.min_interval_ms,
        };
        if ok {
            self.last_request_ms = Some(now_ms);
        }
        ok
    }
}

impl Default for RateLimiter {
    fn default() -> (r: RateLimiter)
        ensures
            r.last_request_ms is None,
            r.min_interval_ms == MIN_REQUEST_INTERVAL_MS,
    {
        RateLimiter::new()
    }
}

} // verus!
