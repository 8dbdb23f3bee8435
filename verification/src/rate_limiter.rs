//! Rate limiting of client requests.
//!
//! A limiter decides, request by request, whether a client identity may
//! proceed. The algorithm is chosen once, when the limiter is created.

use vstd::prelude::*;

pub mod fixed_window;

use crate::rate_limiter::fixed_window::{FixedWindow, Window, DEFAULT_WINDOW_SECS};

verus! {

/// What a limiter answers for one request.
#[derive(Clone, Copy, Debug, PartialEq, Eq, Structural)]
pub enum Decision {
    Allowed,
    Denied,
}

/// The rate-limiting algorithms that can be selected.
#[derive(Clone, Copy, Debug, PartialEq, Eq, Structural)]
pub enum ArgRateLimiter {
    FixedWindow,
}

/// A rate limiter running the algorithm it was created with.
pub enum RateLimiter {
    FixedWindow(FixedWindow),
}

impl RateLimiter {
    /// The algorithm this limiter runs.
    pub open spec fn algorithm(&self) -> ArgRateLimiter {
        match self {
            RateLimiter::FixedWindow(_) => ArgRateLimiter::FixedWindow,
        }
    }

    /// The number of requests an identity may make per window; 0 means no limit.
    pub open spec fn limit(&self) -> usize {
        match self {
            RateLimiter::FixedWindow(fw) => fw.limit(),
        }
    }

    /// The length of a window, in seconds.
    pub open spec fn window_secs(&self) -> u64 {
        match self {
            RateLimiter::FixedWindow(fw) => fw.window_secs(),
        }
    }

    /// The window kept for each identity seen so far.
    pub open spec fn windows(&self) -> Map<Seq<char>, Window> {
        match self {
            RateLimiter::FixedWindow(fw) => fw@,
        }
    }

    /// The answer to a request of `identity` at time `now`.
    pub open spec fn decision(&self, identity: Seq<char>, now: u64) -> Decision {
        match self {
            RateLimiter::FixedWindow(fw) => fw.decision(identity, now),
        }
    }

    /// The windows kept once a request of `identity` at time `now` is recorded.
    pub open spec fn windows_after(&self, identity: Seq<char>, now: u64) -> Map<Seq<char>, Window> {
        match self {
            RateLimiter::FixedWindow(fw) => fw.windows_after(identity, now),
        }
    }

    /// Records a request of `identity` at time `now` (in seconds) and says
    /// whether it may proceed.
    pub fn check_and_record(&mut self, identity: &str, now: u64) -> (decision: Decision)
        ensures
            decision == old(self).decision(identity@, now),
            final(self).windows() == old(self).windows_after(identity@, now),
            final(self).algorithm() == old(self).algorithm(),
            final(self).limit() == old(self).limit(),
            final(self).window_secs() == old(self).window_secs(),
    {
        match self {
            RateLimiter::FixedWindow(fw) => fw.check_and_record(identity, now),
        }
    }
}

/// A limiter of the selected algorithm that has seen no request yet. It
/// allows `limit` requests per identity and minute; a `limit` of 0 allows all.
pub fn create_rate_limiter(limit: usize, limiter: ArgRateLimiter) -> (created: RateLimiter)
    ensures
        created.algorithm() == limiter,
        created.limit() == limit,
        created.window_secs() == DEFAULT_WINDOW_SECS,
        created.windows() == Map::<Seq<char>, Window>::empty(),
{
    match limiter {
        ArgRateLimiter::FixedWindow => RateLimiter::FixedWindow(FixedWindow::new(limit)),
    }
}

} // verus!
