//! The state that all connections of one proxy share, as it stands when the
//! proxy starts.

use vstd::prelude::*;

use crate::rate_limiter::fixed_window::{Window, DEFAULT_WINDOW_SECS};
use crate::rate_limiter::{create_rate_limiter, ArgRateLimiter, RateLimiter};
use crate::upstreams::{all_alive, UpstreamsState};

verus! {

/// Why a configuration cannot be served.
#[derive(Clone, Copy, Debug, PartialEq, Eq, Structural)]
pub enum ConfigError {
    /// No upstream was given.
    NoUpstreams,
}

/// What a running proxy knows: its settings, the upstreams it forwards to
/// with their liveness, and its rate limiter.
pub struct ProxyState {
    /// Seconds between two rounds of health probes; 0 switches them off.
    pub active_health_check_interval: usize,
    /// The path that health probes ask for.
    pub active_health_check_path: String,
    /// Which upstreams are alive.
    pub upstreams_state: UpstreamsState,
    /// Requests one client may make per minute; 0 means no limit.
    pub max_requests_per_minute: usize,
    /// The addresses of the upstreams, in configured order.
    pub upstream_addresses: Vec<String>,
    /// The limiter that every request is put to.
    pub rate_limiter: RateLimiter,
}

impl ProxyState {
    /// There is at least one upstream, the registry has one flag for each
    /// address, and the limiter enforces the configured limit.
    pub open spec fn wf(&self) -> bool {
        &&& self.upstream_addresses@.len() > 0
        &&& self.upstreams_state.wf()
        &&& self.upstreams_state@.len() == self.upstream_addresses@.len()
        &&& self.rate_limiter.limit() == self.max_requests_per_minute
    }

    /// The state of a proxy that starts with these settings: every upstream
    /// counts as alive and the rate limiter has seen no request.
    ///
    /// Fails with `NoUpstreams` exactly when `upstream_addresses` is empty.
    pub fn new(
        upstream_addresses: Vec<String>,
        active_health_check_interval: usize,
        active_health_check_path: String,
        max_requests_per_minute: usize,
        rate_limiter: ArgRateLimiter,
    ) -> (started: Result<ProxyState, ConfigError>)
        ensures
            started is Err <==> upstream_addresses@.len() == 0,
            started matches Ok(state) ==> {
                &&& state.wf()
                &&& state.upstream_addresses == upstream_addresses
                &&& state.upstreams_state@ == all_alive(upstream_addresses@.len())
                &&& state.active_health_check_interval == active_health_check_interval
                &&& state.active_health_check_path == active_health_check_path
                &&& state.max_requests_per_minute == max_requests_per_minute
                &&& state.rate_limiter.algorithm() == rate_limiter
                &&& state.rate_limiter.window_secs() == DEFAULT_WINDOW_SECS
                &&& state.rate_limiter.windows() == Map::<Seq<char>, Window>::empty()
            },
    {
        let num_upstreams = upstream_addresses.len();
        if num_upstreams < 1 {
            return Err(ConfigError::NoUpstreams);
        }
        Ok(
            ProxyState {
                active_health_check_interval,
                active_health_check_path,
                upstreams_state: UpstreamsState::new(num_upstreams),
                max_requests_per_minute,
                upstream_addresses,
                rate_limiter: create_rate_limiter(max_requests_per_minute, rate_limiter),
            },
        )
    }
}

} // verus!
