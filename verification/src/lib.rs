//! Core logic of a TCP-level HTTP load balancer: the registry of upstream
//! liveness, upstream selection with failover, health-probe bookkeeping,
//! fixed-window rate limiting and the per-connection relay state machine.
//!
//! The library takes the decisions. Sockets, timers, locks and HTTP framing
//! belong to the program built around it, which reports what happened and
//! is told what to do next.

pub mod upstreams;
pub mod rate_limiter;
pub mod session;
pub mod router;
pub mod health;
pub mod proxy;
