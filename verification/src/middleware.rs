//! Configuration-carrying halves of the HTTP middleware: request ids,
//! security headers and the rate limiter. Wiring them into the HTTP
//! framework's service traits is the embedding program's business.

use vstd::prelude::*;

verus! {

/// Tags every request with a fresh identifier.
pub struct RequestId;

impl RequestId {
    pub fn new() -> (r: RequestId)
        ensures
            r == RequestId,
    {
        RequestId
    }
}

pub struct RequestIdMiddleware<S> {
    pub service: S,
}

/// Adds the fixed defensive headers to every response.
pub struct SecurityHeaders;

impl SecurityHeaders {
    pub fn new() -> (r: SecurityHeaders)
        ensures
            r == SecurityHeaders,
    {
        SecurityHeaders
    }
}

pub struct SecurityHeadersMiddleware<S> {
    pub service: S,
}

/// A request budget per time window.
pub struct RateLimiter {
    requests: usize,
    /// Window length, in milliseconds.
    window_ms: u64,
}

impl RateLimiter {
    pub closed spec fn spec_requests(self) -> usize {
        self.requests
    }

    pub closed spec fn spec_window_ms(self) -> u64 {
        self.window_ms
    }

    pub fn new(requests: usize, window_ms: u64) -> (r: RateLimiter)
        ensures
            r.spec_requests() == requests,
            r.spec_window_ms() == window_ms,
    {
        RateLimiter { requests, window_ms }
    }
}

pub struct RateLimiterMiddleware<S> {
    pub service: S,
}

} // verus!
