//! Process-wide request metrics: counters and a running response-time sum.

use vstd::prelude::*;

verus! {

pub struct MetricsCollector {
    pub total_requests: u64,
    pub total_errors: u64,
    /// Accumulated response time, which callers only ever see through the
    /// average.
    pub total_response_time_ms: u64,
}

impl MetricsCollector {
    pub fn new() -> (r: MetricsCollector)
        ensures
            r.total_requests == 0,
            r.total_errors == 0,
            r.total_response_time_ms == 0,
    {
        MetricsCollector { total_requests: 0, total_errors: 0, total_response_time_ms: 0 }
    }

    /// Records one served request: both the request counter and the
    /// response-time sum advance, wrapping on overflow as counters do.
    pub fn record_request(&mut self, duration_ms: u64)
        ensures
            final(self).total_requests == vstd::wrapping::u64_specs::wrapping_add(
                old(self).total_requests,
                1,
            ),
            final(self).total_response_time_ms == vstd::wrapping::u64_specs::wrapping_add(
                old(self).total_response_time_ms,
                duration_ms,
            ),
            final(self).total_errors == old(self).total_errors,
    {
        self.total_requests = self.total_requests.wrapping_add(1);
        self.total_response_time_ms = self.total_response_time_ms.wrapping_add(duration_ms);
    }

    /// Records one failed request.
    pub fn record_error(&mut self)
        ensures
            final(self).total_errors == vstd::wrapping::u64_specs::wrapping_add(
                old(self).total_errors,
                1,
            ),
            final(self).total_requests == old(self).total_requests,
            final(self).total_response_time_ms == old(self).total_response_time_ms,
    {
        self.total_errors = self.total_errors.wrapping_add(1);
    }

    /// Mean response time over every recorded request; zero before the
    /// first one.
    pub fn avg_response_time_ms(&self) -> (r: u64)
        ensures
            r == (if self.total_requests > 0 {
                self.total_response_time_ms / self.total_requests
            } else {
                0u64
            }),
    {
        let total = self.total_response_time_ms;
        let count = self.total_requests;
        if count > 0 {
            total / count
        } else {
            0
        }
    }
}

} // verus!
