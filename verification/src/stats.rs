//! Transfer statistics kept by the traffic generator: request, byte and
//! error counters plus the start mark they are measured against.

use vstd::prelude::*;
use crate::arith::{sat_add64, sat_mul64, saturating_mul64};
use crate::clock::{instant_now, elapsed_seconds};

verus! {

/// Cumulative counters of the generator run.
#[derive(Clone)]
pub struct Stats {
    pub requests_sent: u64,
    pub bytes_sent: u64,
    pub errors: u64,
    pub start_time: std::time::Instant,
}

/// Average bandwidth in bits per second over `elapsed_secs`; zero while no
/// whole second has elapsed.
pub open spec fn bandwidth_of(bytes: u64, elapsed_secs: u64) -> u64 {
    if elapsed_secs == 0 {
        0u64
    } else {
        (sat_mul64(bytes, 8) as int / elapsed_secs as int) as u64
    }
}

impl Stats {
    /// Fresh counters, started now.
    pub fn new() -> (r: Stats)
        ensures
            r.requests_sent == 0,
            r.bytes_sent == 0,
            r.errors == 0,
    {
        Stats { requests_sent: 0, bytes_sent: 0, errors: 0, start_time: instant_now() }
    }

    /// Records one completed request of `bytes` payload bytes.
    pub fn record_request(&mut self, bytes: u64)
        ensures
            final(self).requests_sent == sat_add64(old(self).requests_sent, 1),
            final(self).bytes_sent == sat_add64(old(self).bytes_sent, bytes),
            final(self).errors == old(self).errors,
            final(self).start_time == old(self).start_time,
    {
        self.requests_sent = self.requests_sent.saturating_add(1);
        self.bytes_sent = self.bytes_sent.saturating_add(bytes);
    }

    /// Records one failed request.
    pub fn record_error(&mut self)
        ensures
            final(self).errors == sat_add64(old(self).errors, 1),
            final(self).requests_sent == old(self).requests_sent,
            final(self).bytes_sent == old(self).bytes_sent,
            final(self).start_time == old(self).start_time,
    {
        self.errors = self.errors.saturating_add(1);
    }

    pub fn get_requests(&self) -> (r: u64)
        ensures
            r == self.requests_sent,
    {
        self.requests_sent
    }

    pub fn get_bytes(&self) -> (r: u64)
        ensures
            r == self.bytes_sent,
    {
        self.bytes_sent
    }

    pub fn get_errors(&self) -> (r: u64)
        ensures
            r == self.errors,
    {
        self.errors
    }

    /// Whole seconds since the counters were started; a clock read, so
    /// nothing is assumed of the value.
    pub fn elapsed(&self) -> u64 {
        elapsed_seconds(&self.start_time)
    }

    /// Average bandwidth in bits per second over an explicit elapsed time.
    pub fn bandwidth_bps_over(&self, elapsed_secs: u64) -> (r: u64)
        ensures
            r == bandwidth_of(self.bytes_sent, elapsed_secs),
    {
        if elapsed_secs == 0 {
            0
        } else {
            saturating_mul64(self.bytes_sent, 8) / elapsed_secs
        }
    }

    /// Average bandwidth in bits per second since the start mark.
    pub fn bandwidth_bps(&self) -> (r: u64)
        ensures
            exists|e: u64| r == bandwidth_of(self.bytes_sent, e),
    {
        let e = self.elapsed();
        let r = self.bandwidth_bps_over(e);
        proof {
            assert(r == bandwidth_of(self.bytes_sent, e));
        }
        r
    }
}

} // verus!
