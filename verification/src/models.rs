//! Snapshot and derived-metrics records served by the aggregator.

use vstd::prelude::*;
use vstd::arithmetic::div_mod::{lemma_div_is_ordered, lemma_div_multiples_vanish};

verus! {

/// An immutable point-in-time copy of the cumulative counters plus the
/// capture timestamp (seconds since the Unix epoch).
#[derive(Clone, Copy, Debug, PartialEq, Eq, Structural)]
pub struct MetricsSnapshot {
    pub timestamp: u64,
    pub total_packets: u64,
    pub total_bytes: u64,
    pub tcp_packets: u64,
    pub tcp_bytes: u64,
    pub http_packets: u64,
    pub http_bytes: u64,
    pub tls_packets: u64,
    pub tls_bytes: u64,
}

impl MetricsSnapshot {
    /// Containment invariant inherited from the counters it copies.
    pub open spec fn wf(self) -> bool {
        &&& self.tcp_packets <= self.total_packets
        &&& self.tcp_bytes <= self.total_bytes
        &&& self.tls_bytes <= self.tcp_bytes
        &&& self.http_bytes <= self.tcp_bytes
    }
}

/// Derived, stateless view: eight per-second rates plus cumulative totals,
/// recomputed on every read.
#[derive(Clone, Debug, PartialEq, Eq, Structural)]
pub struct RealtimeMetrics {
    pub bandwidth_bps: u64,
    pub packets_per_sec: u64,
    pub tcp_bandwidth_bps: u64,
    pub tcp_packets_per_sec: u64,
    pub http_bandwidth_bps: u64,
    pub http_packets_per_sec: u64,
    pub https_bandwidth_bps: u64,
    pub https_packets_per_sec: u64,
    pub total_packets: u64,
    pub total_bytes: u64,
}

/// Summary over the whole observation window. The three protocol shares are
/// in hundredths of a percent (0 ..= 10000 for 0% ..= 100%), so that the
/// record stays in exact integer arithmetic.
#[derive(Clone, Debug, PartialEq, Eq, Structural)]
pub struct SummaryStats {
    pub uptime_seconds: u64,
    pub avg_bandwidth_bps: u64,
    pub peak_bandwidth_bps: u64,
    pub total_packets: u64,
    pub total_bytes: u64,
    pub tcp_percentage: u64,
    pub http_percentage: u64,
    pub https_percentage: u64,
}

/// `part` as a share of `total`, in hundredths of a percent; 0 when the
/// total is zero, and clamped to `u64::MAX`.
pub open spec fn pct_hundredths(part: u64, total: u64) -> u64 {
    if total == 0 {
        0u64
    } else if part * 10000 / (total as int) > u64::MAX {
        u64::MAX
    } else {
        (part * 10000 / (total as int)) as u64
    }
}

/// Computes a byte share in hundredths of a percent, guarded against a zero
/// total.
pub fn percentage_hundredths(part: u64, total: u64) -> (r: u64)
    ensures
        r == pct_hundredths(part, total),
{
    if total == 0 {
        0
    } else {
        let p: u128 = (part as u128) * 10000 / (total as u128);
        if p > u64::MAX as u128 {
            u64::MAX
        } else {
            p as u64
        }
    }
}

/// A share of a containing total never exceeds one hundred percent.
pub proof fn lemma_pct_bounded(part: u64, total: u64)
    requires
        part <= total,
    ensures
        pct_hundredths(part, total) <= 10000,
{
    if total != 0 {
        assert(part * 10000 <= total * 10000) by (nonlinear_arith)
            requires
                part <= total,
        ;
        lemma_div_is_ordered(part * 10000, total * 10000, total as int);
        lemma_div_multiples_vanish(10000, total as int);
    }
}

} // verus!
