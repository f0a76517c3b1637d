//! The metrics aggregator.
//!
//! Keeps the current and the immediately previous counter snapshot plus the
//! peak-bandwidth high-water mark, derives per-second rates from the
//! difference of the two snapshots, and computes cumulative summary
//! statistics. No operation here can fail: zero denominators and counter
//! resets are absorbed by saturating arithmetic and explicit guards.

use vstd::prelude::*;
use crate::arith::{sat_sub64, sat_mul64, max64, div_max1, divide_max1, saturating_mul64};
use crate::counters::PacketStats;
use crate::models::{
    MetricsSnapshot,
    RealtimeMetrics,
    SummaryStats,
    pct_hundredths,
    percentage_hundredths,
    lemma_pct_bounded,
};
use crate::clock::now_unix_seconds;

verus! {

/// Aggregates and computes metrics from the raw extracted counters.
pub struct MetricsAggregator {
    pub start_time: u64,
    pub last_snapshot: Option<MetricsSnapshot>,
    pub current_snapshot: Option<MetricsSnapshot>,
    pub peak_bandwidth_bps: u64,
}

/// A fresh aggregator started at `start_time`: no snapshot yet, zero peak.
pub open spec fn new_spec(start_time: u64) -> MetricsAggregator {
    MetricsAggregator {
        start_time,
        last_snapshot: None,
        current_snapshot: None,
        peak_bandwidth_bps: 0u64,
    }
}

/// The snapshot taken of `stats` at `timestamp`.
pub open spec fn snapshot_of(stats: PacketStats, timestamp: u64) -> MetricsSnapshot {
    MetricsSnapshot {
        timestamp,
        total_packets: stats.total_packets,
        total_bytes: stats.total_bytes,
        tcp_packets: stats.tcp_packets,
        tcp_bytes: stats.tcp_bytes,
        http_packets: stats.http_packets,
        http_bytes: stats.http_bytes,
        tls_packets: stats.tls_packets,
        tls_bytes: stats.tls_bytes,
    }
}

/// The snapshot holds exactly the eight counters of `stats`, whatever its
/// timestamp.
pub open spec fn snapshot_counters_match(c: MetricsSnapshot, stats: PacketStats) -> bool {
    &&& c.total_packets == stats.total_packets
    &&& c.total_bytes == stats.total_bytes
    &&& c.tcp_packets == stats.tcp_packets
    &&& c.tcp_bytes == stats.tcp_bytes
    &&& c.http_packets == stats.http_packets
    &&& c.http_bytes == stats.http_bytes
    &&& c.tls_packets == stats.tls_packets
    &&& c.tls_bytes == stats.tls_bytes
}

/// Per-second rate of one counter across an interval: the saturating
/// difference divided by `max(1, delta)`, so a counter reset yields zero and
/// an empty interval never divides by zero.
pub open spec fn rate_of(cur: u64, prev: u64, delta: u64) -> u64 {
    div_max1(sat_sub64(cur, prev), delta)
}

/// The eight per-second rates (bytes/sec and packets/sec for overall, TCP,
/// HTTP and TLS traffic), all zero until two snapshots exist.
pub open spec fn rates_spec(m: MetricsAggregator) -> (u64, u64, u64, u64, u64, u64, u64, u64) {
    match m.current_snapshot {
        None => (0u64, 0u64, 0u64, 0u64, 0u64, 0u64, 0u64, 0u64),
        Some(cur) => match m.last_snapshot {
            None => (0u64, 0u64, 0u64, 0u64, 0u64, 0u64, 0u64, 0u64),
            Some(last) => {
                let d = sat_sub64(cur.timestamp, last.timestamp);
                (
                    rate_of(cur.total_bytes, last.total_bytes, d),
                    rate_of(cur.total_packets, last.total_packets, d),
                    rate_of(cur.tcp_bytes, last.tcp_bytes, d),
                    rate_of(cur.tcp_packets, last.tcp_packets, d),
                    rate_of(cur.http_bytes, last.http_bytes, d),
                    rate_of(cur.http_packets, last.http_packets, d),
                    rate_of(cur.tls_bytes, last.tls_bytes, d),
                    rate_of(cur.tls_packets, last.tls_packets, d),
                )
            },
        },
    }
}

/// Cumulative packet total of the current snapshot, zero before the first
/// update.
pub open spec fn current_total_packets(m: MetricsAggregator) -> u64 {
    match m.current_snapshot {
        Some(c) => c.total_packets,
        None => 0u64,
    }
}

/// Cumulative byte total of the current snapshot, zero before the first
/// update.
pub open spec fn current_total_bytes(m: MetricsAggregator) -> u64 {
    match m.current_snapshot {
        Some(c) => c.total_bytes,
        None => 0u64,
    }
}

/// The realtime view: byte rates reported as bits per second (times eight),
/// packet rates as is, plus cumulative totals.
pub open spec fn realtime_spec(m: MetricsAggregator) -> RealtimeMetrics {
    let r = rates_spec(m);
    RealtimeMetrics {
        bandwidth_bps: sat_mul64(r.0, 8),
        packets_per_sec: r.1,
        tcp_bandwidth_bps: sat_mul64(r.2, 8),
        tcp_packets_per_sec: r.3,
        http_bandwidth_bps: sat_mul64(r.4, 8),
        http_packets_per_sec: r.5,
        https_bandwidth_bps: sat_mul64(r.6, 8),
        https_packets_per_sec: r.7,
        total_packets: current_total_packets(m),
        total_bytes: current_total_bytes(m),
    }
}

/// One collection cycle: the previous snapshot is overwritten by the current
/// one and the new counters are stamped with `timestamp`. An update moves
/// only the two snapshot slots; the peak high-water mark belongs to the
/// realtime read.
pub open spec fn update_spec(
    m: MetricsAggregator,
    stats: PacketStats,
    timestamp: u64,
) -> MetricsAggregator {
    MetricsAggregator {
        start_time: m.start_time,
        last_snapshot: m.current_snapshot,
        current_snapshot: Some(snapshot_of(stats, timestamp)),
        peak_bandwidth_bps: m.peak_bandwidth_bps,
    }
}

/// The state after one realtime read: the peak high-water mark absorbs the
/// overall bandwidth the read reports; nothing else moves.
pub open spec fn observe_spec(m: MetricsAggregator) -> MetricsAggregator {
    MetricsAggregator {
        start_time: m.start_time,
        last_snapshot: m.last_snapshot,
        current_snapshot: m.current_snapshot,
        peak_bandwidth_bps: max64(m.peak_bandwidth_bps, realtime_spec(m).bandwidth_bps),
    }
}

/// The summary view at wall-clock second `now`: uptime clamped to zero,
/// average bandwidth over `max(1, uptime)`, the peak high-water mark, and
/// the protocol byte shares in hundredths of a percent (exactly zero when no
/// bytes were counted).
pub open spec fn summary_spec(m: MetricsAggregator, now: u64) -> SummaryStats {
    let uptime = sat_sub64(now, m.start_time);
    let total_bytes = current_total_bytes(m);
    let (tcp_b, http_b, tls_b) = match m.current_snapshot {
        Some(c) => (c.tcp_bytes, c.http_bytes, c.tls_bytes),
        None => (0u64, 0u64, 0u64),
    };
    SummaryStats {
        uptime_seconds: uptime,
        avg_bandwidth_bps: div_max1(sat_mul64(total_bytes, 8), uptime),
        peak_bandwidth_bps: m.peak_bandwidth_bps,
        total_packets: current_total_packets(m),
        total_bytes,
        tcp_percentage: pct_hundredths(tcp_b, total_bytes),
        http_percentage: pct_hundredths(http_b, total_bytes),
        https_percentage: pct_hundredths(tls_b, total_bytes),
    }
}

impl MetricsAggregator {
    /// A fresh aggregator whose observation window starts at `start_time`.
    pub fn new_at(start_time: u64) -> (r: MetricsAggregator)
        ensures
            r == new_spec(start_time),
    {
        MetricsAggregator {
            start_time,
            last_snapshot: None,
            current_snapshot: None,
            peak_bandwidth_bps: 0,
        }
    }

    /// A fresh aggregator started at the current wall-clock time.
    pub fn new() -> (r: MetricsAggregator)
        ensures
            exists|t: u64| r == new_spec(t),
    {
        let t = now_unix_seconds();
        let r = MetricsAggregator::new_at(t);
        proof {
            assert(r == new_spec(t));
        }
        r
    }

    /// Applies one collection cycle with an explicit capture timestamp.
    pub fn update_at(&mut self, stats: PacketStats, timestamp: u64)
        ensures
            *final(self) == update_spec(*old(self), stats, timestamp),
    {
        self.last_snapshot = self.current_snapshot;
        self.current_snapshot = Some(
            MetricsSnapshot {
                timestamp,
                total_packets: stats.total_packets,
                total_bytes: stats.total_bytes,
                tcp_packets: stats.tcp_packets,
                tcp_bytes: stats.tcp_bytes,
                http_packets: stats.http_packets,
                http_bytes: stats.http_bytes,
                tls_packets: stats.tls_packets,
                tls_bytes: stats.tls_bytes,
            },
        );
    }

    /// Applies one collection cycle stamped with the current wall-clock
    /// time.
    pub fn update(&mut self, stats: PacketStats)
        ensures
            exists|t: u64| *final(self) == update_spec(*old(self), stats, t),
            final(self).start_time == old(self).start_time,
            final(self).last_snapshot == old(self).current_snapshot,
            final(self).current_snapshot matches Some(c) && snapshot_counters_match(c, stats),
            final(self).peak_bandwidth_bps == old(self).peak_bandwidth_bps,
    {
        let t = now_unix_seconds();
        self.update_at(stats, t);
        proof {
            assert(*self == update_spec(*old(self), stats, t));
        }
    }

    /// The current real-time rates and totals, computed from the two
    /// retained snapshots. The read also raises the peak-bandwidth
    /// high-water mark to the overall bandwidth it reports, if that exceeds
    /// the stored peak; nothing else changes.
    pub fn get_realtime_metrics(&mut self) -> (r: RealtimeMetrics)
        ensures
            r == realtime_spec(*old(self)),
            *final(self) == observe_spec(*old(self)),
    {
        let (bytes_ps, packets_ps, tcp_bytes_ps, tcp_packets_ps, http_bytes_ps, http_packets_ps,
             tls_bytes_ps, tls_packets_ps) = self.calculate_rates();
        let (total_packets, total_bytes) = match self.current_snapshot {
            Some(c) => (c.total_packets, c.total_bytes),
            None => (0, 0),
        };
        let r = RealtimeMetrics {
            bandwidth_bps: saturating_mul64(bytes_ps, 8),
            packets_per_sec: packets_ps,
            tcp_bandwidth_bps: saturating_mul64(tcp_bytes_ps, 8),
            tcp_packets_per_sec: tcp_packets_ps,
            http_bandwidth_bps: saturating_mul64(http_bytes_ps, 8),
            http_packets_per_sec: http_packets_ps,
            https_bandwidth_bps: saturating_mul64(tls_bytes_ps, 8),
            https_packets_per_sec: tls_packets_ps,
            total_packets,
            total_bytes,
        };
        if r.bandwidth_bps > self.peak_bandwidth_bps {
            self.peak_bandwidth_bps = r.bandwidth_bps;
        }
        r
    }

    /// The summary view for an explicit wall-clock second.
    pub fn get_summary_at(&self, now: u64) -> (r: SummaryStats)
        ensures
            r == summary_spec(*self, now),
    {
        let uptime = now.saturating_sub(self.start_time);
        let (total_packets, total_bytes, tcp_b, http_b, tls_b) = match self.current_snapshot {
            Some(c) => (c.total_packets, c.total_bytes, c.tcp_bytes, c.http_bytes, c.tls_bytes),
            None => (0, 0, 0, 0, 0),
        };
        SummaryStats {
            uptime_seconds: uptime,
            avg_bandwidth_bps: divide_max1(saturating_mul64(total_bytes, 8), uptime),
            peak_bandwidth_bps: self.peak_bandwidth_bps,
            total_packets,
            total_bytes,
            tcp_percentage: percentage_hundredths(tcp_b, total_bytes),
            http_percentage: percentage_hundredths(http_b, total_bytes),
            https_percentage: percentage_hundredths(tls_b, total_bytes),
        }
    }

    /// The summary view at the current wall-clock time.
    pub fn get_summary(&self) -> (r: SummaryStats)
        ensures
            exists|t: u64| r == summary_spec(*self, t),
            r.peak_bandwidth_bps == self.peak_bandwidth_bps,
            r.total_packets == current_total_packets(*self),
            r.total_bytes == current_total_bytes(*self),
    {
        let t = now_unix_seconds();
        let r = self.get_summary_at(t);
        proof {
            assert(r == summary_spec(*self, t));
        }
        r
    }

    /// The eight per-second rates, all zero until a previous snapshot
    /// exists.
    fn calculate_rates(&self) -> (r: (u64, u64, u64, u64, u64, u64, u64, u64))
        ensures
            r == rates_spec(*self),
    {
        let cur = match self.current_snapshot {
            Some(c) => c,
            None => {
                return (0, 0, 0, 0, 0, 0, 0, 0);
            },
        };
        let last = match self.last_snapshot {
            Some(l) => l,
            None => {
                return (0, 0, 0, 0, 0, 0, 0, 0);
            },
        };
        let delta = cur.timestamp.saturating_sub(last.timestamp);
        (
            divide_max1(cur.total_bytes.saturating_sub(last.total_bytes), delta),
            divide_max1(cur.total_packets.saturating_sub(last.total_packets), delta),
            divide_max1(cur.tcp_bytes.saturating_sub(last.tcp_bytes), delta),
            divide_max1(cur.tcp_packets.saturating_sub(last.tcp_packets), delta),
            divide_max1(cur.http_bytes.saturating_sub(last.http_bytes), delta),
            divide_max1(cur.http_packets.saturating_sub(last.http_packets), delta),
            divide_max1(cur.tls_bytes.saturating_sub(last.tls_bytes), delta),
            divide_max1(cur.tls_packets.saturating_sub(last.tls_packets), delta),
        )
    }
}

/// The realtime view is a function of the two snapshots alone and a read
/// moves only the peak, which the view does not show: two reads without an
/// intervening update return identical results, and the second read leaves
/// the state unchanged.
pub proof fn lemma_realtime_idempotent(
    m: MetricsAggregator,
    r1: RealtimeMetrics,
    r2: RealtimeMetrics,
)
    requires
        r1 == realtime_spec(m),
        r2 == realtime_spec(observe_spec(m)),
    ensures
        r1 == r2,
        observe_spec(observe_spec(m)) == observe_spec(m),
{
}

/// The summary view is a function of the aggregator state and the clock
/// second alone: two reads within the same second and without an
/// intervening update return identical results.
pub proof fn lemma_summary_idempotent(
    m: MetricsAggregator,
    now: u64,
    s1: SummaryStats,
    s2: SummaryStats,
)
    requires
        s1 == summary_spec(m, now),
        s2 == summary_spec(m, now),
    ensures
        s1 == s2,
{
}

/// The first update ever applied leaves no previous snapshot, so the rates
/// read immediately afterwards are all zero while the totals are the new
/// counters.
pub proof fn lemma_first_update_zero_rates(m: MetricsAggregator, stats: PacketStats, t: u64)
    requires
        m.current_snapshot is None,
    ensures
        ({
            let r = realtime_spec(update_spec(m, stats, t));
            &&& r.bandwidth_bps == 0
            &&& r.packets_per_sec == 0
            &&& r.tcp_bandwidth_bps == 0
            &&& r.tcp_packets_per_sec == 0
            &&& r.http_bandwidth_bps == 0
            &&& r.http_packets_per_sec == 0
            &&& r.https_bandwidth_bps == 0
            &&& r.https_packets_per_sec == 0
            &&& r.total_packets == stats.total_packets
            &&& r.total_bytes == stats.total_bytes
        }),
{
}

/// A counter that moved backwards or stood still (a reset) yields a zero
/// rate for the interval, never an underflow or an error.
pub proof fn lemma_reset_rate_zero(cur: u64, prev: u64, delta: u64)
    requires
        cur <= prev,
    ensures
        rate_of(cur, prev, delta) == 0,
{
}

/// Percentage invariant: for a well-formed snapshot each protocol share is
/// at most one hundred percent, and with a zero byte total all three shares
/// are exactly zero.
pub proof fn lemma_summary_percentages(m: MetricsAggregator, now: u64)
    requires
        m.current_snapshot matches Some(c) ==> c.wf(),
    ensures
        ({
            let s = summary_spec(m, now);
            &&& s.tcp_percentage <= 10000
            &&& s.http_percentage <= 10000
            &&& s.https_percentage <= 10000
            &&& s.total_bytes == 0 ==> s.tcp_percentage == 0 && s.http_percentage == 0
                && s.https_percentage == 0
        }),
{
    match m.current_snapshot {
        Some(c) => {
            lemma_pct_bounded(c.tcp_bytes, c.total_bytes);
            lemma_pct_bounded(c.http_bytes, c.total_bytes);
            lemma_pct_bounded(c.tls_bytes, c.total_bytes);
        },
        None => {},
    }
}

/// An update leaves the peak-bandwidth high-water mark exactly where it
/// was; only a realtime read can move it, upwards, to absorb the bandwidth
/// it reports.
pub proof fn lemma_peak_moves_only_on_reads(m: MetricsAggregator, stats: PacketStats, t: u64)
    ensures
        update_spec(m, stats, t).peak_bandwidth_bps == m.peak_bandwidth_bps,
        observe_spec(m).peak_bandwidth_bps == max64(
            m.peak_bandwidth_bps,
            realtime_spec(m).bandwidth_bps,
        ),
        observe_spec(m).peak_bandwidth_bps >= m.peak_bandwidth_bps,
{
}

/// One interaction with the aggregator: a collection-cycle update carrying
/// its counters and capture timestamp, or a realtime read.
pub enum AggregatorEvent {
    Update(PacketStats, u64),
    Read,
}

/// The aggregator after a whole sequence of interactions.
pub open spec fn apply_events(
    m: MetricsAggregator,
    es: Seq<AggregatorEvent>,
) -> MetricsAggregator
    decreases es.len(),
{
    if es.len() == 0 {
        m
    } else {
        let prev = apply_events(m, es.drop_last());
        match es.last() {
            AggregatorEvent::Update(stats, t) => update_spec(prev, stats, t),
            AggregatorEvent::Read => observe_spec(prev),
        }
    }
}

/// The largest overall bandwidth any realtime read in the sequence
/// reported, starting from the peak already recorded.
pub open spec fn max_observed_bw(m: MetricsAggregator, es: Seq<AggregatorEvent>) -> u64
    decreases es.len(),
{
    if es.len() == 0 {
        m.peak_bandwidth_bps
    } else {
        let sofar = max_observed_bw(m, es.drop_last());
        match es.last() {
            AggregatorEvent::Update(stats, t) => sofar,
            AggregatorEvent::Read => max64(
                sofar,
                realtime_spec(apply_events(m, es.drop_last())).bandwidth_bps,
            ),
        }
    }
}

/// Peak-bandwidth law: across any interleaving of updates and realtime
/// reads, the recorded peak equals the maximum overall bandwidth ever
/// observed through a realtime read, and is therefore non-decreasing across
/// the whole run.
pub proof fn lemma_peak_is_max_observed(m: MetricsAggregator, es: Seq<AggregatorEvent>)
    ensures
        apply_events(m, es).peak_bandwidth_bps == max_observed_bw(m, es),
        apply_events(m, es).peak_bandwidth_bps >= m.peak_bandwidth_bps,
    decreases es.len(),
{
    if es.len() == 0 {
    } else {
        lemma_peak_is_max_observed(m, es.drop_last());
    }
}

/// An update with well-formed counters keeps the retained snapshot
/// well-formed, so the percentage law applies to every state the collection
/// loop can produce.
pub proof fn lemma_update_preserves_wf(m: MetricsAggregator, stats: PacketStats, t: u64)
    requires
        stats.wf(),
    ensures
        update_spec(m, stats, t).current_snapshot matches Some(c) && c.wf(),
{
}

} // verus!
