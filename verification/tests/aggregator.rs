use sampler::aggregator::MetricsAggregator;
use sampler::counters::PacketStats;

fn stats_with(total_bytes: u64, total_packets: u64) -> PacketStats {
    PacketStats {
        total_packets,
        total_bytes,
        tcp_packets: 0,
        tcp_bytes: 0,
        tls_packets: 0,
        tls_bytes: 0,
        http_packets: 0,
        http_bytes: 0,
    }
}

#[test]
fn first_update_yields_zero_rates() {
    let mut agg = MetricsAggregator::new_at(0);
    agg.update_at(stats_with(5000, 40), 7);
    let r = agg.get_realtime_metrics();
    assert_eq!(r.bandwidth_bps, 0);
    assert_eq!(r.packets_per_sec, 0);
    assert_eq!(r.tcp_bandwidth_bps, 0);
    assert_eq!(r.tcp_packets_per_sec, 0);
    assert_eq!(r.http_bandwidth_bps, 0);
    assert_eq!(r.http_packets_per_sec, 0);
    assert_eq!(r.https_bandwidth_bps, 0);
    assert_eq!(r.https_packets_per_sec, 0);
    assert_eq!(r.total_packets, 40);
    assert_eq!(r.total_bytes, 5000);
}

#[test]
fn two_updates_give_exact_bandwidth() {
    let mut agg = MetricsAggregator::new_at(0);
    agg.update_at(stats_with(1000, 1), 0);
    agg.update_at(stats_with(9000, 2), 1);
    let r = agg.get_realtime_metrics();
    // 8000 bytes over one second, times eight bits.
    assert_eq!(r.bandwidth_bps, 64000);
    assert_eq!(r.packets_per_sec, 1);
}

#[test]
fn counter_reset_gives_zero_rate() {
    let mut agg = MetricsAggregator::new_at(0);
    agg.update_at(stats_with(1000, 10), 0);
    agg.update_at(stats_with(900, 4), 1);
    let r = agg.get_realtime_metrics();
    assert_eq!(r.bandwidth_bps, 0);
    assert_eq!(r.packets_per_sec, 0);
}

#[test]
fn equal_counters_give_zero_rate() {
    let mut agg = MetricsAggregator::new_at(0);
    agg.update_at(stats_with(1000, 10), 0);
    agg.update_at(stats_with(1000, 10), 3);
    let r = agg.get_realtime_metrics();
    assert_eq!(r.bandwidth_bps, 0);
    assert_eq!(r.packets_per_sec, 0);
}

#[test]
fn percentages_follow_byte_shares() {
    let mut agg = MetricsAggregator::new_at(0);
    let stats = PacketStats {
        total_packets: 10,
        total_bytes: 1000,
        tcp_packets: 5,
        tcp_bytes: 250,
        tls_packets: 1,
        tls_bytes: 100,
        http_packets: 1,
        http_bytes: 50,
    };
    agg.update_at(stats, 5);
    let s = agg.get_summary_at(10);
    // Shares are in hundredths of a percent.
    assert_eq!(s.tcp_percentage, 2500);
    assert_eq!(s.https_percentage, 1000);
    assert_eq!(s.http_percentage, 500);
    assert!(s.tcp_percentage <= 10000);
    assert_eq!(s.uptime_seconds, 10);
    // 1000 bytes * 8 bits over 10 seconds.
    assert_eq!(s.avg_bandwidth_bps, 800);
}

#[test]
fn zero_total_gives_zero_percentages() {
    let agg = MetricsAggregator::new_at(0);
    let s = agg.get_summary_at(50);
    assert_eq!(s.total_bytes, 0);
    assert_eq!(s.tcp_percentage, 0);
    assert_eq!(s.http_percentage, 0);
    assert_eq!(s.https_percentage, 0);
    assert_eq!(s.uptime_seconds, 50);
    assert_eq!(s.avg_bandwidth_bps, 0);
}

#[test]
fn reads_are_idempotent() {
    let mut agg = MetricsAggregator::new_at(3);
    agg.update_at(stats_with(1000, 1), 4);
    agg.update_at(stats_with(5000, 9), 6);
    let r1 = agg.get_realtime_metrics();
    let r2 = agg.get_realtime_metrics();
    assert_eq!(r1, r2);
    let s1 = agg.get_summary_at(20);
    let s2 = agg.get_summary_at(20);
    assert_eq!(s1, s2);
}

#[test]
fn peak_bandwidth_is_running_maximum() {
    let mut agg = MetricsAggregator::new_at(0);
    let updates: Vec<(u64, u64)> =
        vec![(1000, 0), (9000, 1), (9000, 2), (29000, 3), (30000, 4)];
    let mut max_seen: u64 = 0;
    let mut last_peak: u64 = 0;
    for (bytes, t) in updates {
        agg.update_at(stats_with(bytes, 0), t);
        let bw = agg.get_realtime_metrics().bandwidth_bps;
        if bw > max_seen {
            max_seen = bw;
        }
        let peak = agg.get_summary_at(t).peak_bandwidth_bps;
        assert!(peak >= last_peak);
        last_peak = peak;
        assert_eq!(peak, max_seen);
    }
    // 20000 bytes in one second was the largest interval: 160000 bits/sec.
    assert_eq!(last_peak, 160000);
}

#[test]
fn uptime_is_clamped_to_zero() {
    let agg = MetricsAggregator::new_at(100);
    let s = agg.get_summary_at(40);
    assert_eq!(s.uptime_seconds, 0);
}

#[test]
fn same_second_updates_divide_by_one() {
    let mut agg = MetricsAggregator::new_at(0);
    agg.update_at(stats_with(1000, 1), 5);
    agg.update_at(stats_with(2000, 3), 5);
    let r = agg.get_realtime_metrics();
    // Zero seconds elapsed: the difference itself is reported.
    assert_eq!(r.bandwidth_bps, 8000);
    assert_eq!(r.packets_per_sec, 2);
}

#[test]
fn update_leaves_peak_for_the_realtime_read() {
    let mut agg = MetricsAggregator::new_at(0);
    agg.update_at(stats_with(1000, 1), 0);
    agg.update_at(stats_with(9000, 2), 1);
    // No realtime read has happened: the peak is still zero.
    assert_eq!(agg.get_summary_at(5).peak_bandwidth_bps, 0);
    let r = agg.get_realtime_metrics();
    assert_eq!(r.bandwidth_bps, 64000);
    // The read absorbed the bandwidth it reported.
    assert_eq!(agg.get_summary_at(5).peak_bandwidth_bps, 64000);
    // A further update alone does not move the recorded peak.
    agg.update_at(stats_with(9000, 2), 2);
    assert_eq!(agg.get_summary_at(5).peak_bandwidth_bps, 64000);
}
