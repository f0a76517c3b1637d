use sampler::config::{Protocol, TrafficConfig};
use sampler::generator::{generate_payload, TrafficGenerator};
use sampler::lifecycle::{next_step, Opt, SetupStep};
use sampler::stats::Stats;

#[test]
fn stats_count_requests_and_bytes() {
    let mut stats = Stats::new();
    assert_eq!(stats.get_requests(), 0);
    assert_eq!(stats.get_bytes(), 0);
    assert_eq!(stats.get_errors(), 0);
    stats.record_request(512);
    stats.record_request(488);
    stats.record_error();
    assert_eq!(stats.get_requests(), 2);
    assert_eq!(stats.get_bytes(), 1000);
    assert_eq!(stats.get_errors(), 1);
}

#[test]
fn stats_counters_saturate() {
    let mut stats = Stats::new();
    stats.record_request(u64::MAX);
    stats.record_request(10);
    assert_eq!(stats.get_bytes(), u64::MAX);
    assert_eq!(stats.get_requests(), 2);
}

#[test]
fn bandwidth_over_elapsed_time() {
    let mut stats = Stats::new();
    stats.record_request(1000);
    // 1000 bytes * 8 bits over 2 seconds.
    assert_eq!(stats.bandwidth_bps_over(2), 4000);
    // No whole second elapsed yet: reported as zero.
    assert_eq!(stats.bandwidth_bps_over(0), 0);
}

#[test]
fn generator_starts_with_zeroed_stats() {
    let cfg = TrafficConfig {
        target_url: "http://example.test".to_string(),
        target_bandwidth_bps: 8_000_000,
        connections: 4,
        total_bytes: 0,
        request_delay: 0,
        run_duration: 0,
        protocol: Protocol::Http,
        request_size: 1000,
    };
    let gen = TrafficGenerator::new(cfg).unwrap();
    assert_eq!(gen.stats.get_requests(), 0);
    assert_eq!(gen.stats.get_bytes(), 0);
    assert_eq!(gen.stats.get_errors(), 0);
    assert_eq!(gen.config.connections, 4);
    assert_eq!(gen.config.bytes_per_second(), 1_000_000);
}

#[test]
fn default_options_name_eth0_and_port_3000() {
    let opt = Opt::default();
    assert_eq!(opt.iface, "eth0");
    assert_eq!(opt.port, 3000);
}

#[test]
fn setup_tolerates_limit_and_logger_failures() {
    let mut s = SetupStep::RaiseMemlock;
    s = next_step(s, false);
    assert_eq!(s, SetupStep::LoadProgram);
    s = next_step(s, true);
    assert_eq!(s, SetupStep::InitLogger);
    s = next_step(s, false);
    assert_eq!(s, SetupStep::AttachNative);
    s = next_step(s, true);
    assert_eq!(s, SetupStep::Ready);
}

#[test]
fn setup_falls_back_to_generic_hook_once() {
    let mut s = SetupStep::AttachNative;
    s = next_step(s, false);
    assert_eq!(s, SetupStep::AttachGeneric);
    s = next_step(s, true);
    assert_eq!(s, SetupStep::Ready);
}

#[test]
fn setup_fails_when_both_attach_modes_fail() {
    let mut s = SetupStep::AttachNative;
    s = next_step(s, false);
    s = next_step(s, false);
    assert_eq!(s, SetupStep::Failed);
}

#[test]
fn setup_fails_when_load_fails() {
    let mut s = SetupStep::LoadProgram;
    s = next_step(s, false);
    assert_eq!(s, SetupStep::Failed);
    // A failed sequence stays failed.
    s = next_step(s, true);
    assert_eq!(s, SetupStep::Failed);
}

#[test]
fn payload_has_exactly_the_requested_size() {
    assert_eq!(generate_payload(1000).len(), 1000);
    assert!(generate_payload(0).is_empty());
}
