use sampler::config::{
    Cli, ConfigError, ConfigFile, LimitsConfig, Protocol, TargetConfig, TrafficConfig,
    TrafficConfigFile,
};

fn empty_cli() -> Cli {
    Cli {
        target: None,
        protocol: None,
        bandwidth: None,
        connections: None,
        total_size: None,
        latency: None,
        duration: None,
        request_size: None,
    }
}

#[test]
fn bandwidth_bytes_per_second_suffix() {
    // 1 MB/s = 1_000_000 bytes/sec = 8_000_000 bits/sec.
    assert_eq!(TrafficConfig::parse_bandwidth("1MB/s"), Ok(8_000_000));
    assert_eq!(TrafficConfig::parse_bandwidth("500KB/s"), Ok(4_000_000));
}

#[test]
fn bandwidth_bits_per_second_suffix() {
    assert_eq!(TrafficConfig::parse_bandwidth("100bps"), Ok(100));
    assert_eq!(TrafficConfig::parse_bandwidth("10Mbps"), Ok(10_000_000));
}

#[test]
fn bandwidth_without_known_suffix_is_rejected() {
    assert_eq!(
        TrafficConfig::parse_bandwidth("12MB"),
        Err(ConfigError::InvalidBandwidth)
    );
    assert_eq!(
        TrafficConfig::parse_bandwidth("fast/s"),
        Err(ConfigError::InvalidBandwidth)
    );
}

#[test]
fn sizes_parse_decimal_and_binary_units() {
    assert_eq!(TrafficConfig::parse_size("1KB"), Ok(1000));
    assert_eq!(TrafficConfig::parse_size("1KiB"), Ok(1024));
    assert_eq!(TrafficConfig::parse_size("42"), Ok(42));
    assert_eq!(TrafficConfig::parse_size("nonsense"), Err(ConfigError::InvalidSize));
}

#[test]
fn load_with_defaults() {
    let cfg = TrafficConfig::load(empty_cli(), None).unwrap();
    assert_eq!(cfg.target_url, "http://httpbin.org");
    assert_eq!(cfg.target_bandwidth_bps, 8_000_000);
    assert_eq!(cfg.connections, 10);
    assert_eq!(cfg.total_bytes, 0);
    assert_eq!(cfg.request_delay, 0);
    assert_eq!(cfg.run_duration, 0);
    assert_eq!(cfg.protocol, Protocol::Http);
    assert_eq!(cfg.request_size, 1000);
    assert_eq!(cfg.bytes_per_second(), 1_000_000);
}

#[test]
fn cli_overrides_beat_file_values() {
    let file = ConfigFile {
        target: TargetConfig {
            url: "http://example.test".to_string(),
            protocol: "http".to_string(),
        },
        traffic: TrafficConfigFile {
            bandwidth: "1MB/s".to_string(),
            connections: 3,
            request_size: "2KB".to_string(),
            latency: "250ms".to_string(),
        },
        limits: LimitsConfig {
            duration: "30s".to_string(),
            total_size: "100MB".to_string(),
        },
    };
    let cli = Cli {
        target: None,
        protocol: Some("HTTPS".to_string()),
        bandwidth: Some("2MB/s".to_string()),
        connections: Some(7),
        total_size: None,
        latency: None,
        duration: Some("2m".to_string()),
        request_size: None,
    };
    let cfg = TrafficConfig::load(cli, Some(file)).unwrap();
    assert_eq!(cfg.target_url, "http://example.test");
    assert_eq!(cfg.protocol, Protocol::Https);
    assert_eq!(cfg.target_bandwidth_bps, 16_000_000);
    assert_eq!(cfg.connections, 7);
    assert_eq!(cfg.total_bytes, 100_000_000);
    assert_eq!(cfg.request_delay, 250);
    assert_eq!(cfg.run_duration, 120_000);
    assert_eq!(cfg.request_size, 2000);
}

#[test]
fn invalid_protocol_is_rejected() {
    let mut cli = empty_cli();
    cli.protocol = Some("ftp".to_string());
    assert_eq!(TrafficConfig::load(cli, None).unwrap_err(), ConfigError::InvalidProtocol);
}

#[test]
fn invalid_latency_is_rejected() {
    let mut cli = empty_cli();
    cli.latency = Some("soon".to_string());
    assert_eq!(TrafficConfig::load(cli, None).unwrap_err(), ConfigError::InvalidLatency);
}

#[test]
fn invalid_duration_is_rejected() {
    let mut cli = empty_cli();
    cli.duration = Some("whenever".to_string());
    assert_eq!(TrafficConfig::load(cli, None).unwrap_err(), ConfigError::InvalidDuration);
}

#[test]
fn bandwidth_error_wins_over_later_errors() {
    let mut cli = empty_cli();
    cli.bandwidth = Some("broken".to_string());
    cli.protocol = Some("ftp".to_string());
    assert_eq!(TrafficConfig::load(cli, None).unwrap_err(), ConfigError::InvalidBandwidth);
}

#[test]
fn zero_total_size_means_infinite() {
    let mut cli = empty_cli();
    cli.total_size = Some("0".to_string());
    let cfg = TrafficConfig::load(cli, None).unwrap();
    assert_eq!(cfg.total_bytes, 0);
}

#[test]
fn total_size_parses_units() {
    let mut cli = empty_cli();
    cli.total_size = Some("1GB".to_string());
    let cfg = TrafficConfig::load(cli, None).unwrap();
    assert_eq!(cfg.total_bytes, 1_000_000_000);
}

#[test]
fn protocol_matching_folds_case() {
    let mut cli = empty_cli();
    cli.protocol = Some("Http".to_string());
    let cfg = TrafficConfig::load(cli, None).unwrap();
    assert_eq!(cfg.protocol, Protocol::Http);
}

#[test]
fn overlong_duration_strings_are_rejected() {
    // The parser is only handed strings short enough that its one-second
    // carry boundary is out of reach; longer ones are invalid.
    let mut cli = empty_cli();
    cli.duration = Some("18446744073709551615s 1000000000ns".to_string());
    assert_eq!(TrafficConfig::load(cli, None).unwrap_err(), ConfigError::InvalidDuration);
    let mut cli2 = empty_cli();
    cli2.latency = Some("1 day 2 hours 3 minutes".to_string());
    assert_eq!(TrafficConfig::load(cli2, None).unwrap_err(), ConfigError::InvalidLatency);
}

#[test]
fn compound_duration_within_bound_parses() {
    let mut cli = empty_cli();
    cli.duration = Some("1 hour 30 minutes".to_string());
    let cfg = TrafficConfig::load(cli, None).unwrap();
    assert_eq!(cfg.run_duration, 5_400_000);
}
