//! Traffic-generator configuration: defaults, file values, command-line
//! overrides, and the parsers that turn human-readable size, bandwidth and
//! duration strings into numbers.
//!
//! Priority is defaults < config file < command-line arguments. Reading and
//! decoding the file itself is input handled by the caller; this module
//! merges and validates plain values.

use vstd::prelude::*;
use vstd::string::StringExecFns;
use vstd::string::StrSliceExecFns;
use crate::arith::{sat_add64, sat_mul64, saturating_mul64};
use crate::strutil::{
    ends_with_spec,
    strip_suffix_all_spec,
    lower_of,
    has_suffix,
    strip_suffix_repeated,
    lowercase,
};

verus! {

/// Application protocol the generated traffic speaks.
#[derive(Debug, Clone, Copy, PartialEq, Eq, Structural)]
pub enum Protocol {
    Http,
    Https,
}

/// Why a configuration was rejected.
#[derive(Debug, Clone, Copy, PartialEq, Eq, Structural)]
pub enum ConfigError {
    /// The bandwidth string has no `bps` or `/s` suffix, or its number part
    /// does not parse.
    InvalidBandwidth,
    /// A size string does not parse.
    InvalidSize,
    /// The latency string does not parse as a duration.
    InvalidLatency,
    /// The run-duration string does not parse as a duration.
    InvalidDuration,
    /// The protocol string is neither `http` nor `https`.
    InvalidProtocol,
}

/// The fully resolved generator configuration. Delays and durations are in
/// whole milliseconds.
#[derive(Debug, Clone)]
pub struct TrafficConfig {
    pub target_url: String,
    pub target_bandwidth_bps: u64,
    pub connections: usize,
    /// 0 = infinite.
    pub total_bytes: u64,
    /// Milliseconds of extra delay before each request.
    pub request_delay: u64,
    /// Milliseconds to run; 0 = infinite.
    pub run_duration: u64,
    pub protocol: Protocol,
    pub request_size: usize,
}

/// Ghost view of `TrafficConfig`: strings as character sequences.
pub struct TrafficConfigV {
    pub target_url: Seq<char>,
    pub target_bandwidth_bps: u64,
    pub connections: usize,
    pub total_bytes: u64,
    pub request_delay: u64,
    pub run_duration: u64,
    pub protocol: Protocol,
    pub request_size: usize,
}

impl View for TrafficConfig {
    type V = TrafficConfigV;

    open spec fn view(&self) -> TrafficConfigV {
        TrafficConfigV {
            target_url: self.target_url@,
            target_bandwidth_bps: self.target_bandwidth_bps,
            connections: self.connections,
            total_bytes: self.total_bytes,
            request_delay: self.request_delay,
            run_duration: self.run_duration,
            protocol: self.protocol,
            request_size: self.request_size,
        }
    }
}

/// Raw configuration-file values, still as strings.
#[derive(Debug, Clone)]
pub struct ConfigFile {
    pub target: TargetConfig,
    pub traffic: TrafficConfigFile,
    pub limits: LimitsConfig,
}

#[derive(Debug, Clone)]
pub struct TargetConfig {
    pub url: String,
    pub protocol: String,
}

#[derive(Debug, Clone)]
pub struct TrafficConfigFile {
    pub bandwidth: String,
    pub connections: usize,
    pub request_size: String,
    pub latency: String,
}

#[derive(Debug, Clone)]
pub struct LimitsConfig {
    pub duration: String,
    pub total_size: String,
}

/// Ghost view of the raw file values.
pub struct ConfigFileV {
    pub url: Seq<char>,
    pub protocol: Seq<char>,
    pub bandwidth: Seq<char>,
    pub connections: usize,
    pub request_size: Seq<char>,
    pub latency: Seq<char>,
    pub duration: Seq<char>,
    pub total_size: Seq<char>,
}

impl View for ConfigFile {
    type V = ConfigFileV;

    open spec fn view(&self) -> ConfigFileV {
        ConfigFileV {
            url: self.target.url@,
            protocol: self.target.protocol@,
            bandwidth: self.traffic.bandwidth@,
            connections: self.traffic.connections,
            request_size: self.traffic.request_size@,
            latency: self.traffic.latency@,
            duration: self.limits.duration@,
            total_size: self.limits.total_size@,
        }
    }
}

/// Command-line overrides; `None` leaves the file (or default) value.
#[derive(Debug, Clone)]
pub struct Cli {
    pub target: Option<String>,
    pub protocol: Option<String>,
    pub bandwidth: Option<String>,
    pub connections: Option<usize>,
    pub total_size: Option<String>,
    pub latency: Option<String>,
    pub duration: Option<String>,
    pub request_size: Option<String>,
}

/// Ghost view of the command-line overrides.
pub struct CliV {
    pub target: Option<Seq<char>>,
    pub protocol: Option<Seq<char>>,
    pub bandwidth: Option<Seq<char>>,
    pub connections: Option<usize>,
    pub total_size: Option<Seq<char>>,
    pub latency: Option<Seq<char>>,
    pub duration: Option<Seq<char>>,
    pub request_size: Option<Seq<char>>,
}

impl View for Cli {
    type V = CliV;

    open spec fn view(&self) -> CliV {
        CliV {
            target: match self.target {
                Some(s) => Some(s@),
                None => None,
            },
            protocol: match self.protocol {
                Some(s) => Some(s@),
                None => None,
            },
            bandwidth: match self.bandwidth {
                Some(s) => Some(s@),
                None => None,
            },
            connections: self.connections,
            total_size: match self.total_size {
                Some(s) => Some(s@),
                None => None,
            },
            latency: match self.latency {
                Some(s) => Some(s@),
                None => None,
            },
            duration: match self.duration {
                Some(s) => Some(s@),
                None => None,
            },
            request_size: match self.request_size {
                Some(s) => Some(s@),
                None => None,
            },
        }
    }
}

// Default values.
pub fn default_url() -> (r: String)
    ensures
        r@ == "http://httpbin.org"@,
{
    "http://httpbin.org".to_owned()
}

pub fn default_protocol() -> (r: String)
    ensures
        r@ == "http"@,
{
    "http".to_owned()
}

pub fn default_bandwidth() -> (r: String)
    ensures
        r@ == "1MB/s"@,
{
    "1MB/s".to_owned()
}

pub fn default_connections() -> (r: usize)
    ensures
        r == 10,
{
    10
}

pub fn default_request_size() -> (r: String)
    ensures
        r@ == "1KB"@,
{
    "1KB".to_owned()
}

pub fn default_latency() -> (r: String)
    ensures
        r@ == "0ms"@,
{
    "0ms".to_owned()
}

pub fn default_duration() -> (r: String)
    ensures
        r@ == "0s"@,
{
    "0s".to_owned()
}

pub fn default_total_size() -> (r: String)
    ensures
        r@ == "0"@,
{
    "0".to_owned()
}

/// The view of a wholly default configuration file.
pub open spec fn default_file_spec() -> ConfigFileV {
    ConfigFileV {
        url: "http://httpbin.org"@,
        protocol: "http"@,
        bandwidth: "1MB/s"@,
        connections: 10usize,
        request_size: "1KB"@,
        latency: "0ms"@,
        duration: "0s"@,
        total_size: "0"@,
    }
}

impl Default for TargetConfig {
    fn default() -> (r: TargetConfig)
        ensures
            r.url@ == "http://httpbin.org"@,
            r.protocol@ == "http"@,
    {
        TargetConfig { url: default_url(), protocol: default_protocol() }
    }
}

impl Default for TrafficConfigFile {
    fn default() -> (r: TrafficConfigFile)
        ensures
            r.bandwidth@ == "1MB/s"@,
            r.connections == 10,
            r.request_size@ == "1KB"@,
            r.latency@ == "0ms"@,
    {
        TrafficConfigFile {
            bandwidth: default_bandwidth(),
            connections: default_connections(),
            request_size: default_request_size(),
            latency: default_latency(),
        }
    }
}

impl Default for LimitsConfig {
    fn default() -> (r: LimitsConfig)
        ensures
            r.duration@ == "0s"@,
            r.total_size@ == "0"@,
    {
        LimitsConfig { duration: default_duration(), total_size: default_total_size() }
    }
}

impl Default for ConfigFile {
    fn default() -> (r: ConfigFile)
        ensures
            r@ == default_file_spec(),
    {
        ConfigFile {
            target: TargetConfig::default(),
            traffic: TrafficConfigFile::default(),
            limits: LimitsConfig::default(),
        }
    }
}

pub uninterp spec fn byte_size_of(s: Seq<char>) -> Option<u64>;

/// Relies on byte_unit::Byte::parse_str (ignoring the case of the byte
/// unit) and its saturating u64 conversion: the byte count named by a
/// human-readable size string, a function of the characters alone; `None`
/// when the string does not parse.
#[verifier::external_body]
fn parse_byte_size(s: &str) -> (r: Option<u64>)
    ensures
        r == byte_size_of(s@),
{
    match byte_unit::Byte::parse_str(s, true) {
        Ok(b) => Some(b.as_u64()),
        Err(_) => None,
    }
}

/// Longest duration string handed to the outside parser. Its carry check
/// misses the exact one-second boundary, so a string whose spans total
/// exactly the maximum second count and whose subseconds then land exactly
/// on one second makes it overflow: spelling that second count takes at
/// least 15 characters (the magnitude needs a 12-digit span with a unit,
/// and parity a further span), and the subsecond landing at least 6 more,
/// so 20 characters cannot reach it.
pub const MAX_DURATION_STR_LEN: usize = 20;

pub uninterp spec fn duration_of(s: Seq<char>) -> Option<(u64, u32)>;

/// Relies on humantime::parse_duration: the duration named by a
/// human-readable string, as whole seconds with subsecond nanoseconds, a
/// function of the characters alone; `None` when the string does not parse.
/// The length bound keeps out the inputs on which the parser's one-second
/// carry can overflow (see `MAX_DURATION_STR_LEN`).
#[verifier::external_body]
fn parse_duration_str(s: &str) -> (r: Option<(u64, u32)>)
    requires
        s@.len() <= MAX_DURATION_STR_LEN,
    ensures
        r == duration_of(s@),
{
    match humantime::parse_duration(s) {
        Ok(d) => Some((d.as_secs(), d.subsec_nanos())),
        Err(_) => None,
    }
}

/// Seconds and nanoseconds as whole milliseconds, saturating.
pub open spec fn millis_of(secs: u64, nanos: u32) -> u64 {
    sat_add64(sat_mul64(secs, 1000), (nanos / 1000000) as u64)
}

/// What parsing a bandwidth string yields: after case folding, a `bps`
/// suffix names bits per second directly, a `/s` suffix names bytes per
/// second (times eight for bits); anything else is rejected.
pub open spec fn parse_bandwidth_spec(s: Seq<char>) -> Result<u64, ConfigError> {
    let l = lower_of(s);
    if ends_with_spec(l, "bps"@) {
        match byte_size_of(strip_suffix_all_spec(l, "bps"@)) {
            Some(n) => Ok(n),
            None => Err(ConfigError::InvalidBandwidth),
        }
    } else if ends_with_spec(l, "/s"@) {
        match byte_size_of(strip_suffix_all_spec(l, "/s"@)) {
            Some(n) => Ok(sat_mul64(n, 8)),
            None => Err(ConfigError::InvalidBandwidth),
        }
    } else {
        Err(ConfigError::InvalidBandwidth)
    }
}

/// What parsing a size string yields.
pub open spec fn parse_size_spec(s: Seq<char>) -> Result<u64, ConfigError> {
    match byte_size_of(s) {
        Some(n) => Ok(n),
        None => Err(ConfigError::InvalidSize),
    }
}

/// What parsing the latency string yields, in milliseconds. Strings longer
/// than the parser's safe bound are rejected like unparseable ones.
pub open spec fn parse_latency_spec(s: Seq<char>) -> Result<u64, ConfigError> {
    if s.len() > MAX_DURATION_STR_LEN {
        Err(ConfigError::InvalidLatency)
    } else {
        match duration_of(s) {
            Some(d) => Ok(millis_of(d.0, d.1)),
            None => Err(ConfigError::InvalidLatency),
        }
    }
}

/// What parsing the run-duration string yields, in milliseconds. Strings
/// longer than the parser's safe bound are rejected like unparseable ones.
pub open spec fn parse_run_duration_spec(s: Seq<char>) -> Result<u64, ConfigError> {
    if s.len() > MAX_DURATION_STR_LEN {
        Err(ConfigError::InvalidDuration)
    } else {
        match duration_of(s) {
            Some(d) => Ok(millis_of(d.0, d.1)),
            None => Err(ConfigError::InvalidDuration),
        }
    }
}

/// What parsing the protocol string yields after case folding.
pub open spec fn parse_protocol_spec(s: Seq<char>) -> Result<Protocol, ConfigError> {
    if lower_of(s) == "http"@ {
        Ok(Protocol::Http)
    } else if lower_of(s) == "https"@ {
        Ok(Protocol::Https)
    } else {
        Err(ConfigError::InvalidProtocol)
    }
}

/// File values with the command-line overrides applied on top.
pub open spec fn merged_spec(f: ConfigFileV, cli: CliV) -> ConfigFileV {
    ConfigFileV {
        url: match cli.target {
            Some(v) => v,
            None => f.url,
        },
        protocol: match cli.protocol {
            Some(v) => v,
            None => f.protocol,
        },
        bandwidth: match cli.bandwidth {
            Some(v) => v,
            None => f.bandwidth,
        },
        connections: match cli.connections {
            Some(v) => v,
            None => f.connections,
        },
        request_size: match cli.request_size {
            Some(v) => v,
            None => f.request_size,
        },
        latency: match cli.latency {
            Some(v) => v,
            None => f.latency,
        },
        duration: match cli.duration {
            Some(v) => v,
            None => f.duration,
        },
        total_size: match cli.total_size {
            Some(v) => v,
            None => f.total_size,
        },
    }
}

/// The resolved configuration a raw file yields, or the first parse error
/// in the order bandwidth, total size, latency, duration, protocol,
/// request size.
pub open spec fn from_file_spec(f: ConfigFileV) -> Result<TrafficConfigV, ConfigError> {
    match parse_bandwidth_spec(f.bandwidth) {
        Err(e) => Err(e),
        Ok(bw) => {
            let size_r = if f.total_size == "0"@ {
                Ok(0u64)
            } else {
                parse_size_spec(f.total_size)
            };
            match size_r {
                Err(e) => Err(e),
                Ok(total_bytes) => match parse_latency_spec(f.latency) {
                    Err(e) => Err(e),
                    Ok(delay) => match parse_run_duration_spec(f.duration) {
                        Err(e) => Err(e),
                        Ok(dur) => match parse_protocol_spec(f.protocol) {
                            Err(e) => Err(e),
                            Ok(proto) => match parse_size_spec(f.request_size) {
                                Err(e) => Err(e),
                                Ok(req) => Ok(
                                    TrafficConfigV {
                                        target_url: f.url,
                                        target_bandwidth_bps: bw,
                                        connections: f.connections,
                                        total_bytes,
                                        request_delay: delay,
                                        run_duration: dur,
                                        protocol: proto,
                                        request_size: req as usize,
                                    },
                                ),
                            },
                        },
                    },
                },
            }
        },
    }
}

/// The view of a `Result` carrying a resolved configuration.
pub open spec fn view_config_result(r: Result<TrafficConfig, ConfigError>) -> Result<
    TrafficConfigV,
    ConfigError,
> {
    match r {
        Ok(c) => Ok(c@),
        Err(e) => Err(e),
    }
}

impl TrafficConfig {
    /// Parses a bandwidth string: `bps` names bits per second, `/s` names
    /// bytes per second (reported times eight); anything else is rejected.
    pub fn parse_bandwidth(s: &str) -> (r: Result<u64, ConfigError>)
        ensures
            r == parse_bandwidth_spec(s@),
    {
        let low = lowercase(s);
        if has_suffix(low.as_str(), "bps") {
            let num = strip_suffix_repeated(low.as_str(), "bps");
            match parse_byte_size(num.as_str()) {
                Some(n) => Ok(n),
                None => Err(ConfigError::InvalidBandwidth),
            }
        } else if has_suffix(low.as_str(), "/s") {
            let num = strip_suffix_repeated(low.as_str(), "/s");
            match parse_byte_size(num.as_str()) {
                Some(n) => Ok(saturating_mul64(n, 8)),
                None => Err(ConfigError::InvalidBandwidth),
            }
        } else {
            Err(ConfigError::InvalidBandwidth)
        }
    }

    /// Parses a size string into a byte count.
    pub fn parse_size(s: &str) -> (r: Result<u64, ConfigError>)
        ensures
            r == parse_size_spec(s@),
    {
        match parse_byte_size(s) {
            Some(n) => Ok(n),
            None => Err(ConfigError::InvalidSize),
        }
    }

    /// Resolves raw file values into a configuration, validating every
    /// string field.
    pub fn from_config_file(config: ConfigFile) -> (r: Result<TrafficConfig, ConfigError>)
        ensures
            view_config_result(r) == from_file_spec(config@),
    {
        let target_bandwidth_bps = match Self::parse_bandwidth(config.traffic.bandwidth.as_str()) {
            Ok(v) => v,
            Err(e) => {
                return Err(e);
            },
        };
        let zero = String::from_str("0");
        let total_bytes = if config.limits.total_size == zero {
            0
        } else {
            match Self::parse_size(config.limits.total_size.as_str()) {
                Ok(v) => v,
                Err(e) => {
                    return Err(e);
                },
            }
        };
        if config.traffic.latency.as_str().unicode_len() > MAX_DURATION_STR_LEN {
            return Err(ConfigError::InvalidLatency);
        }
        let request_delay = match parse_duration_str(config.traffic.latency.as_str()) {
            Some(d) => to_millis(d),
            None => {
                return Err(ConfigError::InvalidLatency);
            },
        };
        if config.limits.duration.as_str().unicode_len() > MAX_DURATION_STR_LEN {
            return Err(ConfigError::InvalidDuration);
        }
        let run_duration = match parse_duration_str(config.limits.duration.as_str()) {
            Some(d) => to_millis(d),
            None => {
                return Err(ConfigError::InvalidDuration);
            },
        };
        let low = lowercase(config.target.protocol.as_str());
        let protocol = if low == String::from_str("http") {
            Protocol::Http
        } else if low == String::from_str("https") {
            Protocol::Https
        } else {
            return Err(ConfigError::InvalidProtocol);
        };
        let request_size_u64 = match Self::parse_size(config.traffic.request_size.as_str()) {
            Ok(v) => v,
            Err(e) => {
                return Err(e);
            },
        };
        let request_size = #[verifier::truncate] (request_size_u64 as usize);
        Ok(
            TrafficConfig {
                target_url: config.target.url,
                target_bandwidth_bps,
                connections: config.traffic.connections,
                total_bytes,
                request_delay,
                run_duration,
                protocol,
                request_size,
            },
        )
    }

    /// Loads the configuration with priority defaults < file < overrides.
    /// The caller hands in the decoded file values, if a file was found.
    pub fn load(cli: Cli, file: Option<ConfigFile>) -> (r: Result<TrafficConfig, ConfigError>)
        ensures
            ({
                let base = match file {
                    Some(f) => f@,
                    None => default_file_spec(),
                };
                view_config_result(r) == from_file_spec(merged_spec(base, cli@))
            }),
    {
        let mut cf = match file {
            Some(f) => f,
            None => ConfigFile::default(),
        };
        if let Some(target) = cli.target {
            cf.target.url = target;
        }
        if let Some(protocol) = cli.protocol {
            cf.target.protocol = protocol;
        }
        if let Some(bandwidth) = cli.bandwidth {
            cf.traffic.bandwidth = bandwidth;
        }
        if let Some(connections) = cli.connections {
            cf.traffic.connections = connections;
        }
        if let Some(request_size) = cli.request_size {
            cf.traffic.request_size = request_size;
        }
        if let Some(latency) = cli.latency {
            cf.traffic.latency = latency;
        }
        if let Some(duration) = cli.duration {
            cf.limits.duration = duration;
        }
        if let Some(total_size) = cli.total_size {
            cf.limits.total_size = total_size;
        }
        Self::from_config_file(cf)
    }

    /// The configured bandwidth in bytes per second.
    pub fn bytes_per_second(&self) -> (r: u64)
        ensures
            r == self.target_bandwidth_bps / 8,
    {
        self.target_bandwidth_bps / 8
    }
}

/// Converts a (seconds, nanoseconds) pair to whole milliseconds,
/// saturating.
fn to_millis(d: (u64, u32)) -> (r: u64)
    ensures
        r == millis_of(d.0, d.1),
{
    let ms_from_secs = match d.0.checked_mul(1000) {
        Some(v) => v,
        None => u64::MAX,
    };
    ms_from_secs.saturating_add((d.1 / 1000000) as u64)
}

} // verus!
