//! The traffic generator's verified state: its resolved configuration and
//! the shared transfer statistics. The request loop itself is asynchronous
//! I/O and lives with the caller.

use vstd::prelude::*;
use crate::config::{TrafficConfig, ConfigError};
use crate::stats::Stats;

verus! {

/// A configured traffic generator with zeroed statistics.
pub struct TrafficGenerator {
    pub config: TrafficConfig,
    pub stats: Stats,
}

impl TrafficGenerator {
    /// Builds a generator over a resolved configuration; never fails.
    pub fn new(config: TrafficConfig) -> (r: Result<TrafficGenerator, ConfigError>)
        ensures
            r matches Ok(g) && g.config@ == config@ && g.stats.requests_sent == 0
                && g.stats.bytes_sent == 0 && g.stats.errors == 0,
    {
        Ok(TrafficGenerator { config, stats: Stats::new() })
    }
}

/// Relies on rand's thread-local generator: one uniformly drawn byte.
/// Nothing is assumed of the value.
#[verifier::external_body]
fn random_byte() -> u8 {
    rand::RngExt::random(&mut rand::rng())
}

/// A request payload of exactly `request_size` random bytes, whatever bytes
/// the generator hands out.
pub fn generate_payload(request_size: usize) -> (r: Vec<u8>)
    ensures
        r@.len() == request_size,
{
    let mut payload: Vec<u8> = Vec::new();
    while payload.len() < request_size
        invariant
            payload@.len() <= request_size,
        decreases request_size - payload@.len(),
    {
        payload.push(random_byte());
    }
    payload
}

} // verus!
