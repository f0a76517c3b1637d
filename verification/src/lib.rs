//! Packet-sampling metrics library: a bounds-checked frame classifier,
//! per-processor counter summation, and a metrics aggregator that derives
//! per-second rates and summary statistics from cumulative counters.

pub mod aggregator;
pub mod arith;
pub mod classifier;
pub mod clock;
pub mod config;
pub mod counters;
pub mod generator;
pub mod lifecycle;
pub mod models;
pub mod stats;
pub mod strutil;
