//! The probes, one module each.

pub mod dns;
pub mod latency;
pub mod throughput;
pub mod traceroute;
