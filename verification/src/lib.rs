//! Network diagnostics probes: the decisions and the arithmetic of repeated
//! timed sampling, download measurement with failover, and path tracing with
//! a fallback utility. The caller performs the network and process work and
//! reports what happened; every function here is a pure function of its
//! arguments.

pub mod commands;
pub mod platform;
pub mod probe;
pub mod system_checks;
pub mod trial;
