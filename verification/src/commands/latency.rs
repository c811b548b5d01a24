//! The latency probe: timed TCP connections to one fixed endpoint, a second
//! apart, and their average.

use vstd::prelude::*;
use crate::probe::{Phase, Probe};
use crate::trial::Trial;

verus! {

/// Pause after each connection, in milliseconds.
pub const PAUSE_MILLIS: u64 = 1000;

/// The endpoint that the probe connects to, as host and port.
pub fn target() -> (endpoint: &'static str)
    ensures
        endpoint@ == "8.8.8.8:53"@,
{
    "8.8.8.8:53"
}

/// The latency probe of `count` connections, not begun.
pub fn check(count: u32) -> (probe: Probe)
    ensures
        probe.planned() == count,
        probe.pause() == PAUSE_MILLIS,
        probe.state() == Phase::Ready,
        probe.trials() == Seq::<Trial>::empty(),
{
    Probe::new(count, PAUSE_MILLIS)
}

} // verus!
