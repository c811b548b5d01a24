//! The DNS probe: three timed resolutions of one name, a tenth of a second
//! apart, and their average.

use vstd::prelude::*;
use crate::probe::{Phase, Probe};
use crate::trial::Trial;

verus! {

/// How the DNS probe samples and how the resolver is set up.
#[derive(Clone, Copy, Debug, PartialEq, Eq, Structural)]
pub struct Config {
    /// Number of resolutions.
    pub attempts: u32,
    /// Pause after each resolution, in milliseconds.
    pub pause_millis: u64,
    /// Time that the resolver allows one resolution, in seconds.
    pub timeout_seconds: u64,
    /// Number of tries that the resolver makes within one resolution.
    pub resolver_attempts: usize,
}

impl Default for Config {
    /// Three resolutions, 100 ms apart, each with 5 s and 2 tries.
    fn default() -> (config: Config)
        ensures
            config == (Config {
                attempts: 3,
                pause_millis: 100,
                timeout_seconds: 5,
                resolver_attempts: 2,
            }),
    {
        Config { attempts: 3, pause_millis: 100, timeout_seconds: 5, resolver_attempts: 2 }
    }
}

/// The DNS probe for `config`, not begun.
pub fn check(config: &Config) -> (probe: Probe)
    ensures
        probe.planned() == config.attempts,
        probe.pause() == config.pause_millis,
        probe.state() == Phase::Ready,
        probe.trials() == Seq::<Trial>::empty(),
{
    Probe::new(config.attempts, config.pause_millis)
}

} // verus!
