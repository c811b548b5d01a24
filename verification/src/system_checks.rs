//! The advisory check that a path-tracing utility can be invoked at all.

use vstd::prelude::*;
use crate::platform::{Platform, ProcessOutcome, Utility};

verus! {

/// The utility whose presence is checked on `platform`.
pub open spec fn checked_utility(platform: Platform) -> Utility {
    match platform {
        Platform::Windows => Utility::Tracert,
        Platform::Linux => Utility::Tracepath,
        _ => Utility::Traceroute,
    }
}

/// The utility to invoke for the check on `platform`. It is run with
/// [`help_flag`] as its only argument.
pub fn utility_to_check(platform: Platform) -> (utility: Utility)
    ensures
        utility == checked_utility(platform),
{
    match platform {
        Platform::Windows => Utility::Tracert,
        Platform::Linux => Utility::Tracepath,
        _ => Utility::Traceroute,
    }
}

/// The harmless argument with which the utility is run for the check.
pub fn help_flag() -> (flag: &'static str)
    ensures
        flag@ == "--help"@,
{
    "--help"
}

/// Whether the utility is available, from what its run with the help flag
/// came to: it is if and only if the process was started and ran, whatever
/// its exit status and whatever it wrote.
pub fn check_traceroute_availability(outcome: &ProcessOutcome) -> (available: bool)
    ensures
        available == outcome.ran(),
        available == !(outcome is NotSpawned),
{
    match outcome {
        ProcessOutcome::Exited { .. } => true,
        ProcessOutcome::NotSpawned { .. } => false,
    }
}

} // verus!
