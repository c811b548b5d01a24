//! The path probe: which utility traces the path on which platform, and
//! what to do with what the utility came to.
//!
//! The caller runs the utility with the host as its only argument and hands
//! back the outcome; the probe decides whether to pass the output on, to try
//! the fallback utility, or to give up.

use vstd::prelude::*;
use crate::platform::{Platform, ProcessOutcome, Utility};

verus! {

/// Why no path could be traced at all.
#[derive(Clone, Copy, Debug, PartialEq, Eq, Structural)]
pub enum PathError {
    /// The platform has no known path-tracing utility.
    Unsupported,
}

/// The utility tried first on `platform`, if the platform has one.
pub open spec fn primary_utility(platform: Platform) -> Option<Utility> {
    match platform {
        Platform::Windows => Some(Utility::Tracert),
        Platform::Linux => Some(Utility::Tracepath),
        Platform::MacOs => Some(Utility::Traceroute),
        Platform::Other => None,
    }
}

/// The utility tried when the first failed, if the platform has one.
pub open spec fn fallback_utility(platform: Platform) -> Option<Utility> {
    match platform {
        Platform::Linux => Some(Utility::Traceroute),
        Platform::MacOs => Some(Utility::Tracepath),
        _ => None,
    }
}

/// What the probe waits for.
#[derive(Clone, Debug, PartialEq, Eq)]
pub enum PathState {
    /// The outcome of the primary utility.
    Primary,
    /// The outcome of the fallback utility; `primary` is what the primary
    /// utility came to.
    Fallback { primary: ProcessOutcome },
    /// Nothing: the probe is over.
    Finished,
}

/// A path probe in progress.
#[derive(Clone, Debug, PartialEq, Eq)]
pub struct PathProbe {
    pub platform: Platform,
    pub state: PathState,
}

/// What the caller is to do next.
#[derive(Clone, Debug, PartialEq, Eq)]
pub enum PathStep {
    /// Run this utility, with the arguments that [`arguments`] gives for the
    /// host.
    Run { utility: Utility },
    /// The path was traced: pass this output on as it is.
    Output { text: String },
    /// No utility succeeded: report this text.
    Failed { diagnostic: String },
    /// The probe was over already: nothing changed.
    Ignore,
}

/// The text reported when neither utility succeeded: the standard error of
/// the primary utility where it ran; else that of the fallback where that
/// ran; else the reason why the primary could not be started.
pub open spec fn final_diagnostic(primary: ProcessOutcome, fallback: ProcessOutcome) -> String {
    if primary is Exited || fallback is NotSpawned {
        primary.diagnostic()
    } else {
        fallback.diagnostic()
    }
}

/// The decision table of the probe: the next state and what to do, from the
/// state and the outcome of the utility that ran last.
pub open spec fn decide(probe: PathProbe, outcome: ProcessOutcome) -> (PathProbe, PathStep) {
    let over = PathProbe { platform: probe.platform, state: PathState::Finished };
    match probe.state {
        PathState::Primary => {
            if outcome.succeeded() {
                (over, PathStep::Output { text: outcome->stdout })
            } else if fallback_utility(probe.platform) is Some {
                (
                    PathProbe {
                        platform: probe.platform,
                        state: PathState::Fallback { primary: outcome },
                    },
                    PathStep::Run { utility: fallback_utility(probe.platform).unwrap() },
                )
            } else {
                (over, PathStep::Failed { diagnostic: outcome.diagnostic() })
            }
        },
        PathState::Fallback { primary } => {
            if outcome.succeeded() {
                (over, PathStep::Output { text: outcome->stdout })
            } else {
                (over, PathStep::Failed { diagnostic: final_diagnostic(primary, outcome) })
            }
        },
        PathState::Finished => (over, PathStep::Ignore),
    }
}

/// The arguments with which a utility is run to trace the path to `host`:
/// the host alone, as it was given.
pub fn arguments(host: String) -> (args: Vec<String>)
    ensures
        args@ == seq![host],
{
    let mut args: Vec<String> = Vec::new();
    args.push(host);
    args
}

/// The utility tried first on `platform`, if the platform has one.
pub fn primary(platform: Platform) -> (utility: Option<Utility>)
    ensures
        utility == primary_utility(platform),
{
    match platform {
        Platform::Windows => Some(Utility::Tracert),
        Platform::Linux => Some(Utility::Tracepath),
        Platform::MacOs => Some(Utility::Traceroute),
        Platform::Other => None,
    }
}

/// The utility tried when the first failed, if the platform has one.
pub fn fallback(platform: Platform) -> (utility: Option<Utility>)
    ensures
        utility == fallback_utility(platform),
{
    match platform {
        Platform::Linux => Some(Utility::Traceroute),
        Platform::MacOs => Some(Utility::Tracepath),
        _ => None,
    }
}

/// Begins a path probe on `platform`: hands out the probe and the utility to
/// run first. On a platform without a utility the probe fails at once, and
/// no utility is named.
pub fn perform(platform: Platform) -> (r: Result<(PathProbe, Utility), PathError>)
    ensures
        primary_utility(platform) is Some ==> r == Ok::<(PathProbe, Utility), PathError>(
            (
                PathProbe { platform, state: PathState::Primary },
                primary_utility(platform).unwrap(),
            ),
        ),
        primary_utility(platform) is None ==> r == Err::<(PathProbe, Utility), PathError>(
            PathError::Unsupported,
        ),
        r is Err <==> platform == Platform::Other,
{
    match primary(platform) {
        Some(utility) => Ok((PathProbe { platform, state: PathState::Primary }, utility)),
        None => Err(PathError::Unsupported),
    }
}

impl PathProbe {
    /// Takes the outcome of the utility that ran last and decides what comes
    /// next.
    ///
    /// The standard output of the first utility that exits with success is
    /// passed on. When the primary utility fails, by its exit status or
    /// because it could not be started, the fallback is run where the
    /// platform has one. When no utility succeeded, the standard error that
    /// was captured is reported: the primary's before the fallback's, and
    /// the reason why the primary could not be started where there is none.
    pub fn step(self, outcome: ProcessOutcome) -> (r: (PathProbe, PathStep))
        ensures
            r == decide(self, outcome),
            r.1 is Output ==> outcome.succeeded() && r.1->text == outcome->stdout,
            r.1 is Run ==> self.state is Primary && !outcome.succeeded() && Some(r.1->utility)
                == fallback_utility(self.platform),
    {
        let PathProbe { platform, state } = self;
        let over = PathProbe { platform, state: PathState::Finished };
        match state {
            PathState::Primary => match outcome {
                ProcessOutcome::Exited { success: true, stdout, .. } => {
                    (over, PathStep::Output { text: stdout })
                },
                failure => match fallback(platform) {
                    Some(utility) => (
                        PathProbe { platform, state: PathState::Fallback { primary: failure } },
                        PathStep::Run { utility },
                    ),
                    None => (over, PathStep::Failed { diagnostic: diagnostic_of(failure) }),
                },
            },
            PathState::Fallback { primary } => match outcome {
                ProcessOutcome::Exited { success: true, stdout, .. } => {
                    (over, PathStep::Output { text: stdout })
                },
                failure => (over, PathStep::Failed { diagnostic: last_diagnostic(primary, failure) }),
            },
            PathState::Finished => (over, PathStep::Ignore),
        }
    }
}

/// The text that describes a failure: the standard error of a process that
/// ran, or the reason why none was started.
pub fn diagnostic_of(outcome: ProcessOutcome) -> (text: String)
    ensures
        text == outcome.diagnostic(),
{
    match outcome {
        ProcessOutcome::Exited { stderr, .. } => stderr,
        ProcessOutcome::NotSpawned { error } => error,
    }
}

/// The text reported when neither utility succeeded.
pub fn last_diagnostic(primary: ProcessOutcome, fallback: ProcessOutcome) -> (text: String)
    ensures
        text == final_diagnostic(primary, fallback),
{
    match (primary, fallback) {
        (ProcessOutcome::Exited { stderr, .. }, _) => stderr,
        (ProcessOutcome::NotSpawned { .. }, ProcessOutcome::Exited { stderr, .. }) => stderr,
        (ProcessOutcome::NotSpawned { error }, ProcessOutcome::NotSpawned { .. }) => error,
    }
}

/// Where the platform has a fallback: when the primary utility fails and the
/// fallback succeeds, the probe first asks for the fallback and then passes
/// on the fallback's standard output, not what the primary left.
pub proof fn lemma_fallback_output_wins(
    platform: Platform,
    first: ProcessOutcome,
    second: ProcessOutcome,
)
    requires
        fallback_utility(platform) is Some,
        !first.succeeded(),
        second.succeeded(),
    ensures
        ({
            let begun = PathProbe { platform, state: PathState::Primary };
            let (waiting, asked) = decide(begun, first);
            let (over, told) = decide(waiting, second);
            &&& asked == (PathStep::Run { utility: fallback_utility(platform).unwrap() })
            &&& told == (PathStep::Output { text: second->stdout })
            &&& over.state is Finished
        }),
{
}

/// When neither utility succeeds and the primary ran, the text reported is
/// the primary's standard error, whatever the fallback wrote.
pub proof fn lemma_primary_diagnostic_reported(
    platform: Platform,
    first: ProcessOutcome,
    second: ProcessOutcome,
)
    requires
        fallback_utility(platform) is Some,
        first is Exited,
        !first.succeeded(),
        !second.succeeded(),
    ensures
        ({
            let begun = PathProbe { platform, state: PathState::Primary };
            let (waiting, asked) = decide(begun, first);
            let (over, told) = decide(waiting, second);
            told == (PathStep::Failed { diagnostic: first->stderr })
        }),
{
}

} // verus!
