//! The sampling loop shared by the probes, as a state machine: a fixed
//! number of attempts, a fixed pause after each, then the summary.
//!
//! The caller performs what an [`Action`] asks for and hands back the
//! matching [`Event`]; the machine decides what comes next.

use vstd::prelude::*;
use crate::trial::{Outcome, ProbeRun, Summary, Trial, count_successes, ordinals_contiguous, summarize};

verus! {

/// What the machine waits for.
#[derive(Clone, Copy, Debug, PartialEq, Eq, Structural)]
pub enum Phase {
    /// Nothing has begun.
    Ready,
    /// An attempt is under way.
    Trying,
    /// The pause after an attempt is under way.
    Pausing,
    /// The summary was handed out.
    Done,
}

/// What the caller reports.
#[derive(Clone, Debug, PartialEq, Eq)]
pub enum Event {
    /// The probe is to begin.
    Begin,
    /// The attempt that began at `started_at` completed after `nanos`.
    Succeeded { started_at: u64, nanos: u64, payload: Vec<String> },
    /// The attempt that began at `started_at` failed.
    Failed { started_at: u64, error: String },
    /// The pause is over.
    Paused,
}

/// What the caller is to do next.
#[derive(Clone, Copy, Debug, PartialEq, Eq, Structural)]
pub enum Action {
    /// Make the attempt with this ordinal, and time it.
    Attempt { ordinal: u32 },
    /// Wait this long.
    Pause { millis: u64 },
    /// The probe is over: report this.
    Report { summary: Summary },
    /// The event does not fit the phase: nothing changed.
    Ignore,
}

/// A probe in progress.
pub struct Probe {
    attempts: u32,
    pause_millis: u64,
    run: ProbeRun,
    phase: Phase,
}

/// The trial that `event` adds to a run of `len` trials, if it ends an
/// attempt.
pub open spec fn trial_of(len: nat, event: Event) -> Option<Trial> {
    match event {
        Event::Succeeded { started_at, nanos, payload } => Some(
            Trial {
                ordinal: (len + 1) as u32,
                started_at,
                outcome: Outcome::Success { nanos, payload },
            },
        ),
        Event::Failed { started_at, error } => Some(
            Trial { ordinal: (len + 1) as u32, started_at, outcome: Outcome::Failure { error } },
        ),
        _ => None,
    }
}

/// The transition function: what `event` leads to from a probe of
/// `attempts` attempts and a pause of `pause_millis`, in `phase` with
/// `trials` recorded. The result is the next phase, the trials recorded
/// then, and what the caller is to do.
pub open spec fn next(
    attempts: u32,
    pause_millis: u64,
    phase: Phase,
    trials: Seq<Trial>,
    event: Event,
) -> (Phase, Seq<Trial>, Action) {
    match (phase, event) {
        (Phase::Ready, Event::Begin) | (Phase::Pausing, Event::Paused) => {
            if trials.len() < attempts {
                (Phase::Trying, trials, Action::Attempt { ordinal: (trials.len() + 1) as u32 })
            } else {
                (Phase::Done, trials, Action::Report { summary: summarize(trials) })
            }
        },
        (Phase::Trying, Event::Succeeded { .. }) | (Phase::Trying, Event::Failed { .. }) => {
            (
                Phase::Pausing,
                trials.push(trial_of(trials.len(), event).unwrap()),
                Action::Pause { millis: pause_millis },
            )
        },
        _ => (phase, trials, Action::Ignore),
    }
}

/// Where a probe stands after each of `outcomes` in turn was reported while
/// an attempt was under way, and each pause that followed was reported over.
/// The result is as that of [`next`] for the last event.
pub open spec fn after_attempts(
    attempts: u32,
    pause_millis: u64,
    from: (Phase, Seq<Trial>, Action),
    outcomes: Seq<Event>,
) -> (Phase, Seq<Trial>, Action)
    decreases outcomes.len(),
{
    if outcomes.len() == 0 {
        from
    } else {
        let tried = next(attempts, pause_millis, from.0, from.1, outcomes[0]);
        let paused = next(attempts, pause_millis, tried.0, tried.1, Event::Paused);
        after_attempts(attempts, pause_millis, paused, outcomes.skip(1))
    }
}

/// Every event of `outcomes` ends an attempt, with success or with failure.
pub open spec fn all_end_attempts(outcomes: Seq<Event>) -> bool {
    forall|i: int|
        0 <= i < outcomes.len() ==> (#[trigger] outcomes[i]) is Succeeded || outcomes[i] is Failed
}

/// From an attempt under way with `trials` recorded in order, reporting as
/// many outcomes as attempts are still owed ends the probe with one trial
/// per attempt, numbered from 1 without a gap, and with the summary of
/// those trials.
pub proof fn lemma_remaining_attempts_complete(
    attempts: u32,
    pause_millis: u64,
    trials: Seq<Trial>,
    asked: Action,
    outcomes: Seq<Event>,
)
    requires
        outcomes.len() >= 1,
        trials.len() + outcomes.len() == attempts,
        ordinals_contiguous(trials),
        all_end_attempts(outcomes),
    ensures
        ({
            let end = after_attempts(
                attempts,
                pause_millis,
                (Phase::Trying, trials, asked),
                outcomes,
            );
            &&& end.0 == Phase::Done
            &&& end.1.len() == attempts
            &&& ordinals_contiguous(end.1)
            &&& end.1.subrange(0, trials.len() as int) == trials
            &&& end.2 == (Action::Report { summary: summarize(end.1) })
        }),
    decreases outcomes.len(),
{
    reveal_with_fuel(after_attempts, 2);
    let first = outcomes[0];
    assert(first is Succeeded || first is Failed);
    let tried = next(attempts, pause_millis, Phase::Trying, trials, first);
    let paused = next(attempts, pause_millis, tried.0, tried.1, Event::Paused);
    let rest = outcomes.skip(1);
    assert(ordinals_contiguous(tried.1));
    assert(tried.1.subrange(0, trials.len() as int) =~= trials);
    if rest.len() == 0 {
        assert(tried.1.subrange(0, tried.1.len() as int) =~= tried.1);
    } else {
        assert(all_end_attempts(rest)) by {
            assert forall|i: int| 0 <= i < rest.len() implies (#[trigger] rest[i]) is Succeeded
                || rest[i] is Failed by {
                assert(rest[i] == outcomes[i + 1]);
            }
        }
        assert(paused == (Phase::Trying, tried.1, paused.2));
        lemma_remaining_attempts_complete(attempts, pause_millis, tried.1, paused.2, rest);
        let end = after_attempts(attempts, pause_millis, paused, rest);
        assert(end.1.subrange(0, trials.len() as int) =~= end.1.subrange(
            0,
            tried.1.len() as int,
        ).subrange(0, trials.len() as int));
    }
}

/// A probe of `attempts >= 1` attempts that is begun and then told the
/// outcome of each attempt and the end of each pause records exactly
/// `attempts` trials, numbered 1 to `attempts`, and ends with their summary.
pub proof fn lemma_run_has_one_trial_per_attempt(
    attempts: u32,
    pause_millis: u64,
    outcomes: Seq<Event>,
)
    requires
        attempts >= 1,
        outcomes.len() == attempts,
        all_end_attempts(outcomes),
    ensures
        ({
            let begun = next(
                attempts,
                pause_millis,
                Phase::Ready,
                Seq::<Trial>::empty(),
                Event::Begin,
            );
            let end = after_attempts(attempts, pause_millis, begun, outcomes);
            &&& begun.2 == (Action::Attempt { ordinal: 1 })
            &&& end.0 == Phase::Done
            &&& end.1.len() == attempts
            &&& ordinals_contiguous(end.1)
            &&& end.2 == (Action::Report { summary: summarize(end.1) })
        }),
{
    lemma_remaining_attempts_complete(
        attempts,
        pause_millis,
        Seq::<Trial>::empty(),
        Action::Attempt { ordinal: 1 },
        outcomes,
    );
}

impl Probe {
    #[verifier::type_invariant]
    spec fn inv(self) -> bool {
        &&& self.run@.len() <= self.attempts
        &&& ordinals_contiguous(self.run@)
        &&& self.phase == Phase::Ready ==> self.run@.len() == 0
        &&& self.phase == Phase::Trying ==> self.run@.len() < self.attempts
        &&& self.phase == Phase::Pausing ==> self.run@.len() >= 1
        &&& self.phase == Phase::Done ==> self.run@.len() == self.attempts
    }

    /// Number of attempts that the probe makes.
    pub closed spec fn planned(self) -> u32 {
        self.attempts
    }

    /// Pause after each attempt, in milliseconds.
    pub closed spec fn pause(self) -> u64 {
        self.pause_millis
    }

    /// What the probe waits for.
    pub closed spec fn state(self) -> Phase {
        self.phase
    }

    /// The trials recorded so far.
    pub closed spec fn trials(self) -> Seq<Trial> {
        self.run@
    }

    /// A probe of `attempts` attempts with a pause of `pause_millis` after
    /// each, not begun.
    pub fn new(attempts: u32, pause_millis: u64) -> (probe: Probe)
        ensures
            probe.planned() == attempts,
            probe.pause() == pause_millis,
            probe.state() == Phase::Ready,
            probe.trials() == Seq::<Trial>::empty(),
    {
        Probe { attempts, pause_millis, run: ProbeRun::new(), phase: Phase::Ready }
    }

    /// The phase of the probe.
    pub fn phase(&self) -> (phase: Phase)
        ensures
            phase == self.state(),
    {
        self.phase
    }

    /// Number of attempts that the probe makes.
    pub fn attempts(&self) -> (n: u32)
        ensures
            n == self.planned(),
    {
        self.attempts
    }

    /// The run so far. Its trials never outnumber the attempts and are
    /// numbered from 1 without a gap; before the first attempt there is
    /// none, and once the probe is done there is one for each attempt.
    pub fn run(&self) -> (run: &ProbeRun)
        ensures
            run@ == self.trials(),
            run@.len() <= self.planned(),
            ordinals_contiguous(run@),
            self.state() == Phase::Ready ==> run@.len() == 0,
            self.state() == Phase::Done ==> run@.len() == self.planned(),
    {
        proof {
            use_type_invariant(self);
        }
        &self.run
    }

    /// Takes `event` and decides what comes next.
    ///
    /// An attempt is asked for as long as fewer trials are recorded than
    /// were planned; each attempt, whatever its outcome, is recorded and
    /// followed by a pause; after the last pause the summary is reported.
    /// An event that does not fit the phase changes nothing.
    pub fn step(self, event: Event) -> (r: (Probe, Action))
        ensures
            r.0.planned() == self.planned(),
            r.0.pause() == self.pause(),
            (r.0.state(), r.0.trials(), r.1) == next(
                self.planned(),
                self.pause(),
                self.state(),
                self.trials(),
                event,
            ),
            r.1 is Report ==> r.0.trials().len() == self.planned() && ordinals_contiguous(
                r.0.trials(),
            ),
            r.1 is Report ==> (r.1->summary is AllFailed <==> count_successes(r.0.trials()) == 0),
    {
        proof {
            use_type_invariant(&self);
        }
        let Probe { attempts, pause_millis, run, phase } = self;
        match (phase, event) {
            (Phase::Ready, Event::Begin) | (Phase::Pausing, Event::Paused) => {
                let recorded: u32 = run.len();
                if recorded < attempts {
                    let next = Probe { attempts, pause_millis, run, phase: Phase::Trying };
                    (next, Action::Attempt { ordinal: recorded + 1 })
                } else {
                    let summary = run.summary();
                    let next = Probe { attempts, pause_millis, run, phase: Phase::Done };
                    (next, Action::Report { summary })
                }
            },
            (Phase::Trying, Event::Succeeded { started_at, nanos, payload }) => {
                let run = run.record(started_at, Outcome::Success { nanos, payload });
                let next = Probe { attempts, pause_millis, run, phase: Phase::Pausing };
                (next, Action::Pause { millis: pause_millis })
            },
            (Phase::Trying, Event::Failed { started_at, error }) => {
                let run = run.record(started_at, Outcome::Failure { error });
                let next = Probe { attempts, pause_millis, run, phase: Phase::Pausing };
                (next, Action::Pause { millis: pause_millis })
            },
            (phase, _) => {
                let next = Probe { attempts, pause_millis, run, phase };
                (next, Action::Ignore)
            },
        }
    }
}

} // verus!
