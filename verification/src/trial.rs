//! Trials and probe runs: what one timed attempt yielded, and the aggregates
//! of an ordered run of attempts.
//!
//! Durations are whole nanoseconds, timestamps whole nanoseconds on the
//! caller's monotonic clock. Averages are stated as integer quotients.

use vstd::prelude::*;

verus! {

/// Nanoseconds in one millisecond.
pub const NANOS_PER_MILLI: u64 = 1_000_000;

/// What one attempt yielded.
#[derive(Clone, Debug, PartialEq, Eq)]
pub enum Outcome {
    /// The operation completed after `nanos`; `payload` holds what it
    /// returned, in the order in which it was returned.
    Success { nanos: u64, payload: Vec<String> },
    /// The operation failed; `error` describes why.
    Failure { error: String },
}

/// One timed attempt of a probe.
#[derive(Clone, Debug, PartialEq, Eq)]
pub struct Trial {
    /// Position in the run, counted from 1.
    pub ordinal: u32,
    /// When the attempt began.
    pub started_at: u64,
    pub outcome: Outcome,
}

/// Duration that a trial adds to the total: its own if it succeeded, else 0.
pub open spec fn nanos_of(t: Trial) -> nat {
    match t.outcome {
        Outcome::Success { nanos, .. } => nanos as nat,
        Outcome::Failure { .. } => 0,
    }
}

/// Whole milliseconds that a trial adds to the total.
pub open spec fn millis_of(t: Trial) -> nat {
    nanos_of(t) / (NANOS_PER_MILLI as nat)
}

/// Number of successful trials in `trials`.
pub open spec fn count_successes(trials: Seq<Trial>) -> nat
    decreases trials.len(),
{
    if trials.len() == 0 {
        0
    } else {
        count_successes(trials.drop_last()) + if trials.last().outcome is Success {
            1nat
        } else {
            0nat
        }
    }
}

/// Sum of the durations of the successful trials, in nanoseconds.
pub open spec fn sum_nanos(trials: Seq<Trial>) -> nat
    decreases trials.len(),
{
    if trials.len() == 0 {
        0
    } else {
        sum_nanos(trials.drop_last()) + nanos_of(trials.last())
    }
}

/// Sum over the successful trials of each duration in whole milliseconds.
pub open spec fn sum_millis(trials: Seq<Trial>) -> nat
    decreases trials.len(),
{
    if trials.len() == 0 {
        0
    } else {
        sum_millis(trials.drop_last()) + millis_of(trials.last())
    }
}

/// The trials are numbered 1, 2, 3, ... in order.
pub open spec fn ordinals_contiguous(trials: Seq<Trial>) -> bool {
    forall|i: int| 0 <= i < trials.len() ==> (#[trigger] trials[i]).ordinal == i + 1
}

/// What a run reports once it is over.
#[derive(Clone, Copy, Debug, PartialEq, Eq, Structural)]
pub enum Summary {
    /// No attempt succeeded: there is no average.
    AllFailed { attempts: u32 },
    /// At least one attempt succeeded.
    Averaged {
        successes: u32,
        attempts: u32,
        /// Sum of the successful durations, in nanoseconds.
        total_nanos: u128,
        /// Sum of the successful durations, each cut to whole milliseconds.
        total_millis: u128,
        /// `total_nanos / successes`, rounded down.
        average_nanos: u128,
        /// `average_nanos` in whole milliseconds, rounded down.
        average_millis: u128,
        /// `total_millis / successes` in hundredths of a millisecond,
        /// rounded to the nearest hundredth (a half rounds up).
        average_centimillis: u128,
    },
}

/// `n / d` to the nearest hundredth, as a count of hundredths.
pub open spec fn hundredths(n: nat, d: nat) -> nat
    recommends
        d > 0,
{
    (200 * n + d) / (2 * d)
}

/// `hundredths(n, d)` is the count of hundredths nearest to `n / d`: it
/// differs from `100 * n / d` by at most one half, and a half rounds up.
pub proof fn lemma_hundredths_nearest(n: nat, d: nat)
    requires
        d > 0,
    ensures
        2 * d * hundredths(n, d) <= 200 * n + d < 2 * d * (hundredths(n, d) + 1),
{
    let h = hundredths(n, d);
    let x = 200 * n + d;
    let y = 2 * d;
    assert(y * (x / y) <= x < y * (x / y + 1)) by (nonlinear_arith)
        requires
            y > 0,
            x >= 0,
    ;
}

/// The summary of a run of `trials`.
pub open spec fn summarize(trials: Seq<Trial>) -> Summary {
    let k = count_successes(trials);
    if k == 0 {
        Summary::AllFailed { attempts: trials.len() as u32 }
    } else {
        Summary::Averaged {
            successes: k as u32,
            attempts: trials.len() as u32,
            total_nanos: sum_nanos(trials) as u128,
            total_millis: sum_millis(trials) as u128,
            average_nanos: (sum_nanos(trials) / k) as u128,
            average_millis: (sum_nanos(trials) / k / (NANOS_PER_MILLI as nat)) as u128,
            average_centimillis: hundredths(sum_millis(trials), k) as u128,
        }
    }
}

/// Appending one trial adds its share to each aggregate.
pub proof fn lemma_aggregates_push(trials: Seq<Trial>, t: Trial)
    ensures
        count_successes(trials.push(t)) == count_successes(trials) + if t.outcome is Success {
            1nat
        } else {
            0nat
        },
        sum_nanos(trials.push(t)) == sum_nanos(trials) + nanos_of(t),
        sum_millis(trials.push(t)) == sum_millis(trials) + millis_of(t),
{
    assert(trials.push(t).drop_last() =~= trials);
}

/// No aggregate exceeds what the number of trials allows.
pub proof fn lemma_aggregates_bounded(trials: Seq<Trial>)
    ensures
        count_successes(trials) <= trials.len(),
        sum_millis(trials) <= sum_nanos(trials),
        sum_nanos(trials) <= trials.len() * 0xFFFF_FFFF_FFFF_FFFF,
    decreases trials.len(),
{
    if trials.len() > 0 {
        lemma_aggregates_bounded(trials.drop_last());
    }
}

/// The ordered trials of one probe invocation, with their aggregates.
pub struct ProbeRun {
    trials: Vec<Trial>,
    successes: u32,
    total_nanos: u128,
    total_millis: u128,
}

impl View for ProbeRun {
    type V = Seq<Trial>;

    closed spec fn view(&self) -> Seq<Trial> {
        self.trials@
    }
}

impl ProbeRun {
    #[verifier::type_invariant]
    spec fn inv(self) -> bool {
        &&& self.trials@.len() <= u32::MAX
        &&& ordinals_contiguous(self.trials@)
        &&& self.successes == count_successes(self.trials@)
        &&& self.total_nanos == sum_nanos(self.trials@)
        &&& self.total_millis == sum_millis(self.trials@)
    }

    /// A run with no trial yet.
    pub fn new() -> (run: ProbeRun)
        ensures
            run@ == Seq::<Trial>::empty(),
            ordinals_contiguous(run@),
    {
        ProbeRun { trials: Vec::new(), successes: 0, total_nanos: 0, total_millis: 0 }
    }

    /// Number of trials so far.
    pub fn len(&self) -> (n: u32)
        ensures
            n == self@.len(),
            ordinals_contiguous(self@),
    {
        proof {
            use_type_invariant(self);
        }
        let n: usize = self.trials.len();
        n as u32
    }

    /// The trial at position `index`, counted from 0, if there is one.
    pub fn trial(&self, index: usize) -> (t: Option<&Trial>)
        ensures
            index < self@.len() ==> t == Some(&self@[index as int]) && t.unwrap().ordinal
                == index + 1,
            index >= self@.len() ==> t is None,
    {
        proof {
            use_type_invariant(self);
        }
        if index < self.trials.len() {
            Some(&self.trials[index])
        } else {
            None
        }
    }

    /// Number of successful trials so far.
    pub fn successes(&self) -> (k: u32)
        ensures
            k == count_successes(self@),
    {
        proof {
            use_type_invariant(self);
        }
        self.successes
    }

    /// Sum of the successful durations so far, in nanoseconds.
    pub fn total_nanos(&self) -> (total: u128)
        ensures
            total == sum_nanos(self@),
    {
        proof {
            use_type_invariant(self);
        }
        self.total_nanos
    }

    /// Appends the next trial, numbered one more than the last.
    pub fn record(self, started_at: u64, outcome: Outcome) -> (run: ProbeRun)
        requires
            self@.len() < u32::MAX,
        ensures
            run@ == self@.push(
                Trial { ordinal: (self@.len() + 1) as u32, started_at, outcome },
            ),
            ordinals_contiguous(run@),
    {
        proof {
            use_type_invariant(&self);
            lemma_aggregates_bounded(self.trials@);
        }
        let ProbeRun { mut trials, successes, total_nanos, total_millis } = self;
        let ghost before = trials@;
        let n: usize = trials.len();
        let ordinal: u32 = (n + 1) as u32;
        let (hit, nanos): (bool, u64) = match &outcome {
            Outcome::Success { nanos, .. } => (true, *nanos),
            Outcome::Failure { .. } => (false, 0),
        };
        let trial = Trial { ordinal, started_at, outcome };
        proof {
            lemma_aggregates_push(before, trial);
        }
        trials.push(trial);
        let successes: u32 = if hit {
            successes + 1
        } else {
            successes
        };
        ProbeRun {
            trials,
            successes,
            total_nanos: total_nanos + nanos as u128,
            total_millis: total_millis + (nanos / NANOS_PER_MILLI) as u128,
        }
    }

    /// The summary of the run: the averages over the successful trials, or
    /// that all attempts failed.
    pub fn summary(&self) -> (s: Summary)
        ensures
            s == summarize(self@),
            s is AllFailed <==> count_successes(self@) == 0,
    {
        proof {
            use_type_invariant(self);
            lemma_aggregates_bounded(self.trials@);
        }
        let attempts: u32 = self.len();
        if self.successes == 0 {
            Summary::AllFailed { attempts }
        } else {
            let k: u128 = self.successes as u128;
            let average_nanos: u128 = self.total_nanos / k;
            Summary::Averaged {
                successes: self.successes,
                attempts,
                total_nanos: self.total_nanos,
                total_millis: self.total_millis,
                average_nanos,
                average_millis: average_nanos / (NANOS_PER_MILLI as u128),
                average_centimillis: (200 * self.total_millis + k) / (2 * k),
            }
        }
    }
}

/// A run without a success has no average: its summary says that every
/// attempt failed.
pub proof fn lemma_no_success_no_average(trials: Seq<Trial>)
    requires
        count_successes(trials) == 0,
    ensures
        summarize(trials) == (Summary::AllFailed { attempts: trials.len() as u32 }),
        !(summarize(trials) is Averaged),
{
}

/// With `k > 0` successes the reported average is the sum of the successful
/// durations divided by `k`, rounded down: it differs from the exact
/// quotient by less than one nanosecond. The average in hundredths of a
/// millisecond is the nearest to the sum of the whole milliseconds divided by
/// `k`.
pub proof fn lemma_average_is_quotient(trials: Seq<Trial>)
    requires
        count_successes(trials) > 0,
        trials.len() <= u32::MAX,
    ensures
        summarize(trials) is Averaged,
        summarize(trials)->successes == count_successes(trials),
        summarize(trials)->total_nanos == sum_nanos(trials),
        summarize(trials)->total_millis == sum_millis(trials),
        summarize(trials)->average_nanos * count_successes(trials) <= sum_nanos(trials),
        sum_nanos(trials) < (summarize(trials)->average_nanos + 1) * count_successes(trials),
        summarize(trials)->average_millis == summarize(trials)->average_nanos / 1_000_000,
        summarize(trials)->average_centimillis == hundredths(
            sum_millis(trials),
            count_successes(trials),
        ),
{
    lemma_aggregates_bounded(trials);
    let k = count_successes(trials);
    let total = sum_nanos(trials);
    let millis = sum_millis(trials);
    assert(total / k <= total) by (nonlinear_arith)
        requires
            k > 0,
    ;
    assert((total / k) * k <= total < (total / k + 1) * k) by (nonlinear_arith)
        requires
            k > 0,
    ;
    assert((200 * millis + k) / (2 * k) <= 200 * millis + k) by (nonlinear_arith)
        requires
            k > 0,
    ;
}

} // verus!
