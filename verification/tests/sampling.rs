use netperf::commands::dns;
use netperf::commands::latency;
use netperf::probe::{Action, Event, Phase, Probe};
use netperf::trial::{Outcome, ProbeRun, Summary};

const MS: u64 = 1_000_000;

fn ok(started_at: u64, nanos: u64) -> Event {
    Event::Succeeded { started_at, nanos, payload: vec![String::from("93.184.216.34")] }
}

fn bad(started_at: u64) -> Event {
    Event::Failed { started_at, error: String::from("no answer") }
}

/// Drives a probe to its end over the given attempt outcomes and hands back
/// the probe and the summary it reported.
fn drive(probe: Probe, outcomes: Vec<Event>) -> (Probe, Summary) {
    let (mut probe, mut action) = probe.step(Event::Begin);
    let mut outcomes = outcomes.into_iter();
    let mut expected: u32 = 1;
    loop {
        match action {
            Action::Attempt { ordinal } => {
                assert_eq!(ordinal, expected);
                expected += 1;
                let event = outcomes.next().unwrap();
                let (p, a) = probe.step(event);
                probe = p;
                action = a;
            }
            Action::Pause { .. } => {
                let (p, a) = probe.step(Event::Paused);
                probe = p;
                action = a;
            }
            Action::Report { summary } => {
                assert!(outcomes.next().is_none());
                return (probe, summary);
            }
            Action::Ignore => panic!("an event in order was ignored"),
        }
    }
}

#[test]
fn dns_defaults() {
    let config = dns::Config::default();
    assert_eq!(config.attempts, 3);
    assert_eq!(config.pause_millis, 100);
    assert_eq!(config.timeout_seconds, 5);
    assert_eq!(config.resolver_attempts, 2);
    let probe = dns::check(&config);
    assert_eq!(probe.attempts(), 3);
    assert_eq!(probe.phase(), Phase::Ready);
    assert_eq!(probe.run().len(), 0);
}

#[test]
fn dns_pauses_a_tenth_of_a_second() {
    let probe = dns::check(&dns::Config::default());
    let (probe, action) = probe.step(Event::Begin);
    assert_eq!(action, Action::Attempt { ordinal: 1 });
    let (_, action) = probe.step(bad(0));
    assert_eq!(action, Action::Pause { millis: 100 });
}

#[test]
fn latency_defaults() {
    assert_eq!(latency::target(), "8.8.8.8:53");
    assert_eq!(latency::PAUSE_MILLIS, 1000);
    let probe = latency::check(5);
    assert_eq!(probe.attempts(), 5);
    let (probe, action) = probe.step(Event::Begin);
    assert_eq!(action, Action::Attempt { ordinal: 1 });
    let (probe, action) = probe.step(ok(0, 12 * MS));
    assert_eq!(action, Action::Pause { millis: 1000 });
    assert_eq!(probe.phase(), Phase::Pausing);
}

#[test]
fn run_holds_one_trial_per_attempt_numbered_from_one() {
    for n in 1u32..=6 {
        let outcomes: Vec<Event> =
            (0..n).map(|i| if i % 2 == 0 { ok(i as u64, 5 * MS) } else { bad(i as u64) }).collect();
        let (probe, _) = drive(latency::check(n), outcomes);
        assert_eq!(probe.phase(), Phase::Done);
        let run = probe.run();
        assert_eq!(run.len(), n);
        for i in 0..n as usize {
            let trial = run.trial(i).unwrap();
            assert_eq!(trial.ordinal, i as u32 + 1);
            assert_eq!(trial.started_at, i as u64);
        }
        assert!(run.trial(n as usize).is_none());
    }
}

#[test]
fn mixed_run_averages_over_successes_only() {
    let (probe, summary) =
        drive(dns::check(&dns::Config::default()), vec![ok(0, 10 * MS), bad(1), ok(2, 20 * MS)]);
    assert_eq!(
        summary,
        Summary::Averaged {
            successes: 2,
            attempts: 3,
            total_nanos: 30_000_000,
            total_millis: 30,
            average_nanos: 15_000_000,
            average_millis: 15,
            average_centimillis: 1500,
        }
    );
    assert_eq!(probe.run().successes(), 2);
    assert_eq!(probe.run().total_nanos(), 30_000_000);
    assert_eq!(probe.run().summary(), summary);
}

#[test]
fn payload_and_error_are_kept_in_order() {
    let first = Event::Succeeded {
        started_at: 7,
        nanos: 3 * MS,
        payload: vec![String::from("b"), String::from("a")],
    };
    let (probe, _) = drive(latency::check(2), vec![first, bad(9)]);
    let run = probe.run();
    assert_eq!(
        run.trial(0).unwrap().outcome,
        Outcome::Success { nanos: 3 * MS, payload: vec![String::from("b"), String::from("a")] }
    );
    assert_eq!(
        run.trial(1).unwrap().outcome,
        Outcome::Failure { error: String::from("no answer") }
    );
}

#[test]
fn all_failed_reports_no_average() {
    let (probe, summary) = drive(dns::check(&dns::Config::default()), vec![bad(0), bad(1), bad(2)]);
    assert_eq!(summary, Summary::AllFailed { attempts: 3 });
    assert_eq!(probe.run().successes(), 0);
    assert_eq!(probe.run().len(), 3);
}

#[test]
fn zero_attempts_reports_all_failed_at_once() {
    let (probe, action) = latency::check(0).step(Event::Begin);
    assert_eq!(action, Action::Report { summary: Summary::AllFailed { attempts: 0 } });
    assert_eq!(probe.phase(), Phase::Done);
}

#[test]
fn average_rounds_down_to_whole_nanoseconds_and_milliseconds() {
    let (_, summary) = drive(latency::check(3), vec![ok(0, 1), ok(1, 1), ok(2, 2_999_999)]);
    match summary {
        Summary::Averaged { total_nanos, average_nanos, average_millis, total_millis, .. } => {
            assert_eq!(total_nanos, 3_000_001);
            assert_eq!(average_nanos, 1_000_000);
            assert_eq!(average_millis, 1);
            assert_eq!(total_millis, 2);
        }
        Summary::AllFailed { .. } => panic!("there were successes"),
    }
}

#[test]
fn average_in_hundredths_rounds_to_nearest() {
    let (_, summary) = drive(latency::check(3), vec![ok(0, 6 * MS), ok(1, 7 * MS), ok(2, 7 * MS)]);
    match summary {
        Summary::Averaged { total_millis, average_centimillis, .. } => {
            assert_eq!(total_millis, 20);
            assert_eq!(average_centimillis, 667);
        }
        Summary::AllFailed { .. } => panic!("there were successes"),
    }
    let (_, summary) = drive(latency::check(3), vec![ok(0, 3 * MS), ok(1, 3 * MS), ok(2, 4 * MS)]);
    match summary {
        Summary::Averaged { average_centimillis, .. } => assert_eq!(average_centimillis, 333),
        Summary::AllFailed { .. } => panic!("there were successes"),
    }
    let (_, summary) = drive(latency::check(8), (0..8).map(|i| ok(i, if i == 0 { 2 * MS } else { MS })).collect());
    match summary {
        Summary::Averaged { total_millis, average_centimillis, .. } => {
            assert_eq!(total_millis, 9);
            assert_eq!(average_centimillis, 113);
        }
        Summary::AllFailed { .. } => panic!("there were successes"),
    }
}

#[test]
fn largest_durations_do_not_overflow() {
    let (_, summary) = drive(latency::check(2), vec![ok(0, u64::MAX), ok(1, u64::MAX)]);
    match summary {
        Summary::Averaged { total_nanos, average_nanos, .. } => {
            assert_eq!(total_nanos, 2 * (u64::MAX as u128));
            assert_eq!(average_nanos, u64::MAX as u128);
        }
        Summary::AllFailed { .. } => panic!("there were successes"),
    }
}

#[test]
fn events_out_of_place_change_nothing() {
    let probe = latency::check(1);
    let (probe, action) = probe.step(Event::Paused);
    assert_eq!(action, Action::Ignore);
    assert_eq!(probe.phase(), Phase::Ready);
    let (probe, action) = probe.step(ok(0, MS));
    assert_eq!(action, Action::Ignore);
    assert_eq!(probe.run().len(), 0);
    let (probe, _) = probe.step(Event::Begin);
    let (probe, action) = probe.step(Event::Begin);
    assert_eq!(action, Action::Ignore);
    assert_eq!(probe.phase(), Phase::Trying);
    let (probe, _) = probe.step(ok(0, MS));
    let (probe, action) = probe.step(bad(1));
    assert_eq!(action, Action::Ignore);
    assert_eq!(probe.run().len(), 1);
    let (probe, action) = probe.step(Event::Paused);
    assert!(matches!(action, Action::Report { .. }));
    let (probe, action) = probe.step(Event::Begin);
    assert_eq!(action, Action::Ignore);
    assert_eq!(probe.phase(), Phase::Done);
}

#[test]
fn record_numbers_trials_and_adds_up() {
    let run = ProbeRun::new();
    assert_eq!(run.summary(), Summary::AllFailed { attempts: 0 });
    let run = run.record(11, Outcome::Failure { error: String::from("refused") });
    let run = run.record(12, Outcome::Success { nanos: 2_500_000, payload: Vec::new() });
    assert_eq!(run.len(), 2);
    assert_eq!(run.trial(1).unwrap().ordinal, 2);
    assert_eq!(run.trial(1).unwrap().started_at, 12);
    assert_eq!(run.successes(), 1);
    assert_eq!(run.total_nanos(), 2_500_000);
    assert_eq!(
        run.summary(),
        Summary::Averaged {
            successes: 1,
            attempts: 2,
            total_nanos: 2_500_000,
            total_millis: 2,
            average_nanos: 2_500_000,
            average_millis: 2,
            average_centimillis: 200,
        }
    );
}
