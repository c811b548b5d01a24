use netperf::commands::throughput::{
    check, conclude, default_candidates, elapsed, measurement, test_download, Directive,
    DownloadError, DownloadSession, Failover, Measurement, Notice, Stage,
};

const SECOND: u64 = 1_000_000_000;

fn list(names: &[&str]) -> Vec<String> {
    names.iter().map(|s| String::from(*s)).collect()
}

#[test]
fn second_candidate_succeeds_after_first_lacks_content_length() {
    let walk = Failover::new(list(&["A", "B"]));
    let (walk, directive) = walk.step(Notice::Begin);
    assert_eq!(directive, Directive::Download { index: 0 });
    assert_eq!(walk.candidate(0).unwrap(), "A");

    let first = test_download(0, 0);
    assert_eq!(first.accept(None, 5), Err(DownloadError::MissingContentLength));
    let (walk, directive) = walk.step(Notice::Abandoned);
    assert_eq!(directive, Directive::Download { index: 1 });
    assert_eq!(walk.candidate(1).unwrap(), "B");

    let start = 10 * SECOND;
    let session = test_download(1, start).accept(Some(10_000_000), start).unwrap();
    assert_eq!(session.bytes, 0);
    let (session, progress) = session.receive(4_000_000, start + SECOND / 2);
    assert_eq!(progress, None);
    let (session, progress) = session.receive(6_000_000, start + 2 * SECOND);
    assert_eq!(progress, Some(measurement(10_000_000, 2 * SECOND)));
    let totals = session.finish(start + 2 * SECOND);
    assert_eq!(
        totals,
        Measurement {
            bytes: 10_000_000,
            elapsed_nanos: 2 * SECOND,
            centi_megabytes: 1000,
            centi_seconds: 200,
            centi_megabytes_per_second: Some(500),
        }
    );
    let (walk, directive) = walk.step(Notice::Completed { totals });
    assert_eq!(directive, Directive::Succeed { index: 1, totals });
    match directive {
        Directive::Succeed { totals, .. } => {
            assert_eq!(totals.centi_megabytes, 1000);
            assert_eq!(totals.centi_megabytes_per_second, Some(500));
        }
        _ => panic!("the second candidate completed"),
    }
    assert_eq!(walk.stage(), Stage::Succeeded);
    assert_eq!(walk.failures(), 1);
}

#[test]
fn every_candidate_failing_fails_the_probe() {
    for n in 1usize..=5 {
        let names: Vec<String> = (0..n).map(|i| format!("server-{}", i)).collect();
        let (mut walk, mut directive) = Failover::new(names).step(Notice::Begin);
        for i in 0..n {
            assert_eq!(directive, Directive::Download { index: i });
            assert_eq!(walk.stage(), Stage::Downloading);
            let (w, d) = walk.step(Notice::Abandoned);
            walk = w;
            directive = d;
        }
        assert_eq!(directive, Directive::Fail);
        assert_eq!(walk.stage(), Stage::Exhausted);
        assert_eq!(walk.failures(), n);
        let (walk, directive) = walk.step(Notice::Completed { totals: measurement(1, 1) });
        assert_eq!(directive, Directive::Ignore);
        assert_eq!(walk.stage(), Stage::Exhausted);
    }
}

#[test]
fn empty_list_fails_at_once() {
    let (walk, directive) = Failover::new(Vec::new()).step(Notice::Begin);
    assert_eq!(directive, Directive::Fail);
    assert_eq!(walk.stage(), Stage::Exhausted);
    assert_eq!(walk.len(), 0);
}

#[test]
fn walk_halts_at_first_success() {
    let (walk, _) = Failover::new(list(&["A", "B", "C"])).step(Notice::Begin);
    let totals = measurement(3_000_000, 1_000_000_000);
    let (walk, directive) = walk.step(Notice::Completed { totals });
    assert_eq!(directive, Directive::Succeed { index: 0, totals });
    assert_eq!(walk.failures(), 0);
    let (walk, directive) = walk.step(Notice::Abandoned);
    assert_eq!(directive, Directive::Ignore);
    assert_eq!(walk.stage(), Stage::Succeeded);
    let (_, directive) = walk.step(Notice::Begin);
    assert_eq!(directive, Directive::Ignore);
}

#[test]
fn notices_before_the_start_are_ignored() {
    let walk = Failover::new(list(&["A"]));
    let (walk, directive) = walk.step(Notice::Abandoned);
    assert_eq!(directive, Directive::Ignore);
    assert_eq!(walk.stage(), Stage::Ready);
    assert_eq!(walk.failures(), 0);
}

#[test]
fn default_candidates_in_order() {
    let expected = list(&[
        "https://speed.cloudflare.com/__down",
        "https://download.microsoft.com/download/2/0/E/20E90413-712F-438C-988E-FDAA79A8AC3D/dotnetfx35.exe",
        "https://proof.ovh.net/files/100Mb.dat",
        "https://speed.hetzner.de/100MB.bin",
    ]);
    assert_eq!(default_candidates(), expected);
    let walk = check();
    assert_eq!(walk.len(), 4);
    assert_eq!(walk.stage(), Stage::Ready);
    for (i, url) in expected.iter().enumerate() {
        assert_eq!(walk.candidate(i), Some(url));
    }
    assert_eq!(walk.candidate(4), None);
}

#[test]
fn declared_content_length_is_accepted_whatever_the_size() {
    let begun = DownloadSession { server: 2, bytes: 0, started_at: 1, reported_at: 3 };
    assert_eq!(test_download(2, 1).accept(Some(0), 3), Ok(begun));
    assert_eq!(test_download(2, 1).accept(Some(1), 3), Ok(begun));
    assert_eq!(test_download(2, 1).accept(Some(u64::MAX), 3), Ok(begun));
    assert_eq!(test_download(2, 1).accept(None, 3), Err(DownloadError::MissingContentLength));
}

#[test]
fn empty_body_of_declared_length_zero_completes() {
    let session = test_download(0, 5).respond(Ok(Some(0)), 6).unwrap();
    let totals = session.finish(5 + SECOND);
    assert_eq!(totals.bytes, 0);
    assert_eq!(totals.centi_megabytes, 0);
    assert_eq!(totals.centi_seconds, 100);
    assert_eq!(totals.centi_megabytes_per_second, Some(0));
    assert_eq!(conclude(&Ok(totals)), Notice::Completed { totals });
}

#[test]
fn failed_request_abandons_with_its_error() {
    let r = test_download(1, 0).respond(Err(String::from("connection refused")), 9);
    assert_eq!(r, Err(DownloadError::Request { error: String::from("connection refused") }));
    assert_eq!(
        test_download(1, 0).respond(Ok(None), 9),
        Err(DownloadError::MissingContentLength)
    );
    assert_eq!(
        test_download(1, 4).respond(Ok(Some(77)), 9),
        Ok(DownloadSession { server: 1, bytes: 0, started_at: 4, reported_at: 9 })
    );
}

#[test]
fn broken_body_abandons_with_its_error() {
    let session = test_download(0, 0).respond(Ok(Some(100)), 0).unwrap();
    let (session, progress) = session.chunk(Ok(40), 10).unwrap();
    assert_eq!(progress, None);
    assert_eq!(session.bytes, 40);
    let (session, progress) = session.chunk(Ok(10), SECOND).unwrap();
    assert_eq!(progress, Some(measurement(50, SECOND)));
    assert_eq!(session, DownloadSession { server: 0, bytes: 50, started_at: 0, reported_at: SECOND });
    let r = session.chunk(Err(String::from("connection reset")), SECOND + 1);
    assert_eq!(r, Err(DownloadError::Stream { error: String::from("connection reset") }));
}

#[test]
fn any_failure_abandons_the_candidate() {
    let totals = measurement(1, 1);
    assert_eq!(conclude(&Ok(totals)), Notice::Completed { totals });
    assert_eq!(conclude(&Err(DownloadError::MissingContentLength)), Notice::Abandoned);
    assert_eq!(
        conclude(&Err(DownloadError::Request { error: String::from("a") })),
        Notice::Abandoned
    );
    assert_eq!(
        conclude(&Err(DownloadError::Stream { error: String::from("b") })),
        Notice::Abandoned
    );
}

#[test]
fn progress_at_most_once_per_second() {
    let session = test_download(0, 0).accept(Some(100), 0).unwrap();
    let (session, p) = session.receive(1_000_000, SECOND - 1);
    assert_eq!(p, None);
    assert_eq!(session.reported_at, 0);
    let (session, p) = session.receive(1_000_000, SECOND);
    assert_eq!(p, Some(measurement(2_000_000, SECOND)));
    assert_eq!(p.unwrap().centi_megabytes, 200);
    assert_eq!(p.unwrap().centi_megabytes_per_second, Some(200));
    assert_eq!(session.reported_at, SECOND);
    let (session, p) = session.receive(1_000_000, SECOND + SECOND / 2);
    assert_eq!(p, None);
    let (session, p) = session.receive(500_000, 2 * SECOND);
    assert_eq!(p.unwrap().bytes, 3_500_000);
    assert_eq!(p.unwrap().centi_megabytes_per_second, Some(175));
    assert_eq!(session.bytes, 3_500_000);
    assert_eq!(session.server, 0);
    assert_eq!(session.started_at, 0);
}

#[test]
fn bytes_never_fall() {
    let mut session = test_download(0, 0);
    let mut last = 0;
    for (i, len) in [0u64, 5, 0, 1_000, 17].iter().enumerate() {
        assert!(session.has_room(*len));
        let (s, _) = session.receive(*len, i as u64);
        assert!(s.bytes >= last);
        assert_eq!(s.bytes, last + len);
        last = s.bytes;
        session = s;
    }
    assert!(!session.has_room(u64::MAX));
    assert!(session.has_room(u64::MAX - last));
}

#[test]
fn measurement_figures() {
    let m = measurement(1_234_567, 1_500_000_000);
    assert_eq!(m.centi_megabytes, 123);
    assert_eq!(m.centi_seconds, 150);
    assert_eq!(m.centi_megabytes_per_second, Some(82));
    let m = measurement(1_235_000, 3 * SECOND);
    assert_eq!(m.centi_megabytes, 124);
    assert_eq!(m.centi_megabytes_per_second, Some(41));
    let m = measurement(5, 0);
    assert_eq!(m.centi_megabytes, 0);
    assert_eq!(m.centi_seconds, 0);
    assert_eq!(m.centi_megabytes_per_second, None);
    let m = measurement(u64::MAX, 1);
    assert_eq!(m.centi_megabytes_per_second, Some((200 * (u64::MAX as u128) * 1000 + 1) / 2));
}

#[test]
fn clock_that_steps_back_counts_as_no_time() {
    assert_eq!(elapsed(10, 4), 0);
    assert_eq!(elapsed(4, 10), 6);
    let session = test_download(0, 100);
    assert_eq!(session.finish(50).elapsed_nanos, 0);
    assert_eq!(session.finish(50).centi_megabytes_per_second, None);
}
