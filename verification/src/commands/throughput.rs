//! Download throughput: the bookkeeping of one streamed download, and the
//! walk over an ordered list of candidate servers that ends at the first
//! download that completes.
//!
//! Sizes are decimal megabytes (1 MB = 1,000,000 bytes). Figures that are
//! shown with two decimals are counts of hundredths, rounded to the nearest.

use vstd::prelude::*;
use crate::trial::hundredths;

verus! {

/// Nanoseconds in one second: the least time between two progress reports.
pub const NANOS_PER_SECOND: u64 = 1_000_000_000;

/// Bytes in one megabyte.
pub const BYTES_PER_MEGABYTE: u64 = 1_000_000;

/// Why a candidate was abandoned.
#[derive(Clone, Debug, PartialEq, Eq)]
pub enum DownloadError {
    /// The request could not be made or answered.
    Request { error: String },
    /// The server declared no size for the body.
    MissingContentLength,
    /// The body broke off.
    Stream { error: String },
}

/// Bytes received and time taken, with the figures derived from them.
#[derive(Clone, Copy, Debug, PartialEq, Eq, Structural)]
pub struct Measurement {
    pub bytes: u64,
    pub elapsed_nanos: u64,
    /// Megabytes received, in hundredths.
    pub centi_megabytes: u128,
    /// Seconds taken, in hundredths.
    pub centi_seconds: u128,
    /// Megabytes per second, in hundredths; `None` where no time has passed.
    pub centi_megabytes_per_second: Option<u128>,
}

/// Time from `from` to `to`, zero where `to` is the earlier.
pub open spec fn elapsed_between(from: u64, to: u64) -> u64 {
    if to >= from {
        (to - from) as u64
    } else {
        0
    }
}

/// The figures for `bytes` received in `nanos`.
pub open spec fn measure(bytes: u64, nanos: u64) -> Measurement {
    Measurement {
        bytes,
        elapsed_nanos: nanos,
        centi_megabytes: hundredths(bytes as nat, BYTES_PER_MEGABYTE as nat) as u128,
        centi_seconds: hundredths(nanos as nat, NANOS_PER_SECOND as nat) as u128,
        centi_megabytes_per_second: if nanos == 0 {
            None
        } else {
            Some(hundredths(bytes as nat * 1000, nanos as nat) as u128)
        },
    }
}

/// Time from `from` to `to`, zero where `to` is the earlier.
pub fn elapsed(from: u64, to: u64) -> (nanos: u64)
    ensures
        nanos == elapsed_between(from, to),
{
    if to >= from {
        to - from
    } else {
        0
    }
}

/// Computes the figures for `bytes` received in `nanos`.
pub fn measurement(bytes: u64, nanos: u64) -> (m: Measurement)
    ensures
        m == measure(bytes, nanos),
{
    let b: u128 = bytes as u128;
    let t: u128 = nanos as u128;
    let mb: u128 = BYTES_PER_MEGABYTE as u128;
    let s: u128 = NANOS_PER_SECOND as u128;
    let speed: Option<u128> = if nanos == 0 {
        None
    } else {
        Some((200 * (b * 1000) + t) / (2 * t))
    };
    Measurement {
        bytes,
        elapsed_nanos: nanos,
        centi_megabytes: (200 * b + mb) / (2 * mb),
        centi_seconds: (200 * t + s) / (2 * s),
        centi_megabytes_per_second: speed,
    }
}

/// One download in progress against one candidate.
#[derive(Clone, Copy, Debug, PartialEq, Eq, Structural)]
pub struct DownloadSession {
    /// Position of the candidate in the list.
    pub server: usize,
    /// Bytes received so far.
    pub bytes: u64,
    /// When the request was sent.
    pub started_at: u64,
    /// When progress was last reported, or when the body began.
    pub reported_at: u64,
}

/// Whether a server that declares `content_length` is accepted: it must
/// declare a size, whatever the size.
pub open spec fn has_content_length(content_length: Option<u64>) -> bool {
    content_length is Some
}

/// What becomes of `session` when the response declares `content_length` at
/// `now`: without a declared size the candidate is refused; with one the
/// body begins, and `now` is the time of the last report.
pub open spec fn accepted(session: DownloadSession, content_length: Option<u64>, now: u64)
    -> Result<DownloadSession, DownloadError> {
    if has_content_length(content_length) {
        Ok(DownloadSession { reported_at: now, ..session })
    } else {
        Err(DownloadError::MissingContentLength)
    }
}

/// What becomes of `session` when a chunk of `len` bytes arrives at `now`,
/// and the progress that is handed out, if it is due.
pub open spec fn received(session: DownloadSession, len: u64, now: u64) -> (
    DownloadSession,
    Option<Measurement>,
)
    recommends
        session.bytes + len <= u64::MAX,
{
    let bytes = (session.bytes + len) as u64;
    if progress_due(session, now) {
        (
            DownloadSession { bytes, reported_at: now, ..session },
            Some(measure(bytes, elapsed_between(session.started_at, now))),
        )
    } else {
        (DownloadSession { bytes, ..session }, None)
    }
}

/// Whether progress is due at `now`: a full second since the last report.
pub open spec fn progress_due(session: DownloadSession, now: u64) -> bool {
    elapsed_between(session.reported_at, now) >= NANOS_PER_SECOND
}

/// Begins a download against candidate `server` at `now`, with nothing
/// received.
pub fn test_download(server: usize, now: u64) -> (session: DownloadSession)
    ensures
        session == (DownloadSession { server, bytes: 0, started_at: now, reported_at: now }),
{
    DownloadSession { server, bytes: 0, started_at: now, reported_at: now }
}

impl DownloadSession {
    /// Takes what the request came to at `now`. A request that failed
    /// abandons the candidate with the failure's description; a response is
    /// taken as [`DownloadSession::accept`] takes its declared size.
    pub fn respond(self, response: Result<Option<u64>, String>, now: u64) -> (r: Result<
        DownloadSession,
        DownloadError,
    >)
        ensures
            response matches Err(error) ==> r == Err::<DownloadSession, DownloadError>(
                DownloadError::Request { error },
            ),
            response matches Ok(content_length) ==> r == accepted(self, content_length, now),
    {
        match response {
            Ok(content_length) => self.accept(content_length, now),
            Err(error) => Err(DownloadError::Request { error }),
        }
    }

    /// Takes the response's declared size at `now`. A server that declares
    /// none is refused; otherwise the body begins, whatever the size, and the
    /// time of the last report is `now`.
    pub fn accept(self, content_length: Option<u64>, now: u64) -> (r: Result<
        DownloadSession,
        DownloadError,
    >)
        ensures
            r == accepted(self, content_length, now),
            r is Err <==> content_length is None,
    {
        match content_length {
            Some(_) => Ok(DownloadSession { reported_at: now, ..self }),
            None => Err(DownloadError::MissingContentLength),
        }
    }

    /// Takes the next item of the body at `now`. An item that is an error
    /// abandons the candidate with the error's description: the session is
    /// gone, and with it any final figures. A chunk is taken as
    /// [`DownloadSession::receive`] takes its length.
    pub fn chunk(self, item: Result<u64, String>, now: u64) -> (r: Result<
        (DownloadSession, Option<Measurement>),
        DownloadError,
    >)
        requires
            item matches Ok(len) ==> self.bytes + len <= u64::MAX,
        ensures
            item matches Err(error) ==> r == Err::<
                (DownloadSession, Option<Measurement>),
                DownloadError,
            >(DownloadError::Stream { error }),
            item matches Ok(len) ==> r == Ok::<
                (DownloadSession, Option<Measurement>),
                DownloadError,
            >(received(self, len, now)),
    {
        match item {
            Ok(len) => Ok(self.receive(len, now)),
            Err(error) => Err(DownloadError::Stream { error }),
        }
    }

    /// Takes a chunk of `len` bytes that arrived at `now`. The bytes are
    /// added to the count, which never falls. Where a full second has passed
    /// since the last report, the progress so far is handed out and `now`
    /// becomes the time of the last report; otherwise nothing is reported.
    pub fn receive(self, len: u64, now: u64) -> (r: (DownloadSession, Option<Measurement>))
        requires
            self.bytes + len <= u64::MAX,
        ensures
            r == received(self, len, now),
            r.0.server == self.server,
            r.0.started_at == self.started_at,
            r.0.bytes == self.bytes + len,
            r.0.bytes >= self.bytes,
            r.1 is Some <==> progress_due(self, now),
    {
        let bytes: u64 = self.bytes + len;
        if elapsed(self.reported_at, now) >= NANOS_PER_SECOND {
            let progress = measurement(bytes, elapsed(self.started_at, now));
            (DownloadSession { bytes, reported_at: now, ..self }, Some(progress))
        } else {
            (DownloadSession { bytes, ..self }, None)
        }
    }

    /// Whether a chunk of `len` bytes can still be counted.
    pub fn has_room(&self, len: u64) -> (b: bool)
        ensures
            b == (self.bytes + len <= u64::MAX),
    {
        len <= u64::MAX - self.bytes
    }

    /// The final figures of a body that ended at `now`.
    pub fn finish(&self, now: u64) -> (m: Measurement)
        ensures
            m == measure(self.bytes, elapsed_between(self.started_at, now)),
    {
        measurement(self.bytes, elapsed(self.started_at, now))
    }
}

/// Where the walk over the candidates stands.
#[derive(Clone, Copy, Debug, PartialEq, Eq, Structural)]
pub enum Stage {
    /// Nothing has begun.
    Ready,
    /// A download is under way.
    Downloading,
    /// A download completed: the probe succeeded.
    Succeeded,
    /// Every candidate failed: the probe failed.
    Exhausted,
}

/// What the caller reports of the candidates.
#[derive(Clone, Copy, Debug, PartialEq, Eq, Structural)]
pub enum Notice {
    /// The probe is to begin.
    Begin,
    /// The download under way completed with these final figures.
    Completed { totals: Measurement },
    /// The download under way was abandoned.
    Abandoned,
}

/// What to report of a candidate whose download came to `result`: a
/// download that ran to its end completed with its figures; one that failed,
/// at whatever stage and for whatever reason, was abandoned.
pub fn conclude(result: &Result<Measurement, DownloadError>) -> (notice: Notice)
    ensures
        *result matches Ok(totals) ==> notice == (Notice::Completed { totals }),
        *result is Err ==> notice == Notice::Abandoned,
{
    match result {
        Ok(totals) => Notice::Completed { totals: *totals },
        Err(_) => Notice::Abandoned,
    }
}

/// What the caller is to do next.
#[derive(Clone, Copy, Debug, PartialEq, Eq, Structural)]
pub enum Directive {
    /// Download from the candidate at this position.
    Download { index: usize },
    /// The probe succeeded with the candidate at this position: report its
    /// final figures, and no other candidate's.
    Succeed { index: usize, totals: Measurement },
    /// Every candidate failed: the probe as a whole fails.
    Fail,
    /// The notice does not fit the stage: nothing changed.
    Ignore,
}

/// The walk over an ordered list of candidate servers.
pub struct Failover {
    candidates: Vec<String>,
    failed: usize,
    stage: Stage,
}

/// The transition function of the walk over `count` candidates: what
/// `notice` leads to in `stage` with the first `failed` candidates
/// abandoned. The result is the next stage, the number abandoned then, and
/// what the caller is to do.
pub open spec fn advance(count: nat, stage: Stage, failed: nat, notice: Notice) -> (
    Stage,
    nat,
    Directive,
) {
    match (stage, notice) {
        (Stage::Ready, Notice::Begin) => {
            if count == 0 {
                (Stage::Exhausted, failed, Directive::Fail)
            } else {
                (Stage::Downloading, failed, Directive::Download { index: 0 })
            }
        },
        (Stage::Downloading, Notice::Completed { totals }) => {
            (Stage::Succeeded, failed, Directive::Succeed { index: failed as usize, totals })
        },
        (Stage::Downloading, Notice::Abandoned) => {
            if failed + 1 < count {
                (
                    Stage::Downloading,
                    failed + 1,
                    Directive::Download { index: (failed + 1) as usize },
                )
            } else {
                (Stage::Exhausted, failed + 1, Directive::Fail)
            }
        },
        _ => (stage, failed, Directive::Ignore),
    }
}

/// Where a walk over `count` candidates stands after it was begun and the
/// first `n` downloads were abandoned. The result is as that of
/// [`advance`] for the last notice.
pub open spec fn after_failures(count: nat, n: nat) -> (Stage, nat, Directive)
    decreases n,
{
    if n == 0 {
        advance(count, Stage::Ready, 0, Notice::Begin)
    } else {
        let before = after_failures(count, (n - 1) as nat);
        advance(count, before.0, before.1, Notice::Abandoned)
    }
}

/// As long as fewer downloads were abandoned than there are candidates, the
/// walk asks for the next candidate in order: after `n` failures, for the
/// candidate at position `n`.
pub proof fn lemma_candidates_tried_in_order(count: nat, n: nat)
    requires
        n < count <= usize::MAX,
    ensures
        after_failures(count, n) == (
            Stage::Downloading,
            n,
            Directive::Download { index: n as usize },
        ),
    decreases n,
{
    if n > 0 {
        lemma_candidates_tried_in_order(count, (n - 1) as nat);
    }
}

/// When every one of the candidates was abandoned, the walk is exhausted
/// and the probe as a whole fails: no candidate is asked for again, and
/// none is reported as a success.
pub proof fn lemma_all_failing_fails(count: nat)
    requires
        count <= usize::MAX,
    ensures
        after_failures(count, count) == (Stage::Exhausted, count, Directive::Fail),
{
    if count > 0 {
        lemma_candidates_tried_in_order(count, (count - 1) as nat);
    }
}

/// The walk halts at the first download that completes: when the candidate
/// at position `n` completes after the `n` before it were abandoned, the
/// probe succeeds with that candidate and its figures, and whatever is
/// reported afterwards changes nothing.
pub proof fn lemma_first_success_halts(count: nat, n: nat, totals: Measurement, later: Notice)
    requires
        n < count <= usize::MAX,
    ensures
        ({
            let before = after_failures(count, n);
            let done = advance(count, before.0, before.1, Notice::Completed { totals });
            &&& done == (Stage::Succeeded, n, Directive::Succeed { index: n as usize, totals })
            &&& advance(count, done.0, done.1, later) == (Stage::Succeeded, n, Directive::Ignore)
        }),
{
    lemma_candidates_tried_in_order(count, n);
}

impl Failover {
    #[verifier::type_invariant]
    spec fn inv(self) -> bool {
        &&& self.failed <= self.candidates@.len()
        &&& self.stage == Stage::Ready ==> self.failed == 0
        &&& self.stage == Stage::Downloading ==> self.failed < self.candidates@.len()
        &&& self.stage == Stage::Succeeded ==> self.failed < self.candidates@.len()
        &&& self.stage == Stage::Exhausted ==> self.failed == self.candidates@.len()
    }

    /// The candidates, in order of preference.
    pub closed spec fn servers(self) -> Seq<String> {
        self.candidates@
    }

    /// Number of candidates abandoned so far: the first so many of the list.
    pub closed spec fn abandoned(self) -> nat {
        self.failed as nat
    }

    /// Where the walk stands.
    pub closed spec fn state(self) -> Stage {
        self.stage
    }

    /// A walk over `candidates`, not begun.
    pub fn new(candidates: Vec<String>) -> (walk: Failover)
        ensures
            walk.servers() == candidates@,
            walk.abandoned() == 0,
            walk.state() == Stage::Ready,
    {
        Failover { candidates, failed: 0, stage: Stage::Ready }
    }

    /// Where the walk stands. While a download is under way or after one
    /// completed, fewer candidates were abandoned than there are; the walk
    /// is exhausted only when all of them were.
    pub fn stage(&self) -> (stage: Stage)
        ensures
            stage == self.state(),
            self.abandoned() <= self.servers().len(),
            stage == Stage::Ready ==> self.abandoned() == 0,
            stage == Stage::Downloading || stage == Stage::Succeeded ==> self.abandoned()
                < self.servers().len(),
            stage == Stage::Exhausted ==> self.abandoned() == self.servers().len(),
    {
        proof {
            use_type_invariant(self);
        }
        self.stage
    }

    /// Number of candidates abandoned so far.
    pub fn failures(&self) -> (n: usize)
        ensures
            n == self.abandoned(),
    {
        self.failed
    }

    /// Number of candidates.
    pub fn len(&self) -> (n: usize)
        ensures
            n == self.servers().len(),
    {
        self.candidates.len()
    }

    /// The candidate at position `index`, if there is one.
    pub fn candidate(&self, index: usize) -> (url: Option<&String>)
        ensures
            index < self.servers().len() ==> url == Some(&self.servers()[index as int]),
            index >= self.servers().len() ==> url is None,
    {
        if index < self.candidates.len() {
            Some(&self.candidates[index])
        } else {
            None
        }
    }

    /// Takes `notice` and decides what comes next.
    ///
    /// The candidates are tried in order, each at most once. The walk ends
    /// with success at the first download that completes, and with failure
    /// when the last candidate was abandoned (or there was none). A notice
    /// that does not fit the stage changes nothing.
    pub fn step(self, notice: Notice) -> (r: (Failover, Directive))
        ensures
            r.0.servers() == self.servers(),
            (r.0.state(), r.0.abandoned(), r.1) == advance(
                self.servers().len(),
                self.state(),
                self.abandoned(),
                notice,
            ),
            r.1 is Download ==> r.1->Download_index == r.0.abandoned() && r.0.abandoned()
                < self.servers().len(),
            r.1 is Succeed ==> r.1->Succeed_index == r.0.abandoned() && r.0.abandoned()
                < self.servers().len(),
            r.1 is Fail ==> r.0.abandoned() == self.servers().len(),
    {
        proof {
            use_type_invariant(&self);
        }
        let Failover { candidates, failed, stage } = self;
        let count: usize = candidates.len();
        match (stage, notice) {
            (Stage::Ready, Notice::Begin) => {
                if count == 0 {
                    (Failover { candidates, failed, stage: Stage::Exhausted }, Directive::Fail)
                } else {
                    (
                        Failover { candidates, failed, stage: Stage::Downloading },
                        Directive::Download { index: 0 },
                    )
                }
            },
            (Stage::Downloading, Notice::Completed { totals }) => {
                (
                    Failover { candidates, failed, stage: Stage::Succeeded },
                    Directive::Succeed { index: failed, totals },
                )
            },
            (Stage::Downloading, Notice::Abandoned) => {
                let failed: usize = failed + 1;
                if failed < count {
                    (
                        Failover { candidates, failed, stage: Stage::Downloading },
                        Directive::Download { index: failed },
                    )
                } else {
                    (Failover { candidates, failed, stage: Stage::Exhausted }, Directive::Fail)
                }
            },
            (stage, _) => (Failover { candidates, failed, stage }, Directive::Ignore),
        }
    }
}

/// The servers that the throughput probe tries, in order of preference.
pub fn default_candidates() -> (list: Vec<String>)
    ensures
        list@.len() == 4,
        list@[0]@ == "https://speed.cloudflare.com/__down"@,
        list@[1]@
            == "https://download.microsoft.com/download/2/0/E/20E90413-712F-438C-988E-FDAA79A8AC3D/dotnetfx35.exe"@,
        list@[2]@ == "https://proof.ovh.net/files/100Mb.dat"@,
        list@[3]@ == "https://speed.hetzner.de/100MB.bin"@,
{
    let mut list: Vec<String> = Vec::new();
    list.push("https://speed.cloudflare.com/__down".to_owned());
    list.push(
        "https://download.microsoft.com/download/2/0/E/20E90413-712F-438C-988E-FDAA79A8AC3D/dotnetfx35.exe".to_owned(),
    );
    list.push("https://proof.ovh.net/files/100Mb.dat".to_owned());
    list.push("https://speed.hetzner.de/100MB.bin".to_owned());
    list
}

/// The throughput probe, not begun: a walk over the default candidates.
pub fn check() -> (walk: Failover)
    ensures
        walk.servers().len() == 4,
        walk.servers()[0]@ == "https://speed.cloudflare.com/__down"@,
        walk.servers()[1]@
            == "https://download.microsoft.com/download/2/0/E/20E90413-712F-438C-988E-FDAA79A8AC3D/dotnetfx35.exe"@,
        walk.servers()[2]@ == "https://proof.ovh.net/files/100Mb.dat"@,
        walk.servers()[3]@ == "https://speed.hetzner.de/100MB.bin"@,
        walk.abandoned() == 0,
        walk.state() == Stage::Ready,
{
    Failover::new(default_candidates())
}

} // verus!
