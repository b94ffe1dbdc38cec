//! The download test: a streamed body is counted chunk by chunk until the
//! stream closes, fails, or a byte cap is reached.
//!
//! Reading from the network is the caller's work. The caller opens the
//! stream, starts a [`DownloadSession`], and hands each thing that the stream
//! yields to [`DownloadSession::try_step`], which answers with what to do
//! next. When consumption has ended the caller stops its timer and asks
//! [`Rate::measure`] for the rate of the bytes counted.
//! [`DownloadTester::measure_recorded`] does all of this for a stream that
//! was recorded beforehand.

use vstd::prelude::*;
use bytes::Bytes;
use crate::buffer::bytes_contents;
use crate::errors::{Failure, SpeedTestError};
use crate::rate::{measured, outcome_view, Measurement, Rate};
use crate::text::{decimal, decimal_string};

verus! {

/// Bytes that accumulate between two progress signals.
pub const PROGRESS_INTERVAL: usize = 1_000_000;

/// Mathematical model of a [`DownloadTester`].
pub struct DownloadPlan {
    /// The endpoint to download from.
    pub url: Seq<char>,
    /// The byte cap, if there is one.
    pub max_bytes: Option<usize>,
}

/// Configuration of a download test: where to download from, and how many
/// bytes to read at most.
#[derive(Debug, Clone, PartialEq, Eq)]
pub struct DownloadTester {
    url: String,
    max_bytes: Option<usize>,
}

impl View for DownloadTester {
    type V = DownloadPlan;

    closed spec fn view(&self) -> DownloadPlan {
        DownloadPlan { url: self.url@, max_bytes: self.max_bytes }
    }
}

/// What a stream yields when it is asked for its next chunk.
#[derive(Debug)]
pub enum StreamEvent {
    /// A chunk of the body arrived.
    Chunk(Bytes),
    /// Reading failed; the text says why.
    Failed(String),
    /// The body is complete.
    Closed,
}

/// Mathematical model of a [`StreamEvent`].
pub enum Signal {
    Chunk(Seq<u8>),
    Failed(Seq<char>),
    Closed,
}

impl View for StreamEvent {
    type V = Signal;

    open spec fn view(&self) -> Signal {
        match self {
            StreamEvent::Chunk(chunk) => Signal::Chunk(bytes_contents(*chunk)),
            StreamEvent::Failed(detail) => Signal::Failed(detail@),
            StreamEvent::Closed => Signal::Closed,
        }
    }
}

/// The views of recorded events, in their order.
pub open spec fn signals_of(events: Seq<StreamEvent>) -> Seq<Signal> {
    events.map_values(|event: StreamEvent| event@)
}

/// Mathematical model of a [`DownloadSession`]: the counters of a download
/// that is still reading.
pub struct Progress {
    /// The byte cap, if there is one.
    pub cap: Option<usize>,
    /// Bytes counted so far.
    pub downloaded: nat,
    /// The byte count at the last progress signal.
    pub last_report: nat,
}

/// Mathematical model of a [`DownloadStep`].
pub enum Step {
    Continue { progress: Progress, report: Option<usize> },
    Finished { downloaded: nat, report: Option<usize>, capped: bool },
    Failed(Failure),
}

/// The detail of the failure for a stream that broke after `downloaded`
/// bytes: the byte count in decimal, then the transport's own words.
pub open spec fn stream_failure_detail(downloaded: nat, detail: Seq<char>) -> Seq<char> {
    "Stream error after "@ + decimal(downloaded) + " bytes: "@ + detail
}

/// The bytes that one event brings: those of a chunk, and none otherwise.
pub open spec fn chunk_len(signal: Signal) -> nat {
    match signal {
        Signal::Chunk(data) => data.len(),
        _ => 0,
    }
}

/// The bytes that a run of events brings in all.
pub open spec fn byte_total(signals: Seq<Signal>) -> nat
    decreases signals.len(),
{
    if signals.len() == 0 {
        0
    } else {
        chunk_len(signals[0]) + byte_total(signals.skip(1))
    }
}

impl Progress {
    /// The counters before the first chunk.
    pub open spec fn fresh(cap: Option<usize>) -> Progress {
        Progress { cap, downloaded: 0, last_report: 0 }
    }

    /// What holds of a download that may still read: the last progress
    /// signal lies less than an interval back, and the cap has not been
    /// reached by any chunk.
    pub open spec fn streaming(self) -> bool {
        &&& self.last_report <= self.downloaded
        &&& self.downloaded - self.last_report < PROGRESS_INTERVAL
        &&& self.cap matches Some(cap) ==> self.downloaded == 0 || self.downloaded < cap
    }

    /// Whether a chunk of `len` bytes makes a progress signal due: an
    /// interval or more has accumulated since the last one.
    pub open spec fn report_due(self, len: nat) -> bool {
        self.downloaded + len - self.last_report >= PROGRESS_INTERVAL
    }

    /// Whether a chunk of `len` bytes brings the count to the cap or beyond.
    pub open spec fn cap_reached(self, len: nat) -> bool {
        self.cap matches Some(cap) && self.downloaded + len >= cap
    }

    /// The progress signal that a chunk of `len` bytes calls for, if any: the
    /// byte count that it reports.
    pub open spec fn report(self, len: nat) -> Option<usize> {
        if self.report_due(len) {
            Some((self.downloaded + len) as usize)
        } else {
            None
        }
    }

    /// The counters after a chunk of `len` bytes.
    pub open spec fn receive(self, len: nat) -> Progress {
        Progress {
            cap: self.cap,
            downloaded: self.downloaded + len,
            last_report: if self.report_due(len) {
                self.downloaded + len
            } else {
                self.last_report
            },
        }
    }

    /// What follows from one thing that the stream yielded.
    pub open spec fn step(self, signal: Signal) -> Step {
        match signal {
            Signal::Chunk(data) => if self.cap_reached(data.len()) {
                Step::Finished {
                    downloaded: self.downloaded + data.len(),
                    report: self.report(data.len()),
                    capped: true,
                }
            } else {
                Step::Continue {
                    progress: self.receive(data.len()),
                    report: self.report(data.len()),
                }
            },
            Signal::Failed(detail) => Step::Failed(
                Failure::Network(stream_failure_detail(self.downloaded, detail)),
            ),
            Signal::Closed => Step::Finished {
                downloaded: self.downloaded,
                report: None,
                capped: false,
            },
        }
    }

    /// Whether the next thing that the stream yields can be counted: a chunk
    /// must leave the byte count within `usize`.
    pub open spec fn countable(self, signal: Signal) -> bool {
        signal matches Signal::Chunk(data) ==> self.downloaded + data.len() <= usize::MAX
    }

    /// What follows from a recorded stream, taken from its first event on.
    /// Events after the one that ends consumption are not looked at. A record
    /// that ends before the stream does leaves the download reading, with no
    /// progress signal pending.
    pub open spec fn run(self, signals: Seq<Signal>) -> Step
        decreases signals.len(),
    {
        if signals.len() == 0 {
            Step::Continue { progress: self, report: None }
        } else {
            match self.step(signals[0]) {
                Step::Continue { progress, .. } => progress.run(signals.skip(1)),
                end => end,
            }
        }
    }

    /// The result of a download whose stream yielded `signals` and then
    /// closed, if it had not ended before, over `elapsed_nanos` nanoseconds.
    pub open spec fn outcome(self, signals: Seq<Signal>, elapsed_nanos: int) -> Result<
        Measurement,
        Failure,
    > {
        match self.run(signals) {
            Step::Continue { progress, .. } => measured(progress.downloaded, elapsed_nanos),
            Step::Finished { downloaded, .. } => measured(downloaded, elapsed_nanos),
            Step::Failed(failure) => Err(failure),
        }
    }

    /// The number of events that [`Progress::run`] looks at: all up to and
    /// with the one that ends consumption.
    pub open spec fn consumed(self, signals: Seq<Signal>) -> nat
        decreases signals.len(),
    {
        if signals.len() == 0 {
            0
        } else {
            match self.step(signals[0]) {
                Step::Continue { progress, .. } => 1 + progress.consumed(signals.skip(1)),
                _ => 1,
            }
        }
    }

    /// Whether every event that [`Progress::run`] looks at can be counted.
    pub open spec fn run_countable(self, signals: Seq<Signal>) -> bool
        decreases signals.len(),
    {
        signals.len() > 0 ==> {
            &&& self.countable(signals[0])
            &&& self.step(signals[0]) matches Step::Continue { progress, .. }
                ==> progress.run_countable(signals.skip(1))
        }
    }
}

/// The counters of a download that is still reading.
#[derive(Debug)]
pub struct DownloadSession {
    max_bytes: Option<usize>,
    downloaded: usize,
    last_report: usize,
}

impl View for DownloadSession {
    type V = Progress;

    closed spec fn view(&self) -> Progress {
        Progress {
            cap: self.max_bytes,
            downloaded: self.downloaded as nat,
            last_report: self.last_report as nat,
        }
    }
}

/// What the caller does after one thing that the stream yielded.
#[derive(Debug)]
pub enum DownloadStep {
    /// Read on with `session`. Where `report` holds a byte count, a progress
    /// signal is due for it.
    Continue { session: DownloadSession, report: Option<usize> },
    /// Stop reading and stop the timer: `downloaded` bytes were counted.
    /// `capped` tells that the byte cap ended the download, with data
    /// possibly left unread.
    Finished { downloaded: usize, report: Option<usize>, capped: bool },
    /// The download failed: there is no rate.
    Failed(SpeedTestError),
}

impl View for DownloadStep {
    type V = Step;

    open spec fn view(&self) -> Step {
        match self {
            DownloadStep::Continue { session, report } => Step::Continue {
                progress: session@,
                report: *report,
            },
            DownloadStep::Finished { downloaded, report, capped } => Step::Finished {
                downloaded: *downloaded as nat,
                report: *report,
                capped: *capped,
            },
            DownloadStep::Failed(error) => Step::Failed(error@),
        }
    }
}

/// The failure for a stream that broke after `downloaded` bytes.
fn stream_failure(downloaded: usize, detail: &str) -> (error: SpeedTestError)
    ensures
        error@ == Failure::Network(stream_failure_detail(downloaded as nat, detail@)),
{
    let count = decimal_string(downloaded);
    let text = String::from_str("Stream error after ").concat(count.as_str()).concat(
        " bytes: ",
    ).concat(detail);
    assert(text@ =~= stream_failure_detail(downloaded as nat, detail@));
    SpeedTestError::Network(text)
}

impl DownloadSession {
    #[verifier::type_invariant]
    spec fn still_streaming(self) -> bool {
        self@.streaming()
    }

    /// Bytes counted so far.
    pub fn downloaded(&self) -> (n: usize)
        ensures
            n == self@.downloaded,
            self@.streaming(),
    {
        proof {
            use_type_invariant(self);
        }
        self.downloaded
    }

    /// Takes one thing that the stream yielded and says what to do next.
    ///
    /// A chunk is counted; a progress signal is due once an interval of
    /// bytes has accumulated since the last one; and the download ends, with
    /// the chunk counted in full, as soon as the count has reached the cap.
    /// A read failure ends the download without a rate, and the failure
    /// names the bytes counted before it. Closure ends the download.
    pub fn step(self, event: &StreamEvent) -> (next: DownloadStep)
        requires
            self@.countable(event@),
        ensures
            self@.streaming(),
            next@ == self@.step(event@),
    {
        proof {
            use_type_invariant(&self);
        }
        match event {
            StreamEvent::Chunk(chunk) => {
                let downloaded: usize = self.downloaded + chunk.len();
                let due = downloaded - self.last_report >= PROGRESS_INTERVAL;
                let report = if due {
                    Some(downloaded)
                } else {
                    None
                };
                let capped = match self.max_bytes {
                    Some(max) => downloaded >= max,
                    None => false,
                };
                if capped {
                    DownloadStep::Finished { downloaded, report, capped: true }
                } else {
                    let last_report: usize = if due {
                        downloaded
                    } else {
                        self.last_report
                    };
                    DownloadStep::Continue {
                        session: DownloadSession {
                            max_bytes: self.max_bytes,
                            downloaded,
                            last_report,
                        },
                        report,
                    }
                }
            },
            StreamEvent::Failed(detail) => DownloadStep::Failed(
                stream_failure(self.downloaded, detail.as_str()),
            ),
            StreamEvent::Closed => DownloadStep::Finished {
                downloaded: self.downloaded,
                report: None,
                capped: false,
            },
        }
    }

    /// [`DownloadSession::step`] for any event. Where a chunk would take the
    /// byte count beyond `usize`, nothing is counted and the session comes
    /// back as it was.
    pub fn try_step(self, event: &StreamEvent) -> (res: Result<DownloadStep, DownloadSession>)
        ensures
            self@.streaming(),
            match res {
                Ok(next) => self@.countable(event@) && next@ == self@.step(event@),
                Err(session) => !self@.countable(event@) && session@ == self@,
            },
    {
        proof {
            use_type_invariant(&self);
        }
        let fits = match event {
            StreamEvent::Chunk(chunk) => chunk.len() <= usize::MAX - self.downloaded,
            _ => true,
        };
        if fits {
            Ok(self.step(event))
        } else {
            Err(self)
        }
    }
}

impl DownloadTester {
    /// A download test of `url` without a byte cap: the stream is read until
    /// the server closes it.
    pub fn new(url: String) -> (tester: DownloadTester)
        ensures
            tester@ == (DownloadPlan { url: url@, max_bytes: None }),
    {
        DownloadTester { url, max_bytes: None }
    }

    /// The same test with a byte cap: reading stops once `bytes` or more
    /// have been counted.
    pub fn with_max_bytes(self, bytes: usize) -> (tester: DownloadTester)
        ensures
            tester@ == (DownloadPlan { url: self@.url, max_bytes: Some(bytes) }),
    {
        DownloadTester { url: self.url, max_bytes: Some(bytes) }
    }

    /// The endpoint to download from.
    pub fn url(&self) -> (url: &str)
        ensures
            url@ == self@.url,
    {
        self.url.as_str()
    }

    /// The byte cap, if there is one.
    pub fn max_bytes(&self) -> (cap: Option<usize>)
        ensures
            cap == self@.max_bytes,
    {
        self.max_bytes
    }

    /// The counters for a stream that has just been opened: no byte is
    /// counted yet.
    pub fn start(&self) -> (session: DownloadSession)
        ensures
            session@ == Progress::fresh(self@.max_bytes),
            session@.streaming(),
    {
        DownloadSession { max_bytes: self.max_bytes, downloaded: 0, last_report: 0 }
    }

    /// The whole test on a recorded stream: the events are taken in order as
    /// [`DownloadSession::step`] takes them, the end of the record counts as
    /// the closure of the stream, and the bytes counted are measured over
    /// `elapsed_nanos` nanoseconds.
    ///
    /// There is no result where a chunk would take the byte count beyond
    /// `usize`.
    pub fn measure_recorded(&self, events: &Vec<StreamEvent>, elapsed_nanos: i128) -> (res: Option<
        Result<Rate, SpeedTestError>,
    >)
        ensures
            res is Some <==> Progress::fresh(self@.max_bytes).run_countable(signals_of(events@)),
            res matches Some(outcome) ==> outcome_view(outcome) == Progress::fresh(
                self@.max_bytes,
            ).outcome(signals_of(events@), elapsed_nanos as int),
    {
        let ghost signals = signals_of(events@);
        let ghost first = Progress::fresh(self@.max_bytes);
        let mut session = self.start();
        let mut i: usize = 0;
        assert(signals.skip(0) =~= signals);
        while i < events.len()
            invariant
                i <= events.len(),
                first == Progress::fresh(self@.max_bytes),
                signals == signals_of(events@),
                signals.len() == events.len(),
                first.run_countable(signals) == session@.run_countable(signals.skip(i as int)),
                first.run(signals) == session@.run(signals.skip(i as int)),
            decreases events.len() - i,
        {
            let ghost rest = signals.skip(i as int);
            assert(rest.len() > 0);
            assert(rest[0] == events[i as int]@);
            assert(rest.skip(1) =~= signals.skip(i + 1));
            match session.try_step(&events[i]) {
                Ok(DownloadStep::Continue { session: next, .. }) => {
                    session = next;
                },
                Ok(DownloadStep::Finished { downloaded, .. }) => {
                    return Some(Rate::measure(downloaded, elapsed_nanos));
                },
                Ok(DownloadStep::Failed(error)) => {
                    return Some(Err(error));
                },
                Err(_) => {
                    return None;
                },
            }
            i += 1;
        }
        assert(signals.skip(i as int).len() == 0);
        Some(Rate::measure(session.downloaded(), elapsed_nanos))
    }
}

} // verus!
