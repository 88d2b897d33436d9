//! Progress that is set by value or advanced by elapsed time, with a completion
//! signal that is raised once.
//!
//! Progress values are fixed-point numbers counted in millionths: `UNIT` stands for
//! one whole, so a timed progress runs from 0 to `UNIT`. The state does not raise
//! the signal itself. Each transition that would raise it hands the signal's
//! handle back to the caller, who owns the listener.
use instant::Instant;
use std::time::Duration;
use vstd::prelude::*;

verus! {

/// One whole, in millionths.
pub const UNIT: u64 = 1_000_000;

/// Number of polls wanted over one timed run.
pub const RESOLUTION: u64 = 500;

/// Longest wait between two polls, in milliseconds.
pub const MIN_INTERVAL_MS: u64 = 50;

/// Length of a timed run where none is given, in milliseconds.
pub const DEFAULT_DURATION_MS: u64 = 15000;

/// Makes `instant::Instant` known as a type whose values are carried along and
/// never looked into.
#[verifier::external_type_specification]
#[verifier::external_body]
pub struct ExInstant(instant::Instant);

/// Names the listener that a completion is reported to.
#[derive(Clone, Copy, Debug, PartialEq, Eq, Structural)]
pub struct SignalHandle(pub u64);

/// What one poll of the timer found.
#[derive(Clone, Copy, Debug, PartialEq, Eq, Structural)]
pub struct Advance {
    /// The progress stands at its maximum.
    pub completed: bool,
    /// The listener to notify now, if this poll completed the progress.
    pub fired: Option<SignalHandle>,
}

/// Progress shared state.
#[derive(Clone)]
pub struct ProgressState {
    id: String,
    max: u64,
    value: u64,
    running: bool,
    signal: Option<SignalHandle>,
    signaled: bool,
    start: Option<Instant>,
    duration: u64,
}

/// The state as plain values; `timed` says whether a timer was started.
pub struct ProgressView {
    pub id: Seq<char>,
    pub max: u64,
    pub value: u64,
    pub running: bool,
    pub signal: Option<SignalHandle>,
    pub signaled: bool,
    pub timed: bool,
    pub duration: u64,
}

/// The smaller of two values.
pub open spec fn lesser(a: u64, b: u64) -> u64 {
    if a <= b {
        a
    } else {
        b
    }
}

/// Share of `duration` that `elapsed` covers, in millionths and at most `UNIT`.
/// A run of no length is over at once.
pub open spec fn elapsed_share(elapsed: u64, duration: u64) -> u64 {
    if duration == 0 || elapsed >= duration {
        UNIT
    } else {
        ((elapsed as int * UNIT as int) / (duration as int)) as u64
    }
}

/// The handle that a signal attempt in `v` raises: the attached one, unless the
/// completion was reported before.
pub open spec fn raised(v: ProgressView) -> Option<SignalHandle> {
    if v.signaled {
        None
    } else {
        v.signal
    }
}

/// `v` after a signal attempt.
pub open spec fn after_signal(v: ProgressView) -> ProgressView {
    ProgressView { signaled: true, ..v }
}

/// `v` after completion: the value stands at the maximum and the signal was tried.
pub open spec fn after_complete(v: ProgressView) -> ProgressView {
    ProgressView { value: v.max, signaled: true, ..v }
}

/// `v` after its value is set to `value`.
pub open spec fn after_set(v: ProgressView, value: u64) -> ProgressView {
    if value >= v.max {
        after_complete(v)
    } else {
        ProgressView { value, ..v }
    }
}

/// The handle that setting the value to `value` raises in `v`.
pub open spec fn set_raises(v: ProgressView, value: u64) -> Option<SignalHandle> {
    if value >= v.max {
        raised(v)
    } else {
        None
    }
}

/// Whether a poll of `v` recomputes anything: only a running, timed progress moves.
pub open spec fn ticking(v: ProgressView) -> bool {
    v.running && v.timed
}

/// The value a poll of a ticking `v` arrives at before the completion test: the
/// elapsed share while below the maximum, the standing value once there.
pub open spec fn polled_value(v: ProgressView, elapsed: u64) -> u64 {
    if v.value < v.max {
        elapsed_share(elapsed, v.duration)
    } else {
        v.value
    }
}

/// `v` after a poll at `elapsed` milliseconds since the timer started.
pub open spec fn after_advance(v: ProgressView, elapsed: u64) -> ProgressView {
    if !ticking(v) {
        v
    } else if polled_value(v, elapsed) >= v.max {
        after_complete(v)
    } else {
        ProgressView { value: polled_value(v, elapsed), ..v }
    }
}

/// What a poll of `v` at `elapsed` milliseconds reports.
pub open spec fn advance_report(v: ProgressView, elapsed: u64) -> Advance {
    if ticking(v) && polled_value(v, elapsed) >= v.max {
        Advance { completed: true, fired: raised(v) }
    } else {
        Advance { completed: false, fired: None }
    }
}

/// `v` after a start with the given identifier, maximum, value and listener. A
/// value above the maximum is taken as the maximum.
pub open spec fn after_start(
    v: ProgressView,
    id: Seq<char>,
    max: u64,
    value: u64,
    signal: Option<SignalHandle>,
) -> ProgressView {
    ProgressView { id, max, value: lesser(value, max), running: true, signal, signaled: false, ..v }
}

/// `v` after a timed start: one whole to cover, nothing covered yet.
pub open spec fn after_timed(
    v: ProgressView,
    id: Seq<char>,
    duration: u64,
    signal: Option<SignalHandle>,
) -> ProgressView {
    ProgressView {
        id,
        max: UNIT,
        value: 0,
        running: true,
        signal,
        signaled: false,
        timed: true,
        duration,
    }
}

/// `v` after a reset: stopped at zero and ready to signal again.
pub open spec fn after_reset(v: ProgressView) -> ProgressView {
    ProgressView { value: 0, running: false, signaled: false, ..v }
}

/// Reads the clock through `instant::Instant::now`. Nothing is claimed of the
/// instant that comes back.
#[verifier::external_body]
fn clock_now() -> (t: Instant) {
    Instant::now()
}

/// Asks `Instant::elapsed` how long ago `start` was. Nothing is claimed of the
/// answer: it depends on the clock.
#[verifier::external_body]
fn elapsed_since(start: &Instant) -> (d: Duration) {
    start.elapsed()
}

/// Reads a duration in whole milliseconds through `Duration::as_millis`.
#[verifier::external_body]
fn whole_millis(d: &Duration) -> (ms: u128) {
    d.as_millis()
}

impl ProgressState {
    /// The state as plain values.
    pub closed spec fn view(&self) -> ProgressView {
        ProgressView {
            id: self.id@,
            max: self.max,
            value: self.value,
            running: self.running,
            signal: self.signal,
            signaled: self.signaled,
            timed: self.start is Some,
            duration: self.duration,
        }
    }

    /// The instant at which the timer was started, if one was.
    pub closed spec fn started(&self) -> Option<Instant> {
        self.start
    }

    /// The view calls a progress timed exactly when it holds a start instant.
    pub proof fn lemma_timed_iff_started(&self)
        ensures
            self@.timed == (self.started() is Some),
    {
    }

    /// The value does not exceed the maximum.
    pub open spec fn wf(&self) -> bool {
        self@.value <= self@.max
    }

    /// An idle progress: one whole to cover, no timer, no listener.
    pub fn new() -> (s: Self)
        ensures
            s.wf(),
            s@ == (ProgressView {
                id: Seq::<char>::empty(),
                max: UNIT,
                value: 0,
                running: false,
                signal: None,
                signaled: false,
                timed: false,
                duration: DEFAULT_DURATION_MS,
            }),
    {
        ProgressState {
            id: String::new(),
            max: UNIT,
            value: 0,
            running: false,
            signal: None,
            signaled: false,
            start: None,
            duration: DEFAULT_DURATION_MS,
        }
    }

    /// Starts or restarts progress driven by `set`.
    pub fn start(&mut self, id: &str, max: u64, value: u64, signal: Option<SignalHandle>)
        ensures
            final(self).wf(),
            final(self)@ == after_start(old(self)@, id@, max, value, signal),
            final(self).started() == old(self).started(),
    {
        self.running = true;
        self.signal = signal;
        self.signaled = false;
        self.id = id.to_owned();
        self.max = max;
        self.value = if value <= max {
            value
        } else {
            max
        };
    }

    /// Starts or restarts progress that completes `duration` milliseconds from now:
    /// reads the clock and starts the timer at that instant.
    pub fn timed(&mut self, id: &str, duration: u64, signal: Option<SignalHandle>)
        ensures
            final(self).wf(),
            final(self)@ == after_timed(old(self)@, id@, duration, signal),
            final(self).started() is Some,
    {
        let now = clock_now();
        self.timed_at(id, duration, signal, now);
    }

    /// Starts or restarts progress that completes `duration` milliseconds after
    /// the instant `now`, which becomes the timer's start.
    pub fn timed_at(&mut self, id: &str, duration: u64, signal: Option<SignalHandle>, now: Instant)
        ensures
            final(self).wf(),
            final(self)@ == after_timed(old(self)@, id@, duration, signal),
            final(self).started() == Some(now),
    {
        self.running = true;
        self.signal = signal;
        self.signaled = false;
        self.id = id.to_owned();
        self.start = Some(now);
        self.duration = duration;
        self.max = UNIT;
        self.value = 0;
    }

    /// The instant at which the timer was started, if one was.
    pub fn started_at(&self) -> (r: Option<Instant>)
        ensures
            r == self.started(),
    {
        self.start
    }

    /// Polls the timer against the clock. Whatever the clock says, the outcome is
    /// that of `advance_by` at some number of elapsed milliseconds.
    pub fn advance(&mut self) -> (r: Advance)
        requires
            old(self).wf(),
        ensures
            final(self).wf(),
            final(self).started() == old(self).started(),
            exists|elapsed: u64|
                final(self)@ == after_advance(old(self)@, elapsed) && r == advance_report(
                    old(self)@,
                    elapsed,
                ),
    {
        let ms: u128 = match &self.start {
            Some(start) => {
                let d = elapsed_since(start);
                whole_millis(&d)
            },
            None => 0,
        };
        let elapsed: u64 = if ms > u64::MAX as u128 {
            u64::MAX
        } else {
            ms as u64
        };
        let ghost before = self@;
        let r = self.advance_by(elapsed);
        proof {
            assert(self@ == after_advance(before, elapsed) && r == advance_report(before, elapsed));
        }
        r
    }

    /// Polls the timer at `elapsed` milliseconds since it was started.
    ///
    /// Nothing moves unless the progress is running and timed. Below the maximum
    /// the value becomes the share of the duration that has elapsed; at or above
    /// the maximum the progress is completed and the poll reports so.
    pub fn advance_by(&mut self, elapsed: u64) -> (r: Advance)
        requires
            old(self).wf(),
        ensures
            final(self).wf(),
            final(self)@ == after_advance(old(self)@, elapsed),
            r == advance_report(old(self)@, elapsed),
            final(self).started() == old(self).started(),
    {
        if self.running && self.start.is_some() {
            if self.value < self.max {
                self.value = share_of(elapsed, self.duration);
            }
            if self.value >= self.max {
                let fired = self.complete();
                return Advance { completed: true, fired };
            }
        }
        Advance { completed: false, fired: None }
    }

    /// Completes the progress: the value goes to the maximum and the signal is
    /// tried. Returns the listener to notify, if any.
    pub fn complete(&mut self) -> (fired: Option<SignalHandle>)
        ensures
            final(self).wf(),
            final(self)@ == after_complete(old(self)@),
            fired == raised(old(self)@),
            final(self).started() == old(self).started(),
    {
        self.value = self.max;
        self.signal()
    }

    /// Whether the value has reached the maximum.
    pub fn completed(&self) -> (r: bool)
        ensures
            r == (self@.value >= self@.max),
    {
        self.value >= self.max
    }

    /// Length of a timed run in milliseconds.
    pub fn duration(&self) -> (r: u64)
        ensures
            r == self@.duration,
    {
        self.duration
    }

    /// The progress identifier.
    pub fn id(&self) -> (r: &str)
        ensures
            r@ == self@.id,
    {
        self.id.as_str()
    }

    /// Milliseconds to wait between two polls: a `RESOLUTION`-th of the duration,
    /// and never more than `MIN_INTERVAL_MS`.
    pub fn interval(&self) -> (r: u64)
        ensures
            r == lesser(self@.duration / RESOLUTION, MIN_INTERVAL_MS),
    {
        let step: u64 = self.duration / RESOLUTION;
        if step <= MIN_INTERVAL_MS {
            step
        } else {
            MIN_INTERVAL_MS
        }
    }

    /// Stops the progress at zero and re-arms the signal. A timer that was started
    /// is restarted from now: the clock is read and its instant stored. Without a
    /// timer the clock is not read and none is set.
    pub fn reset(&mut self)
        ensures
            final(self).wf(),
            final(self)@ == after_reset(old(self)@),
            (final(self).started() is Some) == (old(self).started() is Some),
    {
        if self.start.is_some() {
            let now = clock_now();
            self.reset_at(now);
        } else {
            self.rewind();
        }
    }

    /// Stops the progress at zero and re-arms the signal. A timer that was started
    /// is restarted from the instant `now`; without a timer none is set.
    pub fn reset_at(&mut self, now: Instant)
        ensures
            final(self).wf(),
            final(self)@ == after_reset(old(self)@),
            final(self).started() == if old(self).started() is Some {
                Some(now)
            } else {
                None
            },
    {
        self.rewind();
        if self.start.is_some() {
            self.start = Some(now);
        }
    }

    /// Stops the progress at zero and re-arms the signal; the timer is left alone.
    fn rewind(&mut self)
        ensures
            final(self).wf(),
            final(self)@ == after_reset(old(self)@),
            final(self).started() == old(self).started(),
    {
        self.value = 0;
        self.running = false;
        self.signaled = false;
    }

    /// Whether the progress was started and not reset since.
    pub fn running(&self) -> (r: bool)
        ensures
            r == self@.running,
    {
        self.running
    }

    /// Sets the value; at or above the maximum this completes the progress.
    /// Returns the listener to notify, if any.
    pub fn set(&mut self, value: u64) -> (fired: Option<SignalHandle>)
        ensures
            final(self).wf(),
            final(self)@ == after_set(old(self)@, value),
            fired == set_raises(old(self)@, value),
            final(self).started() == old(self).started(),
    {
        self.value = value;
        if self.value >= self.max {
            self.complete()
        } else {
            None
        }
    }

    /// Marks the completion as reported. Returns the listener to notify: the
    /// attached one on the first attempt since the last start or reset, none after.
    pub fn signal(&mut self) -> (fired: Option<SignalHandle>)
        ensures
            final(self)@ == after_signal(old(self)@),
            fired == raised(old(self)@),
            final(self).started() == old(self).started(),
    {
        if !self.signaled {
            self.signaled = true;
            self.signal
        } else {
            None
        }
    }

    /// The current value in millionths.
    pub fn value(&self) -> (r: u64)
        ensures
            r == self@.value,
    {
        self.value
    }

    /// The maximum and the current value, in millionths.
    pub fn values(&self) -> (r: (u64, u64))
        ensures
            r == (self@.max, self@.value),
    {
        (self.max, self.value)
    }
}

impl Default for ProgressState {
    fn default() -> (s: Self)
        ensures
            s.wf(),
            s@.max == UNIT,
            s@.value == 0,
            !s@.running,
            !s@.timed,
            !s@.signaled,
            s@.signal is None,
            s@.duration == DEFAULT_DURATION_MS,
            s@.id == Seq::<char>::empty(),
    {
        ProgressState::new()
    }
}

/// Computes `elapsed_share`.
pub fn share_of(elapsed: u64, duration: u64) -> (r: u64)
    ensures
        r == elapsed_share(elapsed, duration),
        r <= UNIT,
{
    if duration == 0 || elapsed >= duration {
        UNIT
    } else {
        assert(elapsed as int * UNIT as int <= 0xffff_ffff_ffff_ffff * 1_000_000) by (nonlinear_arith)
            requires
                elapsed <= 0xffff_ffff_ffff_ffff,
                UNIT == 1_000_000,
        ;
        let scaled: u128 = elapsed as u128 * UNIT as u128;
        let q: u128 = scaled / duration as u128;
        proof {
            assert(elapsed as int * UNIT as int <= duration as int * UNIT as int) by (nonlinear_arith)
                requires
                    elapsed < duration,
            ;
            assert((elapsed as int * UNIT as int) / (duration as int) <= UNIT as int) by (nonlinear_arith)
                requires
                    elapsed as int * UNIT as int <= duration as int * UNIT as int,
                    duration > 0,
                    elapsed >= 0,
            ;
        }
        q as u64
    }
}

} // verus!
