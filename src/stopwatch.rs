use vstd::prelude::*;
use std::time::{Duration, Instant};
use crate::text::{append_two_digits, two_digits};

verus! {

#[verifier::external_type_specification]
#[verifier::external_body]
pub struct ExInstant(Instant);

/// Relies on `Instant::now`: a point on the monotonic clock, used as the
/// stopwatch's origin. Nothing is promised of its value.
#[verifier::external_body]
fn clock_origin() -> Instant {
    Instant::now()
}

/// Relies on `Instant::elapsed`: the time since `origin` on the monotonic clock.
/// Nothing is promised of its value.
#[verifier::external_body]
fn time_since(origin: &Instant) -> Duration {
    origin.elapsed()
}

/// Relies on `Duration::as_millis`: the duration in whole milliseconds.
/// Nothing is promised of its value, the duration being opaque here.
#[verifier::external_body]
fn whole_millis(d: &Duration) -> u128 {
    d.as_millis()
}

pub const MILLIS_PER_SECOND: u128 = 1000;

pub const MILLIS_PER_MINUTE: u128 = 60000;

pub const MILLIS_PER_HOUR: u128 = 3600000;

/// `a - b`, or zero where `b` exceeds `a`.
pub open spec fn sat_sub(a: u128, b: u128) -> u128 {
    if a >= b {
        (a - b) as u128
    } else {
        0
    }
}

/// `a + b`, or the largest `u128` where the sum does not fit.
pub open spec fn sat_add(a: u128, b: u128) -> u128 {
    if a + b <= u128::MAX {
        (a + b) as u128
    } else {
        u128::MAX
    }
}

/// `HH:MM:SS` for a time in milliseconds: each field zero-padded to two digits,
/// the hours unbounded, the milliseconds below a whole second dropped.
pub open spec fn hms_text(ms: u128) -> Seq<char> {
    two_digits((ms / MILLIS_PER_HOUR) as nat) + seq![':'] + two_digits(
        ((ms % MILLIS_PER_HOUR) / MILLIS_PER_MINUTE) as nat,
    ) + seq![':'] + two_digits(((ms % MILLIS_PER_MINUTE) / MILLIS_PER_SECOND) as nat)
}

/// What a stopwatch is, apart from its clock: clock readings are milliseconds
/// since the stopwatch's origin. While running, `running_since` is the reading
/// at which the current run began; `accumulated` is the time banked by earlier
/// runs, the whole elapsed time while not running.
pub struct StopwatchState {
    pub running_since: Option<u128>,
    pub accumulated: u128,
}

impl StopwatchState {
    pub open spec fn is_running(self) -> bool {
        self.running_since is Some
    }

    /// The elapsed time, in milliseconds, at clock reading `now`.
    pub open spec fn elapsed_at(self, now: u128) -> u128 {
        match self.running_since {
            Some(since) => sat_add(self.accumulated, sat_sub(now, since)),
            None => self.accumulated,
        }
    }

    /// After starting (or resuming) at `now`: a stopped or paused watch runs on
    /// from the time it had; a running one is left alone.
    pub open spec fn started(self, now: u128) -> StopwatchState {
        match self.running_since {
            Some(_) => self,
            None => StopwatchState { running_since: Some(now), accumulated: self.accumulated },
        }
    }

    /// After pausing at `now`: a running watch banks its elapsed time and stops
    /// running; a paused or stopped one is left alone.
    pub open spec fn paused(self, now: u128) -> StopwatchState {
        match self.running_since {
            Some(_) => StopwatchState { running_since: None, accumulated: self.elapsed_at(now) },
            None => self,
        }
    }

    /// After stopping or resetting: not running, nothing banked.
    pub open spec fn cleared() -> StopwatchState {
        StopwatchState { running_since: None, accumulated: 0 }
    }
}

/// A pausable stopwatch on the monotonic clock.
pub struct Stopwatch {
    origin: Instant,
    running_since: Option<u128>,
    accumulated: u128,
}

impl View for Stopwatch {
    type V = StopwatchState;

    closed spec fn view(&self) -> StopwatchState {
        StopwatchState { running_since: self.running_since, accumulated: self.accumulated }
    }
}

impl Stopwatch {
    /// A stopwatch that is not running and shows zero.
    pub fn new() -> (s: Stopwatch)
        ensures
            s@ == StopwatchState::cleared(),
    {
        Stopwatch { origin: clock_origin(), running_since: None, accumulated: 0 }
    }

    /// The current clock reading: milliseconds since this stopwatch's origin.
    pub fn now(&self) -> u128 {
        let d = time_since(&self.origin);
        whole_millis(&d)
    }

    /// Starts the stopwatch at clock reading `now`; no effect while running.
    pub fn start_at(&mut self, now: u128)
        ensures
            final(self)@ == old(self)@.started(now),
    {
        if self.running_since.is_none() {
            self.running_since = Some(now);
        }
    }

    /// Resumes the stopwatch at clock reading `now`; no effect while running.
    pub fn resume_at(&mut self, now: u128)
        ensures
            final(self)@ == old(self)@.started(now),
    {
        self.start_at(now);
    }

    /// Pauses the stopwatch at clock reading `now`, banking its elapsed time; no
    /// effect while not running.
    pub fn pause_at(&mut self, now: u128)
        ensures
            final(self)@ == old(self)@.paused(now),
    {
        if self.running_since.is_some() {
            self.accumulated = self.elapsed_at(now);
            self.running_since = None;
        }
    }

    /// The elapsed time, in milliseconds, at clock reading `now`.
    pub fn elapsed_at(&self, now: u128) -> (r: u128)
        ensures
            r == self@.elapsed_at(now),
    {
        match self.running_since {
            Some(since) => {
                let run: u128 = if now >= since {
                    now - since
                } else {
                    0
                };
                if self.accumulated <= u128::MAX - run {
                    self.accumulated + run
                } else {
                    u128::MAX
                }
            },
            None => self.accumulated,
        }
    }

    /// The elapsed time at clock reading `now`, as `HH:MM:SS`.
    pub fn format_time_at(&self, now: u128) -> (r: String)
        ensures
            r@ == hms_text(self@.elapsed_at(now)),
    {
        format_hms(self.elapsed_at(now))
    }

    /// Starts the stopwatch now; no effect while running.
    pub fn start(&mut self)
        ensures
            exists|now: u128| final(self)@ == #[trigger] old(self)@.started(now),
            old(self)@.is_running() ==> final(self)@ == old(self)@,
    {
        let now = self.now();
        self.start_at(now);
    }

    /// Resumes the stopwatch now; no effect while running.
    pub fn resume(&mut self)
        ensures
            exists|now: u128| final(self)@ == #[trigger] old(self)@.started(now),
            old(self)@.is_running() ==> final(self)@ == old(self)@,
    {
        let now = self.now();
        self.resume_at(now);
    }

    /// Pauses the stopwatch now, banking its elapsed time; no effect while not
    /// running.
    pub fn pause(&mut self)
        ensures
            exists|now: u128| final(self)@ == #[trigger] old(self)@.paused(now),
            !old(self)@.is_running() ==> final(self)@ == old(self)@,
    {
        let now = self.now();
        self.pause_at(now);
    }

    /// Stops the stopwatch and discards the banked time.
    pub fn stop(&mut self)
        ensures
            final(self)@ == StopwatchState::cleared(),
    {
        self.running_since = None;
        self.accumulated = 0;
    }

    /// Same as `stop`.
    pub fn reset(&mut self)
        ensures
            final(self)@ == StopwatchState::cleared(),
    {
        self.stop();
    }

    /// The elapsed time now, in milliseconds.
    pub fn elapsed(&self) -> (r: u128)
        ensures
            exists|now: u128| r == #[trigger] self@.elapsed_at(now),
            !self@.is_running() ==> r == self@.accumulated,
    {
        let now = self.now();
        self.elapsed_at(now)
    }

    /// The elapsed time now, as `HH:MM:SS`.
    pub fn format_time(&self) -> (r: String)
        ensures
            exists|now: u128| r@ == hms_text(#[trigger] self@.elapsed_at(now)),
            !self@.is_running() ==> r@ == hms_text(self@.accumulated),
    {
        let now = self.now();
        self.format_time_at(now)
    }
}

/// Elapsed time never goes back while the watch runs and stands still while it
/// does not, and no operation makes it jump: pausing at `t` keeps the elapsed
/// time it had at `t` for every later reading, and starting (or resuming) at `t`
/// begins from the elapsed time it had at `t`.
pub proof fn lemma_elapsed_monotone(s: StopwatchState, t1: u128, t2: u128)
    requires
        t1 <= t2,
    ensures
        s.is_running() ==> s.elapsed_at(t1) <= s.elapsed_at(t2),
        !s.is_running() ==> s.elapsed_at(t1) == s.elapsed_at(t2),
        s.paused(t1).elapsed_at(t2) == s.elapsed_at(t1),
        !s.paused(t1).is_running(),
        s.started(t1).elapsed_at(t1) == s.elapsed_at(t1),
        s.started(t1).is_running(),
{
}

/// Starting (or resuming) a second time, with no pause or stop in between, has
/// no further effect.
pub proof fn lemma_start_idempotent(s: StopwatchState, t1: u128, t2: u128)
    ensures
        s.started(t1).started(t2) == s.started(t1),
{
}

/// A stopped or reset stopwatch shows zero at every clock reading, whatever it
/// had banked before.
pub proof fn lemma_cleared_shows_zero(now: u128)
    ensures
        StopwatchState::cleared().elapsed_at(now) == 0,
        !StopwatchState::cleared().is_running(),
{
}

/// Renders a time in milliseconds as `HH:MM:SS`.
pub fn format_hms(ms: u128) -> (r: String)
    ensures
        r@ == hms_text(ms),
{
    let mut s = String::new();
    append_two_digits(&mut s, ms / MILLIS_PER_HOUR);
    s.append(":");
    append_two_digits(&mut s, (ms % MILLIS_PER_HOUR) / MILLIS_PER_MINUTE);
    s.append(":");
    append_two_digits(&mut s, (ms % MILLIS_PER_MINUTE) / MILLIS_PER_SECOND);
    proof { reveal_strlit(":"); }
    assert(s@ =~= hms_text(ms));
    s
}

} // verus!
