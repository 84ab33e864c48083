use vstd::prelude::*;

verus! {

/// The kind of period a session is in.
#[derive(Clone, Copy, Debug, PartialEq, Eq, Structural)]
pub enum SessionType {
    Work,
    ShortBreak,
    LongBreak,
}

/// The work/break cycle: which period is current, how many work and long-break
/// periods have been completed, the configured length of each kind of period (in
/// minutes) and after how many work periods a long break is due.
#[derive(Clone, Copy, Debug, PartialEq, Eq, Structural)]
pub struct Session {
    pub short_break_time: u64,
    pub long_break_time: u64,
    pub work_time: u64,
    pub work_sessions: u64,
    pub long_break_sessions: u64,
    pub current_session: SessionType,
    pub long_break_threshold: u64,
}

pub const DEFAULT_SHORT_BREAK_MINUTES: u64 = 5;

pub const DEFAULT_LONG_BREAK_MINUTES: u64 = 15;

pub const DEFAULT_WORK_MINUTES: u64 = 25;

pub const DEFAULT_LONG_BREAK_THRESHOLD: u64 = 4;

impl Session {
    /// A long break is due after a positive number of work periods.
    pub open spec fn wf(self) -> bool {
        self.long_break_threshold > 0
    }

    /// The counter that `start_session` would increment has room to grow.
    pub open spec fn can_advance(self) -> bool {
        match self.current_session {
            SessionType::Work => self.work_sessions < u64::MAX,
            SessionType::ShortBreak => true,
            SessionType::LongBreak => self.long_break_sessions < u64::MAX,
        }
    }

    /// The session after the current period has ended.
    pub open spec fn advanced(self) -> Session {
        match self.current_session {
            SessionType::Work => {
                let n = (self.work_sessions + 1) as u64;
                Session {
                    work_sessions: n,
                    current_session: if n % self.long_break_threshold == 0 {
                        SessionType::LongBreak
                    } else {
                        SessionType::ShortBreak
                    },
                    ..self
                }
            },
            SessionType::ShortBreak => Session { current_session: SessionType::Work, ..self },
            SessionType::LongBreak => Session {
                long_break_sessions: (self.long_break_sessions + 1) as u64,
                current_session: SessionType::Work,
                ..self
            },
        }
    }

    /// The session after the user skipped the current period.
    pub open spec fn skipped(self) -> Session {
        match self.current_session {
            SessionType::Work => Session { current_session: SessionType::ShortBreak, ..self },
            _ => Session { current_session: SessionType::Work, ..self },
        }
    }

    /// The configured length, in minutes, of the current period.
    pub open spec fn duration_spec(self) -> u64 {
        match self.current_session {
            SessionType::Work => self.work_time,
            SessionType::ShortBreak => self.short_break_time,
            SessionType::LongBreak => self.long_break_time,
        }
    }

    /// A fresh cycle: in a work period, nothing completed yet, default lengths.
    pub open spec fn is_fresh(self) -> bool {
        &&& self.short_break_time == DEFAULT_SHORT_BREAK_MINUTES
        &&& self.long_break_time == DEFAULT_LONG_BREAK_MINUTES
        &&& self.work_time == DEFAULT_WORK_MINUTES
        &&& self.work_sessions == 0
        &&& self.long_break_sessions == 0
        &&& self.current_session == SessionType::Work
        &&& self.long_break_threshold == DEFAULT_LONG_BREAK_THRESHOLD
    }

    pub fn new() -> (s: Session)
        ensures
            s.is_fresh(),
            s.wf(),
    {
        Session {
            short_break_time: DEFAULT_SHORT_BREAK_MINUTES,
            long_break_time: DEFAULT_LONG_BREAK_MINUTES,
            work_time: DEFAULT_WORK_MINUTES,
            work_sessions: 0,
            long_break_sessions: 0,
            current_session: SessionType::Work,
            long_break_threshold: DEFAULT_LONG_BREAK_THRESHOLD,
        }
    }

    /// Ends the current period and moves on: a work period counts and is
    /// followed by a long break every `long_break_threshold`-th time, else by a
    /// short break; a break is followed by work, a long one being counted.
    pub fn start_session(&mut self)
        requires
            old(self).wf(),
            old(self).can_advance(),
        ensures
            *final(self) == old(self).advanced(),
            final(self).wf(),
            final(self).work_sessions >= old(self).work_sessions,
            final(self).long_break_sessions >= old(self).long_break_sessions,
    {
        match self.current_session {
            SessionType::Work => {
                self.work_sessions = self.work_sessions + 1;
                if self.work_sessions % self.long_break_threshold == 0 {
                    self.current_session = SessionType::LongBreak;
                } else {
                    self.current_session = SessionType::ShortBreak;
                }
            },
            SessionType::ShortBreak => {
                self.current_session = SessionType::Work;
            },
            SessionType::LongBreak => {
                self.long_break_sessions = self.long_break_sessions + 1;
                self.current_session = SessionType::Work;
            },
        }
    }

    /// The configured length, in minutes, of the current period.
    pub fn get_session_duration(&self) -> (r: u64)
        ensures
            r == self.duration_spec(),
    {
        match self.current_session {
            SessionType::Work => self.work_time,
            SessionType::ShortBreak => self.short_break_time,
            SessionType::LongBreak => self.long_break_time,
        }
    }

    /// Skips the current period: work gives way to a short break, and either
    /// break gives way to work. No counter changes.
    pub fn skip_break(&mut self)
        ensures
            *final(self) == old(self).skipped(),
            old(self).current_session == SessionType::LongBreak ==> final(self).current_session
                == SessionType::Work,
    {
        match self.current_session {
            SessionType::Work => {
                self.current_session = SessionType::ShortBreak;
            },
            SessionType::ShortBreak => {
                self.current_session = SessionType::Work;
            },
            SessionType::LongBreak => {
                self.current_session = SessionType::Work;
            },
        }
    }
}

/// With a long break due every fourth work period, a cycle that starts with the
/// first work period gives three short breaks and then a long one, and once the
/// long break has ended four work periods and one long break have been counted.
pub proof fn lemma_long_break_cycle(s0: Session)
    requires
        s0.current_session == SessionType::Work,
        s0.long_break_threshold == 4,
        s0.work_sessions == 0,
        s0.long_break_sessions == 0,
    ensures
        ({
            let s1 = s0.advanced();
            let s2 = s1.advanced();
            let s3 = s2.advanced();
            let s4 = s3.advanced();
            let s5 = s4.advanced();
            let s6 = s5.advanced();
            let s7 = s6.advanced();
            let s8 = s7.advanced();
            &&& s1.current_session == SessionType::ShortBreak
            &&& s3.current_session == SessionType::ShortBreak
            &&& s5.current_session == SessionType::ShortBreak
            &&& s7.current_session == SessionType::LongBreak
            &&& s2.current_session == SessionType::Work
            &&& s4.current_session == SessionType::Work
            &&& s6.current_session == SessionType::Work
            &&& s8.current_session == SessionType::Work
            &&& s7.work_sessions == 4
            &&& s7.long_break_sessions == 0
            &&& s8.work_sessions == 4
            &&& s8.long_break_sessions == 1
        }),
{
    assert(1u64 % 4 == 1 && 2u64 % 4 == 2 && 3u64 % 4 == 3 && 4u64 % 4 == 0);
    let s1 = s0.advanced();
    assert(s1.work_sessions == 1 && s1.current_session == SessionType::ShortBreak);
    let s3 = s1.advanced().advanced();
    assert(s3.work_sessions == 2 && s3.current_session == SessionType::ShortBreak);
    let s5 = s3.advanced().advanced();
    assert(s5.work_sessions == 3 && s5.current_session == SessionType::ShortBreak);
    let s7 = s5.advanced().advanced();
    assert(s7.work_sessions == 4 && s7.current_session == SessionType::LongBreak);
}

impl Default for Session {
    fn default() -> (s: Session)
        ensures
            s.is_fresh(),
    {
        Session::new()
    }
}

} // verus!
