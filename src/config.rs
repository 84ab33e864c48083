use vstd::prelude::*;

verus! {

/// How insistently the user is reminded that a period has ended.
#[derive(Clone, Copy, Debug, PartialEq, Eq, Structural)]
pub enum AnnoyingLevel {
    Off,
    Low,
    Medium,
    High,
}

impl Default for AnnoyingLevel {
    fn default() -> (r: AnnoyingLevel)
        ensures
            r == AnnoyingLevel::Off,
    {
        AnnoyingLevel::Off
    }
}

/// The user's settings; a missing entry stands for its default.
#[derive(Debug)]
pub struct Config {
    pub short_break_duration: Option<u64>,
    pub long_break_duration: Option<u64>,
    pub work_duration: Option<u64>,
    pub theme: Option<String>,
    pub work_sound: Option<String>,
    pub break_sound: Option<String>,
    pub annoying_level: Option<AnnoyingLevel>,
    pub sessions_long_break: Option<u64>,
}

/// The value of a setting: what was given, else the default.
pub open spec fn or_default<T>(v: Option<T>, d: T) -> T {
    match v {
        Some(x) => x,
        None => d,
    }
}

/// The text of a setting: what was given, else `"default"`.
pub open spec fn text_or_default(v: Option<String>) -> Seq<char> {
    match v {
        Some(s) => s@,
        None => seq!['d', 'e', 'f', 'a', 'u', 'l', 't'],
    }
}

fn default_text() -> (r: &'static str)
    ensures
        r@ == seq!['d', 'e', 'f', 'a', 'u', 'l', 't'],
{
    proof { reveal_strlit("default"); }
    "default"
}

fn text_setting(v: &Option<String>) -> (r: &str)
    ensures
        r@ == text_or_default(*v),
{
    match v {
        Some(s) => s.as_str(),
        None => default_text(),
    }
}

impl Default for Config {
    /// Every setting missing.
    fn default() -> (c: Config)
        ensures
            c.short_break_duration is None,
            c.long_break_duration is None,
            c.work_duration is None,
            c.theme is None,
            c.work_sound is None,
            c.break_sound is None,
            c.annoying_level is None,
            c.sessions_long_break is None,
    {
        Config {
            short_break_duration: None,
            long_break_duration: None,
            work_duration: None,
            theme: None,
            work_sound: None,
            break_sound: None,
            annoying_level: None,
            sessions_long_break: None,
        }
    }
}

impl Config {
    /// Minutes of a short break; 5 by default.
    pub fn short_break_duration(&self) -> (r: u64)
        ensures
            r == or_default(self.short_break_duration, 5),
    {
        match self.short_break_duration {
            Some(m) => m,
            None => 5,
        }
    }

    /// Minutes of a long break; 15 by default.
    pub fn long_break_duration(&self) -> (r: u64)
        ensures
            r == or_default(self.long_break_duration, 15),
    {
        match self.long_break_duration {
            Some(m) => m,
            None => 15,
        }
    }

    /// Work periods between long breaks; 4 by default.
    pub fn sessions_long_break(&self) -> (r: u64)
        ensures
            r == or_default(self.sessions_long_break, 4),
    {
        match self.sessions_long_break {
            Some(n) => n,
            None => 4,
        }
    }

    /// Minutes of a work period; 25 by default.
    pub fn work_duration(&self) -> (r: u64)
        ensures
            r == or_default(self.work_duration, 25),
    {
        match self.work_duration {
            Some(m) => m,
            None => 25,
        }
    }

    /// The theme's name; `"default"` by default.
    pub fn theme(&self) -> (r: &str)
        ensures
            r@ == text_or_default(self.theme),
    {
        text_setting(&self.theme)
    }

    /// The sound at the end of a work period; `"default"` by default.
    pub fn work_sound(&self) -> (r: &str)
        ensures
            r@ == text_or_default(self.work_sound),
    {
        text_setting(&self.work_sound)
    }

    /// The sound at the end of a break; `"default"` by default.
    pub fn break_sound(&self) -> (r: &str)
        ensures
            r@ == text_or_default(self.break_sound),
    {
        text_setting(&self.break_sound)
    }

    /// How insistent reminders are; `Off` by default.
    pub fn annoying_level(&self) -> (r: AnnoyingLevel)
        ensures
            r == or_default(self.annoying_level, AnnoyingLevel::Off),
    {
        match self.annoying_level {
            Some(l) => l,
            None => AnnoyingLevel::Off,
        }
    }

    /// Whether the background should blink: only at the highest level.
    pub fn should_blink_background(&self) -> (r: bool)
        ensures
            r == (or_default(self.annoying_level, AnnoyingLevel::Off) == AnnoyingLevel::High),
    {
        let level = self.annoying_level();
        match level {
            AnnoyingLevel::High => true,
            _ => false,
        }
    }
}

} // verus!
