use vstd::prelude::*;

use crate::timer::{TimerConfig, TimerView, lemma_initial_in_cycle};

verus! {

/// Seconds in one minute.
pub const SECONDS_PER_MINUTE: u64 = 60;

/// The work length that settings start from, in minutes.
pub const DEFAULT_WORK_MINUTES: u64 = 25;

/// The break length that settings start from, in minutes.
pub const DEFAULT_BREAK_MINUTES: u64 = 5;

/// The long break length that settings start from, in minutes.
pub const DEFAULT_LONG_BREAK_MINUTES: u64 = 15;

/// The number of work sessions before a long break that settings start from.
pub const DEFAULT_SESSIONS: u32 = 4;

/// What follows a phase that ran out: wait for a key, start the next phase, or quit.
#[derive(Debug, Clone, Copy, PartialEq, Eq, Structural)]
pub enum OnEnd {
    Ask,
    Start,
    Quit,
}

impl Default for OnEnd {
    /// Starting the next phase, which settings written before the choice existed keep.
    fn default() -> (e: OnEnd)
        ensures
            e == OnEnd::Start,
    {
        OnEnd::Start
    }
}

/// The saved settings: phase lengths in minutes, sessions before a long break, and
/// what follows a phase that ran out.
#[derive(Debug, Clone, Copy, PartialEq, Eq, Structural)]
pub struct Config {
    pub work_minutes: u64,
    pub break_minutes: u64,
    pub long_break_minutes: u64,
    pub sessions: u32,
    pub on_end: OnEnd,
}

/// The three phase lengths that settings hold.
#[derive(Debug, Clone, Copy, PartialEq, Eq, Structural)]
pub enum DurationField {
    Work,
    Break,
    LongBreak,
}

/// Why settings cannot drive a timer.
#[derive(Debug, Clone, Copy, PartialEq, Eq, Structural)]
pub enum ConfigError {
    /// A phase of no minutes.
    ZeroMinutes(DurationField),
    /// A phase whose length in seconds exceeds `u64::MAX`.
    TooLarge(DurationField),
    /// No work sessions before a long break.
    ZeroSessions,
}

/// The problem with a phase length of `minutes`, if any.
pub open spec fn minutes_problem(field: DurationField, minutes: u64) -> Option<ConfigError> {
    if minutes == 0 {
        Some(ConfigError::ZeroMinutes(field))
    } else if minutes * SECONDS_PER_MINUTE > u64::MAX {
        Some(ConfigError::TooLarge(field))
    } else {
        None
    }
}

impl DurationField {
    /// The name of the phase in messages.
    pub open spec fn name_text(self) -> Seq<char> {
        match self {
            DurationField::Work => "work"@,
            DurationField::Break => "break"@,
            DurationField::LongBreak => "long break"@,
        }
    }
}

impl ConfigError {
    /// The message that reports the problem.
    pub open spec fn message_text(self) -> Seq<char> {
        match self {
            ConfigError::ZeroMinutes(field) => field.name_text()
                + " duration must be at least 1 minute"@,
            ConfigError::TooLarge(field) => field.name_text() + " duration is too large"@,
            ConfigError::ZeroSessions => "sessions must be at least 1"@,
        }
    }

    /// The message that reports the problem.
    pub fn message(&self) -> (s: String)
        ensures
            s@ == self.message_text(),
    {
        let (name, rest) = match self {
            ConfigError::ZeroMinutes(field) => (
                field_name(field),
                " duration must be at least 1 minute",
            ),
            ConfigError::TooLarge(field) => (field_name(field), " duration is too large"),
            ConfigError::ZeroSessions => {
                return String::from_str("sessions must be at least 1");
            },
        };
        let mut s = String::from_str(name);
        s.append(rest);
        s
    }
}

fn field_name(field: &DurationField) -> (s: &'static str)
    ensures
        s@ == field.name_text(),
{
    match field {
        DurationField::Work => "work",
        DurationField::Break => "break",
        DurationField::LongBreak => "long break",
    }
}

impl Config {
    /// The settings used where none were saved: 25, 5 and 15 minutes, four sessions,
    /// and starting the next phase on its own.
    pub open spec fn defaults() -> Config {
        Config {
            work_minutes: DEFAULT_WORK_MINUTES,
            break_minutes: DEFAULT_BREAK_MINUTES,
            long_break_minutes: DEFAULT_LONG_BREAK_MINUTES,
            sessions: DEFAULT_SESSIONS,
            on_end: OnEnd::Start,
        }
    }

    /// The first problem of the settings, checking work, break and long break (each
    /// for no minutes, then for too many) and then the sessions.
    pub open spec fn first_problem(self) -> Option<ConfigError> {
        if minutes_problem(DurationField::Work, self.work_minutes) is Some {
            minutes_problem(DurationField::Work, self.work_minutes)
        } else if minutes_problem(DurationField::Break, self.break_minutes) is Some {
            minutes_problem(DurationField::Break, self.break_minutes)
        } else if minutes_problem(DurationField::LongBreak, self.long_break_minutes) is Some {
            minutes_problem(DurationField::LongBreak, self.long_break_minutes)
        } else if self.sessions == 0 {
            Some(ConfigError::ZeroSessions)
        } else {
            None
        }
    }

    /// The timer settings: the phase lengths in seconds.
    pub open spec fn timer_spec(self) -> TimerConfig {
        TimerConfig {
            work_secs: (self.work_minutes * SECONDS_PER_MINUTE) as u64,
            break_secs: (self.break_minutes * SECONDS_PER_MINUTE) as u64,
            long_break_secs: (self.long_break_minutes * SECONDS_PER_MINUTE) as u64,
            sessions: self.sessions,
            on_end: self.on_end,
        }
    }

    /// Checks the settings.
    pub fn validate(&self) -> (r: Result<(), ConfigError>)
        ensures
            r == match self.first_problem() {
                Some(e) => Err(e),
                None => Ok(()),
            },
    {
        match check_minutes(DurationField::Work, self.work_minutes) {
            Some(e) => return Err(e),
            None => {},
        }
        match check_minutes(DurationField::Break, self.break_minutes) {
            Some(e) => return Err(e),
            None => {},
        }
        match check_minutes(DurationField::LongBreak, self.long_break_minutes) {
            Some(e) => return Err(e),
            None => {},
        }
        if self.sessions == 0 {
            return Err(ConfigError::ZeroSessions);
        }
        Ok(())
    }

    /// The timer settings, where the settings pass `validate`.
    pub fn timer_config(&self) -> (r: Result<TimerConfig, ConfigError>)
        ensures
            r == match self.first_problem() {
                Some(e) => Err(e),
                None => Ok(self.timer_spec()),
            },
    {
        match self.validate() {
            Err(e) => Err(e),
            Ok(()) => Ok(
                TimerConfig {
                    work_secs: self.work_minutes * SECONDS_PER_MINUTE,
                    break_secs: self.break_minutes * SECONDS_PER_MINUTE,
                    long_break_secs: self.long_break_minutes * SECONDS_PER_MINUTE,
                    sessions: self.sessions,
                    on_end: self.on_end,
                },
            ),
        }
    }

    /// These settings with each value that is given put in place of the saved one.
    pub fn overridden(
        &self,
        work: Option<u64>,
        break_: Option<u64>,
        long_break: Option<u64>,
        sessions: Option<u32>,
        on_end: Option<OnEnd>,
    ) -> (c: Config)
        ensures
            c.work_minutes == match work {
                Some(v) => v,
                None => self.work_minutes,
            },
            c.break_minutes == match break_ {
                Some(v) => v,
                None => self.break_minutes,
            },
            c.long_break_minutes == match long_break {
                Some(v) => v,
                None => self.long_break_minutes,
            },
            c.sessions == match sessions {
                Some(v) => v,
                None => self.sessions,
            },
            c.on_end == match on_end {
                Some(v) => v,
                None => self.on_end,
            },
    {
        Config {
            work_minutes: match work {
                Some(v) => v,
                None => self.work_minutes,
            },
            break_minutes: match break_ {
                Some(v) => v,
                None => self.break_minutes,
            },
            long_break_minutes: match long_break {
                Some(v) => v,
                None => self.long_break_minutes,
            },
            sessions: match sessions {
                Some(v) => v,
                None => self.sessions,
            },
            on_end: match on_end {
                Some(v) => v,
                None => self.on_end,
            },
        }
    }
}

impl Default for Config {
    fn default() -> (c: Config)
        ensures
            c == Config::defaults(),
    {
        Config {
            work_minutes: DEFAULT_WORK_MINUTES,
            break_minutes: DEFAULT_BREAK_MINUTES,
            long_break_minutes: DEFAULT_LONG_BREAK_MINUTES,
            sessions: DEFAULT_SESSIONS,
            on_end: OnEnd::Start,
        }
    }
}

fn check_minutes(field: DurationField, minutes: u64) -> (p: Option<ConfigError>)
    ensures
        p == minutes_problem(field, minutes),
{
    if minutes == 0 {
        Some(ConfigError::ZeroMinutes(field))
    } else if minutes.checked_mul(SECONDS_PER_MINUTE).is_none() {
        Some(ConfigError::TooLarge(field))
    } else {
        None
    }
}

/// The default settings pass `validate`.
pub proof fn lemma_defaults_are_valid()
    ensures
        Config::defaults().first_problem() is None,
        Config::defaults().timer_spec().work_secs == 1500,
{
}

/// Settings that pass `validate` start a timer in its cycle, and every phase length
/// in seconds is the length in minutes times sixty.
pub proof fn lemma_valid_settings_start_in_cycle(c: Config)
    requires
        c.first_problem() is None,
    ensures
        TimerView::initial(c.timer_spec()).in_cycle(),
        c.timer_spec().work_secs == c.work_minutes * 60,
        c.timer_spec().break_secs == c.break_minutes * 60,
        c.timer_spec().long_break_secs == c.long_break_minutes * 60,
{
    lemma_initial_in_cycle(c.timer_spec());
}

} // verus!
