use vstd::prelude::*;

use crate::config::{OnEnd, SECONDS_PER_MINUTE};

verus! {

/// The days that the history shows unless told otherwise.
pub const DEFAULT_HISTORY_DAYS: u32 = 7;

/// The most days the history shows: about ten years.
pub const MAX_HISTORY_DAYS: u32 = 3660;

/// Whether `c` is a decimal digit.
pub open spec fn is_digit(c: char) -> bool {
    '0' <= c && c <= '9'
}

/// The value of the decimal digit `c`.
pub open spec fn digit_value(c: char) -> nat {
    (c as int - '0' as int) as nat
}

/// The number that a string of decimal digits denotes.
pub open spec fn digits_value(digits: Seq<char>) -> nat
    decreases digits.len(),
{
    if digits.len() == 0 {
        0
    } else {
        digits_value(digits.drop_last()) * 10 + digit_value(digits.last())
    }
}

/// The digits of an unsigned number: what follows an optional leading `+`.
pub open spec fn unsigned_digits(text: Seq<char>) -> Seq<char> {
    if text.len() > 0 && text[0] == '+' {
        text.drop_first()
    } else {
        text
    }
}

/// The number that `text` denotes as std's `from_str` reads an unsigned integer: an
/// optional `+` followed by at least one decimal digit and nothing else. The bound
/// of the integer type is not checked here.
pub open spec fn unsigned_value(text: Seq<char>) -> Option<nat> {
    let digits = unsigned_digits(text);
    if digits.len() > 0 && forall|i: int| 0 <= i < digits.len() ==> is_digit(#[trigger] digits[i]) {
        Some(digits_value(digits))
    } else {
        None
    }
}

/// `text` as a number no greater than `bound`, where it denotes one.
pub open spec fn bounded_value(text: Seq<char>, bound: nat) -> Option<nat> {
    match unsigned_value(text) {
        Some(v) => if v <= bound {
            Some(v)
        } else {
            None
        },
        None => None,
    }
}

proof fn lemma_digits_value_grows(digits: Seq<char>, k: int)
    requires
        0 <= k <= digits.len(),
    ensures
        digits_value(digits.take(k)) <= digits_value(digits),
    decreases digits.len(),
{
    if k < digits.len() {
        lemma_digits_value_grows(digits.drop_last(), k);
        assert(digits.drop_last().take(k) == digits.take(k));
    } else {
        assert(digits.take(k) == digits);
    }
}

/// Reads the characters `start..end` of `text` as an unsigned number of at most
/// `u64::MAX`.
fn parse_unsigned(text: &str, start: usize, end: usize) -> (r: Option<u64>)
    requires
        start <= end <= text@.len(),
    ensures
        r == match bounded_value(text@.subrange(start as int, end as int), u64::MAX as nat) {
            Some(v) => Some(v as u64),
            None => None::<u64>,
        },
{
    let ghost whole = text@.subrange(start as int, end as int);
    let mut i = start;
    if i < end && text.get_char(i) == '+' {
        i = i + 1;
    }
    let ghost digits = text@.subrange(i as int, end as int);
    assert(digits == unsigned_digits(whole));
    if i == end {
        return None;
    }
    let first = i;
    let mut value: u64 = 0;
    let mut overflow = false;
    while i < end
        invariant
            first <= i <= end <= text@.len(),
            digits == text@.subrange(first as int, end as int),
            digits == unsigned_digits(whole),
            whole == text@.subrange(start as int, end as int),
            forall|j: int| 0 <= j < i - first ==> is_digit(#[trigger] digits[j]),
            !overflow ==> value == digits_value(digits.take(i - first)),
            overflow ==> digits_value(digits.take(i - first)) > u64::MAX,
        decreases end - i,
    {
        let c = text.get_char(i);
        assert(c == digits[i - first]);
        if !('0' <= c && c <= '9') {
            assert(!is_digit(digits[i - first]));
            return None;
        }
        let ghost before = digits.take(i - first);
        let ghost after = digits.take(i - first + 1);
        assert(after.drop_last() == before);
        let d = (c as u32 - 48) as u64;
        if !overflow {
            match value.checked_mul(10) {
                Some(tens) => match tens.checked_add(d) {
                    Some(next) => {
                        value = next;
                    },
                    None => {
                        overflow = true;
                    },
                },
                None => {
                    overflow = true;
                },
            }
        }
        i = i + 1;
    }
    assert(digits.take(digits.len() as int) == digits);
    if overflow {
        proof {
            lemma_digits_value_grows(digits, digits.len() as int);
        }
        None
    } else {
        Some(value)
    }
}

/// Told when a duration is not whole minutes or hours.
pub const DURATION_FORMAT_ERROR: &'static str = "use whole minutes or hours, such as 30, 30m, or 1h";

/// Told when a value must be a positive whole number and is not.
pub const POSITIVE_WHOLE_NUMBER_ERROR: &'static str = "must be a positive whole number";

/// Told when a value is zero.
pub const MINIMUM_VALUE_ERROR: &'static str = "must be at least 1";

/// Told when a duration does not fit.
pub const VALUE_TOO_LARGE_ERROR: &'static str = "is too large";

/// Told when more history days are asked for than `MAX_HISTORY_DAYS`.
pub const TOO_MANY_DAYS_ERROR: &'static str = "must be at most 3660";

/// Where the number of a duration ends, and whether it counts hours: a trailing `h`
/// means hours, a trailing `m` or none means minutes.
pub open spec fn duration_unit(text: Seq<char>) -> (int, bool) {
    if text.len() > 0 && text.last() == 'h' {
        (text.len() - 1, true)
    } else if text.len() > 0 && text.last() == 'm' {
        (text.len() - 1, false)
    } else {
        (text.len() as int, false)
    }
}

/// A duration in whole minutes (`30`, `30m`) or hours (`1h`): between one minute and
/// the most minutes whose seconds fit `u64`, or the message that says why not.
pub open spec fn minutes_value(text: Seq<char>) -> Result<nat, Seq<char>> {
    let (end, hours) = duration_unit(text);
    match bounded_value(text.subrange(0, end), u64::MAX as nat) {
        None => Err(DURATION_FORMAT_ERROR@),
        Some(n) => {
            let minutes = if hours {
                n * 60
            } else {
                n
            };
            if minutes > u64::MAX {
                Err(VALUE_TOO_LARGE_ERROR@)
            } else if minutes == 0 {
                Err(MINIMUM_VALUE_ERROR@)
            } else if minutes * SECONDS_PER_MINUTE > u64::MAX {
                Err(VALUE_TOO_LARGE_ERROR@)
            } else {
                Ok(minutes)
            }
        },
    }
}

/// A whole number from 1 to `u32::MAX`, or the message that says why not.
pub open spec fn positive_value(text: Seq<char>) -> Result<nat, Seq<char>> {
    match bounded_value(text, u32::MAX as nat) {
        None => Err(POSITIVE_WHOLE_NUMBER_ERROR@),
        Some(n) => if n == 0 {
            Err(MINIMUM_VALUE_ERROR@)
        } else {
            Ok(n)
        },
    }
}

/// A number of history days from 1 to `MAX_HISTORY_DAYS`, or the message that says
/// why not.
pub open spec fn history_days_value(text: Seq<char>) -> Result<nat, Seq<char>> {
    match positive_value(text) {
        Err(e) => Err(e),
        Ok(n) => if n > MAX_HISTORY_DAYS {
            Err(TOO_MANY_DAYS_ERROR@)
        } else {
            Ok(n)
        },
    }
}

/// The view of a parse result: the number, or the message.
pub open spec fn parsed_view<T>(r: Result<T, String>) -> Result<T, Seq<char>> {
    match r {
        Ok(v) => Ok(v),
        Err(e) => Err(e@),
    }
}

/// Reads a duration in whole minutes or hours: see `minutes_value`.
pub fn parse_minutes(value: &str) -> (r: Result<u64, String>)
    ensures
        match (r, minutes_value(value@)) {
            (Ok(v), Ok(n)) => v == n,
            (Err(e), Err(m)) => e@ == m,
            _ => false,
        },
{
    let len = value.unicode_len();
    let mut end = len;
    let mut multiplier: u64 = 1;
    if len > 0 {
        let last = value.get_char(len - 1);
        if last == 'h' {
            end = len - 1;
            multiplier = 60;
        } else if last == 'm' {
            end = len - 1;
        }
    }
    let number = match parse_unsigned(value, 0, end) {
        Some(n) => n,
        None => return Err(String::from_str(DURATION_FORMAT_ERROR)),
    };
    let minutes = match number.checked_mul(multiplier) {
        Some(m) => m,
        None => return Err(String::from_str(VALUE_TOO_LARGE_ERROR)),
    };
    if minutes == 0 {
        return Err(String::from_str(MINIMUM_VALUE_ERROR));
    }
    if minutes.checked_mul(SECONDS_PER_MINUTE).is_none() {
        return Err(String::from_str(VALUE_TOO_LARGE_ERROR));
    }
    Ok(minutes)
}

/// Reads a whole number from 1 to `u32::MAX`: see `positive_value`.
pub fn parse_positive_u32(value: &str) -> (r: Result<u32, String>)
    ensures
        match (r, positive_value(value@)) {
            (Ok(v), Ok(n)) => v == n,
            (Err(e), Err(m)) => e@ == m,
            _ => false,
        },
{
    let len = value.unicode_len();
    assert(value@.subrange(0, len as int) == value@);
    let number = match parse_unsigned(value, 0, len) {
        Some(n) => n,
        None => return Err(String::from_str(POSITIVE_WHOLE_NUMBER_ERROR)),
    };
    if number > 4294967295u64 {
        return Err(String::from_str(POSITIVE_WHOLE_NUMBER_ERROR));
    }
    if number == 0 {
        return Err(String::from_str(MINIMUM_VALUE_ERROR));
    }
    Ok(number as u32)
}

/// Reads a number of history days: see `history_days_value`.
pub fn parse_history_days(value: &str) -> (r: Result<u32, String>)
    ensures
        match (r, history_days_value(value@)) {
            (Ok(v), Ok(n)) => v == n,
            (Err(e), Err(m)) => e@ == m,
            _ => false,
        },
{
    let days = match parse_positive_u32(value) {
        Ok(d) => d,
        Err(e) => return Err(e),
    };
    if days > MAX_HISTORY_DAYS {
        return Err(String::from_str(TOO_MANY_DAYS_ERROR));
    }
    Ok(days)
}

/// The values of a timer run as given on the command line: work and break lengths
/// given by position, the one-line display, and the overrides of the saved settings.
#[derive(Debug, Clone, Copy, PartialEq, Eq)]
pub struct StartArgs {
    pub work_duration: Option<u64>,
    pub break_duration: Option<u64>,
    pub minimal: bool,
    pub work: Option<u64>,
    pub break_: Option<u64>,
    pub long_break: Option<u64>,
    pub sessions: Option<u32>,
    pub on_end: Option<OnEnd>,
}

impl StartArgs {
    /// No values given.
    pub open spec fn nothing() -> StartArgs {
        StartArgs {
            work_duration: None,
            break_duration: None,
            minimal: false,
            work: None,
            break_: None,
            long_break: None,
            sessions: None,
            on_end: None,
        }
    }
}

impl Default for StartArgs {
    fn default() -> (a: StartArgs)
        ensures
            a == StartArgs::nothing(),
    {
        StartArgs {
            work_duration: None,
            break_duration: None,
            minimal: false,
            work: None,
            break_: None,
            long_break: None,
            sessions: None,
            on_end: None,
        }
    }
}

/// What the statistics command shows or does.
#[derive(Debug, Clone, Copy, PartialEq, Eq)]
pub enum StatsCommands {
    Today,
    History { days: u32 },
    Summary,
    Clear,
}

/// What a run of the program does: run the timer, show statistics, or show and
/// update the settings.
#[derive(Debug, Clone, Copy, PartialEq, Eq)]
pub enum Commands {
    Start(StartArgs),
    Stats { command: Option<StatsCommands> },
    Config {
        work: Option<u64>,
        break_: Option<u64>,
        long_break: Option<u64>,
        sessions: Option<u32>,
        on_end: Option<OnEnd>,
        reset: bool,
    },
}

/// The command line: timer values given without a command, and the command if any.
#[derive(Debug, Clone, Copy, PartialEq, Eq)]
pub struct Cli {
    pub start: StartArgs,
    pub command: Option<Commands>,
}

/// The first of two optional values that is given.
pub open spec fn first_given<T>(a: Option<T>, b: Option<T>) -> Option<T> {
    match a {
        Some(v) => Some(v),
        None => b,
    }
}

impl Cli {
    /// The command to run: the given one, or a timer run with the values given
    /// without one. For a timer run, a work or break length given by position counts
    /// where the flag was not given, and the positional values are then cleared.
    pub open spec fn command_spec(self) -> Commands {
        match (match self.command {
            Some(c) => c,
            None => Commands::Start(self.start),
        }) {
            Commands::Start(args) => Commands::Start(
                StartArgs {
                    work: first_given(args.work, args.work_duration),
                    break_: first_given(args.break_, args.break_duration),
                    work_duration: None,
                    break_duration: None,
                    ..args
                },
            ),
            other => other,
        }
    }

    /// The command to run: see `command_spec`.
    pub fn into_command(self) -> (c: Commands)
        ensures
            c == self.command_spec(),
            self.command matches Some(given) ==> (!(given is Start) ==> c == given),
    {
        let command = match self.command {
            Some(c) => c,
            None => Commands::Start(self.start),
        };
        match command {
            Commands::Start(args) => {
                let work = match args.work {
                    Some(v) => Some(v),
                    None => args.work_duration,
                };
                let break_ = match args.break_ {
                    Some(v) => Some(v),
                    None => args.break_duration,
                };
                Commands::Start(
                    StartArgs { work, break_, work_duration: None, break_duration: None, ..args },
                )
            },
            other => other,
        }
    }
}

/// A command other than a timer run is carried out exactly as given, whatever timer
/// values stand before it.
pub proof fn lemma_other_commands_pass_through(start: StartArgs, given: Commands)
    requires
        !(given is Start),
    ensures
        (Cli { start, command: Some(given) }).command_spec() == given,
{
}

} // verus!
