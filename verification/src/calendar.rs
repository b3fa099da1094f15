use chrono::{Datelike, Days, NaiveDate};
use vstd::prelude::*;

use crate::text::{decimal, two_digits};

verus! {

/// A day of the proleptic Gregorian calendar, by its year, month (1 to 12) and day of
/// the month (1 to 31).
#[derive(Debug, Clone, Copy, PartialEq, Eq, Structural)]
pub struct CalendarDate {
    pub year: i32,
    pub month: u32,
    pub day: u32,
}

/// Why a list of past days could not be given: a day lies before the first date the
/// calendar holds.
#[derive(Debug, Clone, Copy, PartialEq, Eq, Structural)]
pub struct HistoryRangeError;

/// What a refused history range is answered with.
pub const HISTORY_RANGE_MESSAGE: &'static str = "history range is too large";

/// The date `days` calendar days before `date`, as chrono's `NaiveDate::checked_sub_days`
/// computes it; none where `date` is no date of chrono's calendar or the result falls
/// outside it. It is a function of its arguments alone.
pub uninterp spec fn calendar_days_before(date: CalendarDate, days: u32) -> Option<CalendarDate>;

/// The text that chrono's `format("%Y-%m-%d")` gives for `date`; none where `date` is
/// no date of chrono's calendar. It is a function of the date alone.
pub uninterp spec fn calendar_date_text(date: CalendarDate) -> Option<Seq<char>>;

/// Makes the date with `NaiveDate::from_ymd_opt`, steps back with
/// `NaiveDate::checked_sub_days(Days::new(days))` and reads the year, month and day of
/// what it gives (`Datelike`). The result is named by `calendar_days_before`; the
/// calendar arithmetic itself is not restated here.
#[verifier::external_body]
fn days_before(date: CalendarDate, days: u32) -> (r: Option<CalendarDate>)
    ensures
        r == calendar_days_before(date, days),
{
    match NaiveDate::from_ymd_opt(date.year, date.month, date.day) {
        Some(start) => match start.checked_sub_days(Days::new(u64::from(days))) {
            Some(d) => Some(CalendarDate { year: d.year(), month: d.month(), day: d.day() }),
            None => None,
        },
        None => None,
    }
}

/// The decimal notation of `n` padded with leading zeros to four digits.
pub open spec fn four_digits(n: nat) -> Seq<char> {
    if n < 10 {
        seq!['0', '0', '0'] + decimal(n)
    } else if n < 100 {
        seq!['0', '0'] + decimal(n)
    } else if n < 1000 {
        seq!['0'] + decimal(n)
    } else {
        decimal(n)
    }
}

/// A date of a year from 0 to 9999 as `%Y-%m-%d` writes it: the year in four digits,
/// the month and the day in two, joined by hyphens.
pub open spec fn iso_date_text(date: CalendarDate) -> Seq<char> {
    four_digits(date.year as nat) + seq!['-'] + two_digits(date.month as nat) + seq!['-']
        + two_digits(date.day as nat)
}

/// Makes the date with `NaiveDate::from_ymd_opt` and formats it with
/// `NaiveDate::format("%Y-%m-%d")`. The text is named by `calendar_date_text`. For a
/// year from 0 to 9999 chrono writes the year zero-padded to four digits and the
/// month and day zero-padded to two (`write_year`, `write_two` in its formatting
/// code), which is stated; years outside that range, which it writes with a sign,
/// are left to the name.
#[verifier::external_body]
fn date_text(date: CalendarDate) -> (r: Option<String>)
    ensures
        r matches Some(s) ==> calendar_date_text(date) == Some(s@),
        r is None ==> calendar_date_text(date) is None,
        r matches Some(s) ==> (0 <= date.year <= 9999 ==> s@ == iso_date_text(date)),
{
    match NaiveDate::from_ymd_opt(date.year, date.month, date.day) {
        Some(d) => Some(d.format("%Y-%m-%d").to_string()),
        None => None,
    }
}

/// The date `days_ago` calendar days before `today`.
pub fn history_date(today: CalendarDate, days_ago: u32) -> (r: Result<
    CalendarDate,
    HistoryRangeError,
>)
    ensures
        r matches Ok(d) ==> calendar_days_before(today, days_ago) == Some(d),
        r is Err ==> calendar_days_before(today, days_ago) is None,
{
    match days_before(today, days_ago) {
        Some(d) => Ok(d),
        None => Err(HistoryRangeError),
    }
}

/// The key under which the statistics of the day `days_ago` days before `today` are
/// kept: that date as year-month-day text.
pub open spec fn history_key(today: CalendarDate, days_ago: u32) -> Option<Seq<char>> {
    match calendar_days_before(today, days_ago) {
        Some(d) => calendar_date_text(d),
        None => None,
    }
}

/// The dates of the `days` days that end with `today`, newest first, each as
/// year-month-day text: today, the day before, and so on. Refused where one of them
/// falls outside the calendar.
pub fn history_dates(today: CalendarDate, days: u32) -> (r: Result<Vec<String>, HistoryRangeError>)
    ensures
        r is Ok <==> forall|i: u32| i < days ==> #[trigger] history_key(today, i) is Some,
        r matches Ok(dates) ==> {
            &&& dates@.len() == days
            &&& forall|i: int|
                0 <= i < days ==> history_key(today, i as u32) == Some(#[trigger] dates@[i]@)
            &&& forall|i: int|
                0 <= i < days ==> (calendar_days_before(today, i as u32) matches Some(d) ==> (0 <= d.year
                    <= 9999 ==> #[trigger] dates@[i]@ == iso_date_text(d)))
        },
{
    let mut dates: Vec<String> = Vec::new();
    let mut i: u32 = 0;
    while i < days
        invariant
            i <= days,
            dates@.len() == i,
            forall|j: int| 0 <= j < i ==> history_key(today, j as u32) == Some(#[trigger] dates@[j]@),
            forall|j: int|
                0 <= j < i ==> (calendar_days_before(today, j as u32) matches Some(d) ==> (0 <= d.year
                    <= 9999 ==> #[trigger] dates@[j]@ == iso_date_text(d))),
        decreases days - i,
    {
        let text = match history_date(today, i) {
            Ok(d) => date_text(d),
            Err(_) => None,
        };
        match text {
            Some(s) => {
                dates.push(s);
            },
            None => {
                assert(history_key(today, i) is None);
                return Err(HistoryRangeError);
            },
        }
        i = i + 1;
    }
    proof {
        assert forall|k: u32| k < days implies #[trigger] history_key(today, k) is Some by {
            assert(history_key(today, k as int as u32) == Some(dates@[k as int]@));
        }
    }
    Ok(dates)
}

impl HistoryRangeError {
    /// The message the refusal is reported with.
    pub fn message(&self) -> (s: String)
        ensures
            s@ == HISTORY_RANGE_MESSAGE@,
    {
        String::from_str(HISTORY_RANGE_MESSAGE)
    }
}

} // verus!
