//! Calendar dates, held as chrono's day numbers (0001-01-01 is day 1).

use chrono::Datelike;
use vstd::prelude::*;

verus! {

/// Day number of the earliest date chrono can hold (year -262143, January 1).
pub const MIN_DAY: i32 = -95746129;

/// Day number of the latest date chrono can hold (year 262142, December 31).
pub const MAX_DAY: i32 = 95745399;

/// Whether `n` is the day number of a date that chrono can hold.
pub open spec fn in_day_range(n: int) -> bool {
    MIN_DAY <= n <= MAX_DAY
}

/// The day number of the date that `text` spells in `YYYY-MM-DD` form, as chrono reads it.
pub uninterp spec fn iso_date_day(text: Seq<char>) -> Option<int>;

/// The `YYYY-MM-DD` spelling of the date with day number `day`, as chrono writes it.
pub uninterp spec fn iso_text(day: int) -> Seq<char>;

/// Relies on chrono's `NaiveDate::parse_from_str` with the `%Y-%m-%d` format, and on
/// `Datelike::num_days_from_ce` to number the date read; every date chrono holds
/// lies between `MIN_DAY` and `MAX_DAY`.
#[verifier::external_body]
fn chrono_parse_iso(text: &str) -> (r: Option<i32>)
    ensures
        r matches Some(n) ==> iso_date_day(text@) == Some(n as int) && in_day_range(n as int),
        r is None ==> iso_date_day(text@) is None,
{
    match chrono::NaiveDate::parse_from_str(text, "%Y-%m-%d") {
        Ok(d) => Some(d.num_days_from_ce()),
        Err(_) => None,
    }
}

/// Relies on chrono's `NaiveDate::from_num_days_from_ce_opt`, which accepts every day
/// number in range, and on `NaiveDate::format` with the `%Y-%m-%d` format.
#[verifier::external_body]
fn chrono_format_iso(day: i32) -> (r: String)
    requires
        in_day_range(day as int),
    ensures
        r@ == iso_text(day as int),
{
    match chrono::NaiveDate::from_num_days_from_ce_opt(day) {
        Some(d) => d.format("%Y-%m-%d").to_string(),
        None => String::new(),
    }
}

/// Relies on chrono's `Local::now` for the local date of the moment of the call;
/// nothing is promised of it but that chrono can hold it.
#[verifier::external_body]
fn chrono_local_today() -> (r: i32)
    ensures
        in_day_range(r as int),
{
    chrono::Local::now().date_naive().num_days_from_ce()
}

/// A calendar date without a time of day.
#[derive(Clone, Copy, Debug, PartialEq, Eq, Hash, Structural)]
pub struct CalendarDate {
    day: i32,
}

impl View for CalendarDate {
    type V = int;

    /// The day number of the date.
    closed spec fn view(&self) -> int {
        self.day as int
    }
}

impl CalendarDate {
    #[verifier::type_invariant]
    spec fn in_range(self) -> bool {
        in_day_range(self.day as int)
    }

    /// The date with day number `n`, if chrono can hold it.
    pub fn from_day_number(n: i64) -> (r: Option<CalendarDate>)
        ensures
            r is Some <==> in_day_range(n as int),
            r matches Some(d) ==> d@ == n,
    {
        if MIN_DAY as i64 <= n && n <= MAX_DAY as i64 {
            Some(CalendarDate { day: n as i32 })
        } else {
            None
        }
    }

    /// The day number of the date.
    pub fn day_number(&self) -> (r: i32)
        ensures
            r == self@,
            in_day_range(r as int),
    {
        proof {
            use_type_invariant(self);
        }
        self.day
    }

    /// Reads a date written `YYYY-MM-DD`; `None` where the text names no date.
    pub fn parse_iso(text: &str) -> (r: Option<CalendarDate>)
        ensures
            match iso_date_day(text@) {
                Some(n) => r matches Some(d) && d@ == n,
                None => r is None,
            },
    {
        match chrono_parse_iso(text) {
            Some(n) => Some(CalendarDate { day: n }),
            None => None,
        }
    }

    /// The date written `YYYY-MM-DD`.
    pub fn to_iso_string(&self) -> (r: String)
        ensures
            r@ == iso_text(self@),
    {
        proof {
            use_type_invariant(self);
        }
        chrono_format_iso(self.day)
    }

    /// The date `n` days later (earlier for negative `n`), if chrono can hold it.
    pub fn add_days(&self, n: i64) -> (r: Option<CalendarDate>)
        ensures
            r is Some <==> in_day_range(self@ + n),
            r matches Some(d) ==> d@ == self@ + n,
    {
        proof {
            use_type_invariant(self);
        }
        if n < MIN_DAY as i64 - MAX_DAY as i64 || n > MAX_DAY as i64 - MIN_DAY as i64 {
            None
        } else {
            CalendarDate::from_day_number(self.day as i64 + n)
        }
    }

    /// The number of days from `self` to `later`: negative where `later` comes first.
    pub fn days_until(&self, later: &CalendarDate) -> (r: i64)
        ensures
            r == later@ - self@,
    {
        proof {
            use_type_invariant(self);
            use_type_invariant(later);
        }
        later.day as i64 - self.day as i64
    }
}

/// Today's date on this machine's local clock.
pub fn today() -> (r: CalendarDate) {
    CalendarDate { day: chrono_local_today() }
}

/// The date `days` days after the date written `production` (`YYYY-MM-DD`), written the
/// same way; `None` where `production` names no date or the result lies out of range.
pub fn expiry_text_after(production: &str, days: i64) -> (r: Option<String>)
    ensures
        match iso_date_day(production@) {
            Some(p) => if in_day_range(p + days) {
                r matches Some(t) && t@ == iso_text(p + days)
            } else {
                r is None
            },
            None => r is None,
        },
{
    match CalendarDate::parse_iso(production) {
        Some(p) => match p.add_days(days) {
            Some(e) => Some(e.to_iso_string()),
            None => None,
        },
        None => None,
    }
}

} // verus!
