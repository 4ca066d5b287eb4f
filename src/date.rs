//! Calendar dates and timestamps held as plain numbers.
use vstd::prelude::*;
use crate::text::{decimal, padded};

verus! {

/// The earliest year a date can have.
pub open spec fn min_year() -> int {
    -262143
}

/// The latest year a date can have.
pub open spec fn max_year() -> int {
    262142
}

/// A leap year of the proleptic Gregorian calendar.
pub open spec fn is_leap_year(y: int) -> bool {
    y % 4 == 0 && (y % 100 != 0 || y % 400 == 0)
}

/// The number of days in month `m` of year `y`.
pub open spec fn days_in_month(y: int, m: int) -> int {
    if m == 2 {
        if is_leap_year(y) { 29 } else { 28 }
    } else if m == 4 || m == 6 || m == 9 || m == 11 {
        30
    } else {
        31
    }
}

/// The proleptic Gregorian calendar has day `d` of month `m` of year `y`,
/// within the supported years.
pub open spec fn valid_ymd(y: int, m: int, d: int) -> bool {
    min_year() <= y <= max_year() && 1 <= m <= 12 && 1 <= d <= days_in_month(y, m)
}

/// The year as ISO 8601 writes it: four digits for years 0 to 9999, else a
/// sign and at least four digits.
pub open spec fn year_text(y: int) -> Seq<char> {
    if 0 <= y <= 9999 {
        padded(y as nat, 4)
    } else if y < 0 {
        seq!['-'] + padded((-y) as nat, 4)
    } else {
        seq!['+'] + padded(y as nat, 4)
    }
}

/// The calendar date as `YYYY-MM-DD`.
pub open spec fn date_text(y: int, m: int, d: int) -> Seq<char> {
    year_text(y) + seq!['-'] + padded(m as nat, 2) + seq!['-'] + padded(d as nat, 2)
}

/// The date 2017-09-30 is written `2017-09-30`.
pub proof fn lemma_date_text_example()
    ensures
        date_text(2017, 9, 30) == "2017-09-30"@,
{
    reveal_with_fuel(decimal, 5);
    reveal_strlit("2017-09-30");
    assert(decimal(2017) =~= seq!['2', '0', '1', '7']);
    assert(padded(9, 2) =~= seq!['0', '9']);
    assert(padded(30, 2) =~= seq!['3', '0']);
    assert(date_text(2017, 9, 30) =~= "2017-09-30"@);
}

/// Relies on `chrono::NaiveDate::from_ymd_opt`, which gives a date exactly when
/// the calendar has it within chrono's years, and on `NaiveDate`'s `Display`,
/// which writes it as `%Y-%m-%d`.
#[verifier::external_body]
fn calendar_date_text(year: i32, month: u32, day: u32) -> (r: Option<String>)
    ensures
        r is Some <==> valid_ymd(year as int, month as int, day as int),
        r matches Some(t) ==> t@ == date_text(year as int, month as int, day as int),
{
    chrono::NaiveDate::from_ymd_opt(year, month, day).map(|d| d.to_string())
}

/// A day of the proleptic Gregorian calendar.
#[derive(Debug, Clone, Copy, PartialEq, Eq, Hash)]
pub struct Date {
    year: i32,
    month: u32,
    day: u32,
}

impl View for Date {
    type V = (int, int, int);

    /// Year, month (1 to 12) and day of the month (from 1).
    closed spec fn view(&self) -> (int, int, int) {
        (self.year as int, self.month as int, self.day as int)
    }
}

impl Date {
    #[verifier::type_invariant]
    spec fn exists_in_calendar(&self) -> bool {
        valid_ymd(self.year as int, self.month as int, self.day as int)
    }

    /// The date with the given year, month and day, if the calendar has it.
    pub fn from_ymd(year: i32, month: u32, day: u32) -> (r: Option<Date>)
        ensures
            r is Some <==> valid_ymd(year as int, month as int, day as int),
            r matches Some(d) ==> d@ == (year as int, month as int, day as int),
    {
        match calendar_date_text(year, month, day) {
            Some(_) => Some(Date { year, month, day }),
            None => None,
        }
    }

    pub fn year(&self) -> (r: i32)
        ensures
            r as int == self@.0,
    {
        self.year
    }

    pub fn month(&self) -> (r: u32)
        ensures
            r as int == self@.1,
    {
        self.month
    }

    pub fn day(&self) -> (r: u32)
        ensures
            r as int == self@.2,
    {
        self.day
    }

    /// The date as `YYYY-MM-DD`, the form query strings and JSON carry.
    pub fn to_text(&self) -> (r: String)
        ensures
            r@ == date_text(self@.0, self@.1, self@.2),
    {
        proof {
            use_type_invariant(self);
        }
        match calendar_date_text(self.year, self.month, self.day) {
            Some(t) => t,
            None => String::new(),
        }
    }
}

/// A point in time with the offset from UTC it was written with.
#[derive(Debug, Clone, Copy, PartialEq, Eq, Hash)]
pub struct Timestamp {
    pub date: Date,
    pub hour: u32,
    pub minute: u32,
    pub second: u32,
    pub nanosecond: u32,
    /// Seconds east of UTC.
    pub offset_seconds: i32,
}

} // verus!
