//! Calendar dates and their day/month/year rendering, done by `chrono`.

use vstd::prelude::*;

verus! {

/// A day of the proleptic Gregorian calendar.
pub struct CivilDate {
    pub year: i32,
    pub month: u32,
    pub day: u32,
}

pub open spec fn is_leap_year(y: int) -> bool {
    (y % 4 == 0 && y % 100 != 0) || y % 400 == 0
}

pub open spec fn days_in_month(y: int, m: int) -> int {
    if m == 2 {
        if is_leap_year(y) { 29 } else { 28 }
    } else if m == 4 || m == 6 || m == 9 || m == 11 {
        30
    } else {
        31
    }
}

/// A date that `chrono` can represent: a real day within its year range.
pub open spec fn is_calendar_date(y: int, m: int, d: int) -> bool {
    &&& -262143 <= y <= 262142
    &&& 1 <= m <= 12
    &&& 1 <= d <= days_in_month(y, m)
}

/// The decimal digit for `n` in `0..10`.
pub open spec fn digit(n: int) -> char {
    (n + 48) as char
}

/// Decimal digits of a natural number.
pub open spec fn nat_text(n: nat) -> Seq<char>
    decreases n,
{
    if n < 10 {
        seq![digit(n as int)]
    } else {
        nat_text((n / 10) as nat).push(digit(n as int % 10))
    }
}

/// Two digits, for numbers below 100.
pub open spec fn two_digits(n: int) -> Seq<char> {
    seq![digit(n / 10), digit(n % 10)]
}

/// Four digits, for numbers below 10000.
pub open spec fn four_digits(n: int) -> Seq<char> {
    seq![digit(n / 1000), digit((n / 100) % 10), digit((n / 10) % 10), digit(n % 10)]
}

/// The year as `%Y` writes it: four digits for years 0 to 9999; otherwise
/// a sign, then the magnitude padded with zeros to at least four digits.
pub open spec fn year_text(y: int) -> Seq<char> {
    if 0 <= y <= 9999 {
        four_digits(y)
    } else if y > 9999 {
        seq!['+'] + nat_text(y as nat)
    } else if -y <= 9999 {
        seq!['-'] + four_digits(-y)
    } else {
        seq!['-'] + nat_text((-y) as nat)
    }
}

/// `dd/mm/` followed by the year, day and month zero-padded to two digits.
pub open spec fn dmy_text(y: int, m: int, d: int) -> Seq<char> {
    two_digits(d) + seq!['/'] + two_digits(m) + seq!['/'] + year_text(y)
}

/// `chrono::NaiveDate::from_ymd_opt` followed by formatting with
/// `"%d/%m/%Y"`: a text exactly for the dates that `chrono` accepts, namely
/// `dd/mm/` and the year as `year_text` gives it.
#[verifier::external_body]
fn chrono_day_month_year(year: i32, month: u32, day: u32) -> (res: Option<String>)
    ensures
        res is Some <==> is_calendar_date(year as int, month as int, day as int),
        res is Some ==> res->0@ == dmy_text(year as int, month as int, day as int),
{
    match chrono::NaiveDate::from_ymd_opt(year, month, day) {
        Some(date) => Some(date.format("%d/%m/%Y").to_string()),
        None => None,
    }
}

/// Renders a date as `dd/mm/` and its year; nothing for a day that does
/// not exist.
pub fn format_date(date: &CivilDate) -> (res: Option<String>)
    ensures
        res is Some <==> is_calendar_date(date.year as int, date.month as int, date.day as int),
        res is Some ==> res->0@ == dmy_text(
            date.year as int,
            date.month as int,
            date.day as int,
        ),
{
    chrono_day_month_year(date.year, date.month, date.day)
}

} // verus!
