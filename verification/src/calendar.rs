//! Calendar dates and times of day carried by the clock frames, checked with
//! the `time` crate.
use crate::text::{
    decimal_text, decimal_value, lemma_padded_text_reads_back, padded2_text, padded4_text, push_decimal, push_padded2, push_padded4,
};
use vstd::prelude::*;

verus! {

/// The year that a year field of zero stands for.
pub const YEAR_OFFSET: i32 = 2000;

/// Whether `year` is a leap year of the proleptic Gregorian calendar.
pub open spec fn is_leap_year(year: int) -> bool {
    year % 4 == 0 && (year % 100 != 0 || year % 400 == 0)
}

/// The number of days of `month` (1 for January to 12 for December) in
/// `year`.
pub open spec fn days_in_month(year: int, month: int) -> int {
    if month == 2 {
        if is_leap_year(year) {
            29
        } else {
            28
        }
    } else if month == 4 || month == 6 || month == 9 || month == 11 {
        30
    } else {
        31
    }
}

/// Whether `month` numbers a month of the year.
pub open spec fn is_month(month: int) -> bool {
    1 <= month <= 12
}

/// Whether the day `day` of the month `month` of `year` exists, for a year
/// that a calendar date of the `time` crate can hold.
pub open spec fn is_calendar_date(year: int, month: int, day: int) -> bool {
    &&& -9999 <= year <= 9999
    &&& is_month(month)
    &&& 1 <= day <= days_in_month(year, month)
}

/// Whether `hour:minute` is a time of day.
pub open spec fn is_time_of_day(hour: int, minute: int) -> bool {
    0 <= hour < 24 && 0 <= minute < 60
}

/// The text of a year as the `time` crate writes it: a minus sign below
/// zero, then the size of the year on at least four digits.
#[verifier::opaque]
pub open spec fn year_text(year: int) -> Seq<char> {
    if year < 0 {
        "-"@ + padded4_text((-year) as nat)
    } else {
        padded4_text(year as nat)
    }
}

/// The text of a year reads back as the year: its digits alone, on at least
/// four, from zero on; a minus sign before the digits of its size below
/// zero.
pub proof fn lemma_year_text_reads_back(year: int)
    ensures
        year >= 0 ==> year_text(year).len() >= 4 && decimal_value(year_text(year)) == year,
        year < 0 ==> year_text(year).len() >= 5 && year_text(year)[0] == '-' && decimal_value(
            year_text(year).drop_first(),
        ) == -year,
{
    reveal(year_text);
    reveal_strlit("-");
    if year < 0 {
        lemma_padded_text_reads_back((-year) as nat);
        assert(year_text(year).drop_first() =~= padded4_text((-year) as nat));
    } else {
        lemma_padded_text_reads_back(year as nat);
    }
}

/// Appends the text of a year.
fn push_year(s: &mut String, year: i32)
    ensures
        final(s)@ == old(s)@ + year_text(year as int),
{
    proof {
        reveal(year_text);
    }
    let y = year as i64;
    if y < 0 {
        s.append("-");
        push_padded4(s, (-y) as u64);
        assert(s@ =~= old(s)@ + year_text(year as int));
    } else {
        push_padded4(s, y as u64);
    }
}

/// A calendar date and a time of day, to the minute.
#[derive(Debug, Clone, Copy, PartialEq, Eq)]
pub struct DateTime {
    pub year: i32,
    pub month: u8,
    pub day: u8,
    pub hour: u8,
    pub minute: u8,
}

impl DateTime {
    /// Whether `self` names an existing date and time of day.
    pub open spec fn is_valid(self) -> bool {
        is_calendar_date(self.year as int, self.month as int, self.day as int) && is_time_of_day(
            self.hour as int,
            self.minute as int,
        )
    }

    /// The text of `self` as the `time` crate writes a date and time: the
    /// year on at least four digits (with a minus sign before zero), the
    /// month and the day on two, then the hour, the minute on two digits
    /// and zero seconds.
    #[verifier::opaque]
    pub open spec fn text(self) -> Seq<char> {
        year_text(self.year as int) + "-"@ + padded2_text(self.month as nat) + "-"@ + padded2_text(
            self.day as nat,
        ) + " "@ + decimal_text(self.hour as nat) + ":"@ + padded2_text(self.minute as nat)
            + ":00.0"@
    }

    /// The text of `self` is its year, then its month and its day each after
    /// a dash, then its hour and its minute after a space.
    pub proof fn lemma_text_parts(self)
        ensures
            self.text() == year_text(self.year as int) + ("-"@ + padded2_text(self.month as nat)
                + "-"@ + padded2_text(self.day as nat)) + (" "@ + decimal_text(self.hour as nat)
                + ":"@ + padded2_text(self.minute as nat) + ":00.0"@),
    {
        reveal(DateTime::text);
        assert(self.text() =~= year_text(self.year as int) + ("-"@ + padded2_text(self.month as nat)
            + "-"@ + padded2_text(self.day as nat)) + (" "@ + decimal_text(self.hour as nat) + ":"@
            + padded2_text(self.minute as nat) + ":00.0"@));
    }

    /// The text of `self` as a date and time in UTC, as the `time` crate
    /// writes it: that of [`DateTime::text`] and a zero offset.
    pub open spec fn utc_text(self) -> Seq<char> {
        self.text() + " +00:00:00"@
    }

    /// Appends the text of `self` to `s`.
    pub fn push_text(&self, s: &mut String)
        ensures
            final(s)@ == old(s)@ + self.text(),
    {
        proof {
            reveal(DateTime::text);
        }
        push_year(s, self.year);
        s.append("-");
        push_padded2(s, self.month as u64);
        s.append("-");
        push_padded2(s, self.day as u64);
        s.append(" ");
        push_decimal(s, self.hour as u64);
        s.append(":");
        push_padded2(s, self.minute as u64);
        s.append(":00.0");
        assert(s@ =~= old(s)@ + self.text());
    }

    /// Appends the text of `self` as a date and time in UTC to `s`.
    pub fn push_utc_text(&self, s: &mut String)
        ensures
            final(s)@ == old(s)@ + self.utc_text(),
    {
        self.push_text(s);
        s.append(" +00:00:00");
        assert(s@ =~= old(s)@ + self.utc_text());
    }

    /// The date and time of day with the given parts, if it exists.
    pub fn new(year: i32, month: u8, day: u8, hour: u8, minute: u8) -> (r: Option<DateTime>)
        ensures
            r is Some <==> is_calendar_date(year as int, month as int, day as int) && is_time_of_day(
                hour as int,
                minute as int,
            ),
            r matches Some(dt) ==> dt == (DateTime { year, month, day, hour, minute }),
    {
        if !calendar_date_exists(year, month, day) || !time_of_day_exists(hour, minute) {
            return None;
        }
        Some(DateTime { year, month, day, hour, minute })
    }
}

/// Whether `month` numbers a month, as `time::Month::try_from` decides: the
/// conversion is claimed to succeed exactly for 1 to 12.
#[verifier::external_body]
pub(crate) fn month_exists(month: u8) -> (r: bool)
    ensures
        r == is_month(month as int),
{
    time::Month::try_from(month).is_ok()
}

/// Whether a year, month and day form a date, as
/// `time::Date::from_calendar_date` decides: for a year within -9999 to 9999
/// and a month from 1 to 12 it is claimed to succeed exactly when the day
/// lies between 1 and the length of the month, leap years following the
/// Gregorian rule.
#[verifier::external_body]
fn calendar_date_from_parts(year: i32, month: u8, day: u8) -> (r: bool)
    requires
        -9999 <= year <= 9999,
        is_month(month as int),
    ensures
        r == is_calendar_date(year as int, month as int, day as int),
{
    match time::Month::try_from(month) {
        Ok(m) => time::Date::from_calendar_date(year, m, day).is_ok(),
        Err(_) => false,
    }
}

/// Whether a year, month and day form a date that the `time` crate can hold.
pub fn calendar_date_exists(year: i32, month: u8, day: u8) -> (r: bool)
    ensures
        r == is_calendar_date(year as int, month as int, day as int),
{
    if year < -9999 || year > 9999 || !month_exists(month) {
        return false;
    }
    calendar_date_from_parts(year, month, day)
}

/// Whether an hour and a minute form a time of day, as
/// `time::Time::from_hms` decides with zero seconds: it is claimed to succeed
/// exactly for an hour below 24 and a minute below 60.
#[verifier::external_body]
pub(crate) fn time_of_day_exists(hour: u8, minute: u8) -> (r: bool)
    ensures
        r == is_time_of_day(hour as int, minute as int),
{
    time::Time::from_hms(hour, minute, 0).is_ok()
}

} // verus!
