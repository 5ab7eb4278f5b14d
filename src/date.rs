//! Calendar dates as plain values; chrono answers what depends on the calendar.
use chrono::Datelike;
use vstd::prelude::*;

verus! {

/// A date of the proleptic Gregorian calendar.
#[derive(Clone, Copy, Debug, PartialEq, Eq)]
pub struct Date {
    pub year: i32,
    pub month: u32,
    pub day: u32,
}

pub open spec fn is_leap_year(y: int) -> bool {
    y % 4 == 0 && (y % 100 != 0 || y % 400 == 0)
}

pub open spec fn days_in_month(y: int, m: int) -> int {
    if m == 2 {
        if is_leap_year(y) { 29 } else { 28 }
    } else if m == 4 || m == 6 || m == 9 || m == 11 {
        30
    } else {
        31
    }
}

/// A date that chrono's `NaiveDate` can hold.
pub open spec fn valid_ymd(y: int, m: int, d: int) -> bool {
    &&& -262143 <= y <= 262142
    &&& 1 <= m <= 12
    &&& 1 <= d <= days_in_month(y, m)
}

/// Three-letter English month abbreviation of month `m` (1 to 12).
pub open spec fn month_abbr(m: int) -> Seq<char> {
    if m == 1 { "Jan"@ }
    else if m == 2 { "Feb"@ }
    else if m == 3 { "Mar"@ }
    else if m == 4 { "Apr"@ }
    else if m == 5 { "May"@ }
    else if m == 6 { "Jun"@ }
    else if m == 7 { "Jul"@ }
    else if m == 8 { "Aug"@ }
    else if m == 9 { "Sep"@ }
    else if m == 10 { "Oct"@ }
    else if m == 11 { "Nov"@ }
    else { "Dec"@ }
}

/// Days since the last Sunday (0 for a Sunday) of a valid date, as chrono computes it.
pub uninterp spec fn weekday_from_sunday(y: int, m: int, d: int) -> nat;

/// Relies on chrono's `NaiveDate::from_ymd_opt`: `Some` exactly for an existing date
/// within chrono's year range.
#[verifier::external_body]
fn ymd_exists(year: i32, month: u32, day: u32) -> (r: bool)
    ensures
        r == valid_ymd(year as int, month as int, day as int),
{
    chrono::NaiveDate::from_ymd_opt(year, month, day).is_some()
}

impl Date {
    pub open spec fn wf(&self) -> bool {
        valid_ymd(self.year as int, self.month as int, self.day as int)
    }

    pub open spec fn weekday_spec(&self) -> nat {
        weekday_from_sunday(self.year as int, self.month as int, self.day as int)
    }

    /// The date `year-month-day`, where it exists and chrono can hold it.
    pub fn new(year: i32, month: u32, day: u32) -> (r: Option<Date>)
        ensures
            r is Some <==> valid_ymd(year as int, month as int, day as int),
            r is Some ==> r.unwrap() == (Date { year, month, day }),
    {
        if ymd_exists(year, month, day) {
            Some(Date { year, month, day })
        } else {
            None
        }
    }

    /// Relies on chrono's `Weekday::num_days_from_sunday` of the date.
    #[verifier::external_body]
    pub(crate) fn weekday(&self) -> (r: u8)
        requires
            self.wf(),
        ensures
            r < 7,
            r as nat == weekday_from_sunday(self.year as int, self.month as int, self.day as int),
    {
        let d = chrono::NaiveDate::from_ymd_opt(self.year, self.month, self.day).unwrap();
        d.weekday().num_days_from_sunday() as u8
    }

    /// Relies on chrono's `%b` format item: the English three-letter month name.
    #[verifier::external_body]
    pub(crate) fn month_abbreviation(&self) -> (r: String)
        requires
            self.wf(),
        ensures
            r@ == month_abbr(self.month as int),
    {
        let d = chrono::NaiveDate::from_ymd_opt(self.year, self.month, self.day).unwrap();
        d.format("%b").to_string()
    }
}

} // verus!
