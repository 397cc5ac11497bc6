//! Calendar days.
//!
//! A day is kept as its number in the proleptic Gregorian calendar, the first
//! of January of the year 1 being day 1. The day after and the day before are
//! then the next and the previous number; `chrono` turns a number into the
//! written date.

use vstd::prelude::*;
use vstd::string::*;

verus! {

/// A calendar day.
#[derive(Clone, Copy, PartialEq, Eq, Debug, Structural)]
pub struct Date {
    /// The number of the day, counted from the first of January of the year 1.
    pub days: i32,
}

/// The written form of a day as `chrono` gives it (year, month and day with
/// hyphens between), or `None` for a day outside the range of its dates.
pub uninterp spec fn calendar_text(days: int) -> Option<Seq<char>>;

/// The written form of a day; empty for a day that has none.
pub open spec fn date_text(days: int) -> Seq<char> {
    match calendar_text(days) {
        Some(text) => text,
        None => Seq::empty(),
    }
}

/// Calls `chrono::NaiveDate::from_num_days_from_ce_opt` and, where that gives
/// a date, its `Display`. The result is a function of the number alone; the
/// contract names it.
#[verifier::external_body]
fn calendar_date(days: i32) -> (r: Option<String>)
    ensures
        match r {
            Some(text) => calendar_text(days as int) == Some(text@),
            None => calendar_text(days as int) is None,
        },
{
    chrono::NaiveDate::from_num_days_from_ce_opt(days).map(|date| date.to_string())
}

impl Date {
    /// The written form of the day; empty for a day outside the calendar's
    /// range.
    pub fn text(&self) -> (r: String)
        ensures
            r@ == date_text(self.days as int),
    {
        match calendar_date(self.days) {
            Some(text) => text,
            None => String::new(),
        }
    }

    /// The day after.
    pub fn next_day(&self) -> (r: Date)
        requires
            self.days < i32::MAX,
        ensures
            r.days == self.days + 1,
    {
        Date { days: self.days + 1 }
    }

    /// The day before.
    pub fn prev_day(&self) -> (r: Date)
        requires
            self.days > i32::MIN,
        ensures
            r.days == self.days - 1,
    {
        Date { days: self.days - 1 }
    }
}

} // verus!
