//! Calendar dates of a stay.

use vstd::prelude::*;

verus! {

/// A date by year, month and day, as a client writes it. Not every triple is a
/// day of the calendar: `nights_until` tells.
#[derive(Clone, Copy, Debug, PartialEq, Eq)]
pub struct Date {
    pub year: i32,
    pub month: u32,
    pub day: u32,
}

/// A timestamp that a backend service sent, as far as the gateway reads it:
/// the calendar day on which the instant falls in UTC, and the day on which
/// it falls in the time zone that the gateway's machine keeps.
#[derive(Clone, Copy, Debug, PartialEq, Eq)]
pub struct Stamp {
    pub utc_date: Date,
    pub local_date: Date,
}

/// The number of days that `chrono` counts from the first date to the second,
/// negative where the second is the earlier one; `None` where `chrono` has no
/// such date for one of the two triples.
pub uninterp spec fn days_between(
    from_year: i32,
    from_month: u32,
    from_day: u32,
    to_year: i32,
    to_month: u32,
    to_day: u32,
) -> Option<i64>;

impl Date {
    /// The length of a stay from `self` to `end`, in nights.
    pub open spec fn nights_to(self, end: Date) -> Option<i64> {
        days_between(self.year, self.month, self.day, end.year, end.month, end.day)
    }

    /// Counts the nights from `self` to `end`. The order of the two dates is
    /// not looked at: an `end` before `self` gives a negative count.
    pub fn nights_until(&self, end: &Date) -> (nights: Option<i64>)
        ensures
            nights == self.nights_to(*end),
    {
        chrono_days_between(self.year, self.month, self.day, end.year, end.month, end.day)
    }
}

/// Builds both dates with `chrono::NaiveDate::from_ymd_opt`, which gives
/// `None` for a triple that is no date, and returns `num_days` of
/// `NaiveDate::signed_duration_since` (second date minus first). The contract
/// only names that result as a function of the six numbers.
#[verifier::external_body]
fn chrono_days_between(
    from_year: i32,
    from_month: u32,
    from_day: u32,
    to_year: i32,
    to_month: u32,
    to_day: u32,
) -> (days: Option<i64>)
    ensures
        days == days_between(from_year, from_month, from_day, to_year, to_month, to_day),
{
    let from = chrono::NaiveDate::from_ymd_opt(from_year, from_month, from_day)?;
    let to = chrono::NaiveDate::from_ymd_opt(to_year, to_month, to_day)?;
    Some(to.signed_duration_since(from).num_days())
}

} // verus!
