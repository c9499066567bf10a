//! Calendar dates as day numbers, and what the calendar of `chrono` says of
//! them.

use vstd::prelude::*;
use chrono::{Datelike, Days, Local, NaiveDate};

verus! {

/// A date of the proleptic Gregorian calendar: the number of days since
/// 31 December of the year 1 BCE, so that 1 January of the year 1 is day 1.
pub type Day = i32;

/// The first day that the calendar of `chrono` holds: 1 January of the year
/// 262144 BCE.
pub const FIRST_DAY: Day = -95_746_129;

/// The last day that the calendar of `chrono` holds: 31 December of the
/// year 262142.
pub const LAST_DAY: Day = 95_745_399;

/// The date a number of days after a date, where the calendar of `chrono`
/// holds both; none where it does not.
pub open spec fn date_after(day: Day, days: u64) -> Option<Day> {
    if FIRST_DAY <= day && day + days <= LAST_DAY {
        Some((day + days) as Day)
    } else {
        None
    }
}

/// `Local::now`, `date_naive` and `num_days_from_ce`: today's date in the
/// time zone of the machine.
#[verifier::external_body]
pub(crate) fn today() -> (day: Day) {
    Local::now().date_naive().num_days_from_ce()
}

/// `NaiveDate::checked_add_days` on the date that
/// `NaiveDate::from_num_days_from_ce_opt` makes of a day number, read back by
/// `num_days_from_ce`: the date that many days later, which has that many
/// days more in its number, where the calendar holds both dates.
#[verifier::external_body]
pub(crate) fn add_days(day: Day, days: u64) -> (later: Option<Day>)
    ensures
        later == date_after(day, days),
{
    let date = NaiveDate::from_num_days_from_ce_opt(day)?;
    let later = date.checked_add_days(Days::new(days))?;
    Some(later.num_days_from_ce())
}

} // verus!
