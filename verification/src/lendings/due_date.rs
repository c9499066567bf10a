//! The day a book is due back.

use vstd::prelude::*;
use crate::lendings::date::{add_days, date_after, Day};
use crate::lendings::lending_date::LendingDate;

verus! {

pub type LentFor = u64;

/// The day a book is due back.
#[derive(Clone, Copy, Debug, PartialEq, Eq)]
pub struct DueDate(Day);

impl View for DueDate {
    type V = Day;

    closed spec fn view(&self) -> Day {
        self.0
    }
}

impl DueDate {
    /// The day that lies `lent_for` days after the day of lending; none
    /// where the calendar does not hold that day.
    pub fn new(lending_date: LendingDate, lent_for: LentFor) -> (res: Option<Self>)
        ensures
            match res {
                Some(due) => date_after(lending_date@, lent_for) == Some(due@) && due@
                    == lending_date@ + lent_for,
                None => date_after(lending_date@, lent_for) is None,
            },
    {
        match add_days(lending_date.day(), lent_for) {
            Some(day) => Some(DueDate(day)),
            None => None,
        }
    }

    /// The number of days from the day of lending to the due day.
    pub fn lent_for(&self, lending_date: LendingDate) -> (days: i64)
        ensures
            days == self@ - lending_date@,
    {
        self.0 as i64 - lending_date.day() as i64
    }

    /// The date as storage holds it.
    pub fn from_stored(date: Day) -> (res: Self)
        ensures
            res@ == date,
    {
        DueDate(date)
    }

    /// The number of the day.
    pub fn day(&self) -> (day: Day)
        ensures
            day == self@,
    {
        self.0
    }
}

} // verus!
