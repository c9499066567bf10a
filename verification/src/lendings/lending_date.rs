//! The day a book is lent on.

use vstd::prelude::*;
use crate::error::Error;
use crate::lendings::date::{today, Day};

verus! {

pub type UnvalidatedLendingDate = Day;

/// The day a book is lent on.
#[derive(Clone, Copy, Debug, PartialEq, Eq)]
pub struct LendingDate(UnvalidatedLendingDate);

impl View for LendingDate {
    type V = Day;

    closed spec fn view(&self) -> Day {
        self.0
    }
}

/// Whether `res` is the answer to a day of lending on the day `today`: a day
/// up to `today` is accepted, a later one refused.
pub open spec fn accepted(res: Result<LendingDate, Error>, date: Day, today: Day) -> bool {
    match res {
        Ok(d) => date <= today && d@ == date,
        Err(e) => date > today && e == Error::Validation("cannot lend books from the future"),
    }
}

impl LendingDate {
    /// Accepts a date up to `today` and rejects a later one.
    pub fn new_on(date: UnvalidatedLendingDate, today: Day) -> (res: Result<Self, Error>)
        ensures
            accepted(res, date, today),
    {
        if date > today {
            Err(Error::Validation("cannot lend books from the future"))
        } else {
            Ok(LendingDate(date))
        }
    }

    /// Accepts a date up to today and rejects a later one.
    pub fn new(date: UnvalidatedLendingDate) -> (res: Result<Self, Error>)
        ensures
            exists|today: Day| #[trigger] accepted(res, date, today),
    {
        let today = today();
        let res = LendingDate::new_on(date, today);
        assert(accepted(res, date, today));
        res
    }

    /// The date as storage holds it.
    pub fn from_stored(date: Day) -> (res: Self)
        ensures
            res@ == date,
    {
        LendingDate(date)
    }

    /// The number of the day.
    pub fn day(&self) -> (day: Day)
        ensures
            day == self@,
    {
        self.0
    }
}

} // verus!
