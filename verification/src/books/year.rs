//! Years of publication.

use vstd::prelude::*;
use crate::error::Error;

verus! {

pub type UnvalidatedYear = i16;

/// The last year a book can have been published in.
pub const LAST_YEAR: i16 = 2024;

/// The year a book was published in, not later than 2024.
#[derive(Clone, Copy, Debug, PartialEq, Eq)]
pub struct Year(UnvalidatedYear);

impl View for Year {
    type V = i16;

    closed spec fn view(&self) -> i16 {
        self.0
    }
}

impl Year {
    #[verifier::type_invariant]
    spec fn not_in_future(self) -> bool {
        self.0 <= LAST_YEAR
    }

    /// Accepts a year up to 2024 and rejects a later one.
    pub fn new(year: UnvalidatedYear) -> (res: Result<Self, Error>)
        ensures
            match res {
                Ok(value) => year <= LAST_YEAR && value@ == year,
                Err(e) => year > LAST_YEAR && e == Error::Validation(
                    "year cannot be from the future",
                ),
            },
    {
        if year > LAST_YEAR {
            Err(Error::Validation("year cannot be from the future"))
        } else {
            Ok(Year(year))
        }
    }

    /// The year, which is not later than 2024.
    pub fn get(&self) -> (year: UnvalidatedYear)
        ensures
            year == self@,
            year <= LAST_YEAR,
    {
        proof {
            use_type_invariant(self);
        }
        self.0
    }
}

impl Default for Year {
    /// The year 0.
    fn default() -> (year: Self)
        ensures
            year@ == 0,
    {
        Year(0)
    }
}

} // verus!
