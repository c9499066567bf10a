//! What a library charges for a day of lending.

use vstd::prelude::*;
use crate::error::Error;

verus! {

/// A decimal number: `mantissa` divided by ten to the power of `scale`.
#[derive(Clone, Copy, Debug, PartialEq, Eq, Structural)]
pub struct Decimal {
    pub mantissa: i128,
    pub scale: u32,
}

pub type UnvalidatedDailyRate = Decimal;

/// The charge for a day of lending.
#[derive(Clone, Copy, Debug, PartialEq, Eq, Structural)]
pub struct DailyRate(pub UnvalidatedDailyRate);

impl DailyRate {
    /// Any decimal number is a rate.
    pub fn new(rate: UnvalidatedDailyRate) -> (res: Result<Self, Error>)
        ensures
            res == Ok::<DailyRate, Error>(DailyRate(rate)),
    {
        Ok(DailyRate(rate))
    }
}

} // verus!
