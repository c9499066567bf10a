//! What a library charges for a day past the due date.

use vstd::prelude::*;
use crate::error::Error;
use crate::libraries::daily_rate::Decimal;

verus! {

pub type UnvalidatedOverdueRate = Decimal;

/// The charge for a day past the due date.
#[derive(Clone, Copy, Debug, PartialEq, Eq, Structural)]
pub struct OverdueRate(pub UnvalidatedOverdueRate);

impl OverdueRate {
    /// Any decimal number is a rate.
    pub fn new(rate: UnvalidatedOverdueRate) -> (res: Result<Self, Error>)
        ensures
            res == Ok::<OverdueRate, Error>(OverdueRate(rate)),
    {
        Ok(OverdueRate(rate))
    }
}

} // verus!
