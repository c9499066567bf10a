//! The day a book came back.

use vstd::prelude::*;
use crate::lendings::date::{today, Day};

verus! {

/// The day a book came back.
#[derive(Clone, Copy, Debug, PartialEq, Eq)]
pub struct ReturnDate(pub Day);

impl ReturnDate {
    /// Today.
    pub fn today() -> Self {
        ReturnDate(today())
    }
}

} // verus!
