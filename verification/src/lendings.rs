//! Lendings of books.

use vstd::prelude::*;
use crate::auth::{User, UserId};
use crate::books::{Book, BookId};
use crate::id::Id;

pub mod active;
pub mod date;
pub mod due_date;
pub mod lend;
pub mod lending_date;
pub mod return_date;
pub mod returning;

pub use active::active_lendings;
pub use date::Day;
pub use due_date::{DueDate, LentFor};
pub use lend::lend_book;
pub use lending_date::{LendingDate, UnvalidatedLendingDate};
pub use return_date::ReturnDate;
pub use returning::return_book;

verus! {

/// The tag of lendings: the name `lending`.
pub const LENDING_TAG: u64 = 0x0067_6e69_646e_656c;

/// The identifier of a lending.
pub type LendingId = Id<LENDING_TAG>;

/// What is sent to lend a book.
pub struct NewLending {
    pub lendee_id: UserId,
    pub book_id: BookId,
    pub lent_on: UnvalidatedLendingDate,
    pub lent_for: LentFor,
}

/// A lending as it is shown.
pub struct Lending {
    pub id: LendingId,
    pub book: Book,
    pub lendee: User,
    pub lent_on: LendingDate,
    pub due: DueDate,
}

/// What is sent to return a book.
pub struct ReturnRequest {
    pub book_id: BookId,
}

} // verus!
