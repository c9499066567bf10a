//! The lendings of a library that are not returned yet.

use vstd::prelude::*;
use crate::auth::{User, UserId, USER_TAG};
use crate::books::{Book, BookId, BOOK_TAG};
use crate::id::{sealed, Id, IdCipher};
use crate::lendings::due_date::DueDate;
use crate::lendings::lending_date::LendingDate;
use crate::lendings::{Lending, LendingId, LENDING_TAG};

verus! {

/// A lending as storage holds it.
#[derive(Clone, Copy)]
pub struct DbLending {
    pub id: i64,
    pub book_id: i64,
    pub lendee_id: i64,
    pub lent_on: LendingDate,
    pub due: DueDate,
}

/// A lending with the identifiers of what it refers to.
#[derive(Clone, Copy)]
pub struct ActiveLending {
    pub id: LendingId,
    pub book_id: BookId,
    pub lendee_id: UserId,
    pub lent_on: LendingDate,
    pub due: DueDate,
}

/// Whether `lending` shows the stored `row`: the same days, and its rows
/// under their identifiers.
pub open spec fn shows(lending: ActiveLending, row: DbLending, key: Seq<u8>) -> bool {
    &&& lending.id@ == sealed(LENDING_TAG, row.id, key)
    &&& lending.book_id@ == sealed(BOOK_TAG, row.book_id, key)
    &&& lending.lendee_id@ == sealed(USER_TAG, row.lendee_id, key)
    &&& lending.lent_on == row.lent_on
    &&& lending.due == row.due
}

/// Shows the stored lendings of a library, in their order, each with the
/// identifiers of its book and its lendee.
pub fn active_lendings(rows: &Vec<DbLending>, cipher: &IdCipher) -> (lendings: Vec<ActiveLending>)
    ensures
        lendings@.len() == rows@.len(),
        forall|i: int| 0 <= i < rows@.len() ==> shows(#[trigger] lendings@[i], rows@[i], cipher@),
{
    let mut lendings: Vec<ActiveLending> = Vec::new();
    let mut i: usize = 0;
    while i < rows.len()
        invariant
            i <= rows.len(),
            lendings@.len() == i,
            forall|j: int| 0 <= j < i ==> shows(#[trigger] lendings@[j], rows@[j], cipher@),
        decreases rows.len() - i,
    {
        let row = rows[i];
        lendings.push(
            ActiveLending {
                id: LendingId::new(row.id, cipher),
                book_id: BookId::new(row.book_id, cipher),
                lendee_id: UserId::new(row.lendee_id, cipher),
                lent_on: row.lent_on,
                due: row.due,
            },
        );
        i += 1;
    }
    lendings
}

/// A lending as it is shown, with its book and its lendee.
pub fn lending(active: ActiveLending, book: Book, lendee: User) -> (shown: Lending)
    ensures
        shown.id == active.id,
        shown.book == book,
        shown.lendee == lendee,
        shown.lent_on == active.lent_on,
        shown.due == active.due,
{
    Lending { id: active.id, book, lendee, lent_on: active.lent_on, due: active.due }
}

} // verus!
