//! Lending a book.

use vstd::prelude::*;
use crate::auth::USER_TAG;
use crate::books::BOOK_TAG;
use crate::error::{Error, ErrorChain};
use crate::id::{row_or, Id, IdCipher};
use crate::lendings::date::{date_after, today, Day};
use crate::lendings::due_date::DueDate;
use crate::lendings::lending_date::LendingDate;
use crate::lendings::NewLending;

verus! {

/// A lending to be stored.
pub struct DbLending {
    pub book_id: i64,
    pub lendee_id: i64,
    pub lent_on: LendingDate,
    pub due: DueDate,
}

/// The rows of the lendee and the book of a lending. A lendee's identifier
/// that names no account means that the lendee must sign in; a book's that
/// names none, that there is no such book.
pub open spec fn lendee_and_book(lendee: u128, book: u128, key: Seq<u8>) -> Result<
    (i64, i64),
    Error,
> {
    match row_or(USER_TAG, lendee, key, Error::LoggedOff) {
        Err(e) => Err(e),
        Ok(lendee_row) => match row_or(BOOK_TAG, book, key, Error::NotFound) {
            Err(e) => Err(e),
            Ok(book_row) => Ok((lendee_row, book_row)),
        },
    }
}

/// What lending a book on the day `today` returns: the lending to store, due
/// as many days after the day of lending as the book is lent for. The
/// identifiers are read first; then a day of lending after `today` is
/// refused; a due day that the calendar does not hold is a failure inside the
/// service.
pub open spec fn lent(lending: NewLending, key: Seq<u8>, today: Day) -> Result<
    (i64, i64, Day, Day),
    Error,
> {
    match lendee_and_book(lending.lendee_id@, lending.book_id@, key) {
        Err(e) => Err(e),
        Ok(rows) => if lending.lent_on > today {
            Err(Error::Validation("cannot lend books from the future"))
        } else {
            match date_after(lending.lent_on, lending.lent_for) {
                None => Err(Error::Internal(ErrorChain { context: "compute due date" })),
                Some(due) => Ok((rows.1, rows.0, lending.lent_on, due)),
            }
        },
    }
}

/// The lending to store for a book lent on the day `today`.
pub fn lend_book_on(lending: NewLending, cipher: &IdCipher, today: Day) -> (res: Result<
    DbLending,
    Error,
>)
    ensures
        match res {
            Ok(l) => lent(lending, cipher@, today) == Ok::<(i64, i64, Day, Day), Error>(
                (l.book_id, l.lendee_id, l.lent_on@, l.due@),
            ) && l.due@ == l.lent_on@ + lending.lent_for,
            Err(e) => lent(lending, cipher@, today) == Err::<(i64, i64, Day, Day), Error>(e),
        },
{
    let lendee_id = match lending.lendee_id.sql_id_or(cipher, Error::LoggedOff) {
        Ok(row) => row,
        Err(e) => {
            return Err(e);
        },
    };
    let book_id = match lending.book_id.sql_id_or(cipher, Error::NotFound) {
        Ok(row) => row,
        Err(e) => {
            return Err(e);
        },
    };
    let lent_on = match LendingDate::new_on(lending.lent_on, today) {
        Ok(date) => date,
        Err(e) => {
            return Err(e);
        },
    };
    let due = match DueDate::new(lent_on, lending.lent_for) {
        Some(date) => date,
        None => {
            return Err(Error::internal("compute due date"));
        },
    };
    Ok(DbLending { book_id, lendee_id, lent_on, due })
}

/// The lending to store for a book lent today.
pub fn lend_book(lending: NewLending, cipher: &IdCipher) -> (res: Result<DbLending, Error>)
    ensures
        exists|today: Day|
            match res {
                Ok(l) => #[trigger] lent(lending, cipher@, today) == Ok::<
                    (i64, i64, Day, Day),
                    Error,
                >((l.book_id, l.lendee_id, l.lent_on@, l.due@)),
                Err(e) => lent(lending, cipher@, today) == Err::<(i64, i64, Day, Day), Error>(e),
            },
{
    let today = today();
    lend_book_on(lending, cipher, today)
}

} // verus!
