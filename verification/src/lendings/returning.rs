//! Returning a book.

use vstd::prelude::*;
use crate::books::BOOK_TAG;
use crate::error::Error;
use crate::id::{row_or, Id, IdCipher};
use crate::lendings::return_date::ReturnDate;
use crate::lendings::ReturnRequest;

verus! {

/// The row of the book that comes back, and the day of its return: today.
/// An identifier that names no book means that there is none.
pub fn return_book(return_request: ReturnRequest, cipher: &IdCipher) -> (res: Result<
    (i64, ReturnDate),
    Error,
>)
    ensures
        match res {
            Ok(back) => row_or(BOOK_TAG, return_request.book_id@, cipher@, Error::NotFound) == Ok::<
                i64,
                Error,
            >(back.0),
            Err(e) => row_or(BOOK_TAG, return_request.book_id@, cipher@, Error::NotFound) == Err::<
                i64,
                Error,
            >(e),
        },
{
    match return_request.book_id.sql_id_or(cipher, Error::NotFound) {
        Ok(row) => Ok((row, ReturnDate::today())),
        Err(e) => Err(e),
    }
}

} // verus!
