//! Removing a book.

use vstd::prelude::*;
use crate::books::{BookId, BOOK_TAG};
use crate::error::Error;
use crate::id::{row_or, Id, IdCipher};

verus! {

/// The row of the book to remove. An identifier that names no book means
/// that there is none.
pub fn delete_book(book_id: BookId, cipher: &IdCipher) -> (res: Result<i64, Error>)
    ensures
        res == row_or(BOOK_TAG, book_id@, cipher@, Error::NotFound),
{
    book_id.sql_id_or(cipher, Error::NotFound)
}

} // verus!
