//! Changing a book.

use vstd::prelude::*;
use crate::auth::name::Name;
use crate::books::add::book_fault;
use crate::books::author::Author;
use crate::books::genre::Genre;
use crate::books::year::Year;
use crate::books::{BookId, UpdateBook, BOOK_TAG};
use crate::error::Error;
use crate::id::{row_or, Id, IdCipher};

verus! {

/// The new details of the book in a given row.
pub struct DbBook {
    pub id: i64,
    pub year: Year,
    pub name: Name,
    pub genre: Genre,
    pub author: Author,
}

/// The new details to store for a book. An identifier that names no book
/// means that there is none; then the first rule that the details break is
/// reported.
pub fn update_book(book_id: BookId, book: UpdateBook, cipher: &IdCipher) -> (res: Result<
    DbBook,
    Error,
>)
    ensures
        match row_or(BOOK_TAG, book_id@, cipher@, Error::NotFound) {
            Err(e) => res matches Err(found) && found == e,
            Ok(row) => match res {
                Ok(b) => {
                    &&& book_fault(book.year, book.name@, book.genre@, book.author@) is None
                    &&& b.id == row
                    &&& b.year@ == book.year
                    &&& b.name@ == book.name@
                    &&& b.genre@ == book.genre@
                    &&& b.author@ == book.author@
                },
                Err(e) => book_fault(book.year, book.name@, book.genre@, book.author@) matches Some(
                    reason,
                ) && e == Error::Validation(reason),
            },
        },
{
    let id = match book_id.sql_id_or(cipher, Error::NotFound) {
        Ok(row) => row,
        Err(e) => {
            return Err(e);
        },
    };
    let UpdateBook { year, name, genre, author } = book;
    let year = match Year::new(year) {
        Ok(v) => v,
        Err(e) => {
            return Err(e);
        },
    };
    let name = match Name::new(name) {
        Ok(v) => v,
        Err(e) => {
            return Err(e);
        },
    };
    let genre = match Genre::new(genre) {
        Ok(v) => v,
        Err(e) => {
            return Err(e);
        },
    };
    let author = match Author::new(author) {
        Ok(v) => v,
        Err(e) => {
            return Err(e);
        },
    };
    Ok(DbBook { id, year, name, genre, author })
}

} // verus!
