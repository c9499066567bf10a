//! Adding a book to a library.

use vstd::prelude::*;
use crate::auth::name::Name;
use crate::books::author::Author;
use crate::books::genre::Genre;
use crate::books::year::{Year, LAST_YEAR};
use crate::books::NewBook;
use crate::error::Error;
use crate::text::byte_len_spec;

verus! {

/// A book to be stored in a library.
pub struct DbBook {
    pub library_id: i64,
    pub year: Year,
    pub name: Name,
    pub genre: Genre,
    pub author: Author,
}

/// The first rule that the details of a book break, if they break one: the
/// year is not later than 2024; name, genre and author hold at most 50 bytes
/// each.
pub open spec fn book_fault(
    year: i16,
    name: Seq<char>,
    genre: Seq<char>,
    author: Seq<char>,
) -> Option<&'static str> {
    if year > LAST_YEAR {
        Some("year cannot be from the future")
    } else if byte_len_spec(name) > 50 {
        Some("name is too long")
    } else if byte_len_spec(genre) > 50 {
        Some("genre is too long")
    } else if byte_len_spec(author) > 50 {
        Some("author name is too long")
    } else {
        None
    }
}

/// The book to store in the library of the given row, or the first rule that
/// its details break.
pub fn add_book(library_id: i64, book: NewBook) -> (res: Result<DbBook, Error>)
    ensures
        match res {
            Ok(b) => {
                &&& book_fault(book.year, book.name@, book.genre@, book.author@) is None
                &&& b.library_id == library_id
                &&& b.year@ == book.year
                &&& b.name@ == book.name@
                &&& b.genre@ == book.genre@
                &&& b.author@ == book.author@
            },
            Err(e) => book_fault(book.year, book.name@, book.genre@, book.author@) matches Some(
                reason,
            ) && e == Error::Validation(reason),
        },
{
    let NewBook { year, name, genre, author } = book;
    let year = match Year::new(year) {
        Ok(v) => v,
        Err(e) => {
            return Err(e);
        },
    };
    let name = match Name::new(name) {
        Ok(v) => v,
        Err(e) => {
            return Err(e);
        },
    };
    let genre = match Genre::new(genre) {
        Ok(v) => v,
        Err(e) => {
            return Err(e);
        },
    };
    let author = match Author::new(author) {
        Ok(v) => v,
        Err(e) => {
            return Err(e);
        },
    };
    Ok(DbBook { library_id, year, name, genre, author })
}

} // verus!
