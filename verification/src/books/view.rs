//! Showing books.

use vstd::prelude::*;
use crate::auth::name::Name;
use crate::books::author::Author;
use crate::books::genre::Genre;
use crate::books::year::Year;
use crate::books::{Book, BookId, BOOK_TAG};
use crate::error::Error;
use crate::id::{row_or, sealed, Id, IdCipher};
use crate::libraries::{LibraryId, LIBRARY_TAG};

verus! {

/// A book as storage holds it.
pub struct DbBook {
    pub id: i64,
    pub year: Year,
    pub name: Name,
    pub genre: Genre,
    pub author: Author,
}

/// Whether `book` shows the stored `row`: the same details, under the
/// identifier of the row.
pub open spec fn shows(book: Book, row: DbBook, key: Seq<u8>) -> bool {
    &&& book.id@ == sealed(BOOK_TAG, row.id, key)
    &&& book.year@ == row.year@
    &&& book.name@ == row.name@
    &&& book.genre@ == row.genre@
    &&& book.author@ == row.author@
}

/// The row of the library whose books are listed. An identifier that names
/// no library means that there is none.
pub fn library_row(library_id: LibraryId, cipher: &IdCipher) -> (res: Result<i64, Error>)
    ensures
        res == row_or(LIBRARY_TAG, library_id@, cipher@, Error::NotFound),
{
    library_id.sql_id_or(cipher, Error::NotFound)
}

/// The rows of a library and one of its books, in this order. An identifier
/// that names no row means that there is no such book.
pub fn book_row(library_id: LibraryId, book_id: BookId, cipher: &IdCipher) -> (res: Result<
    (i64, i64),
    Error,
>)
    ensures
        res == match row_or(LIBRARY_TAG, library_id@, cipher@, Error::NotFound) {
            Err(e) => Err::<(i64, i64), Error>(e),
            Ok(library) => match row_or(BOOK_TAG, book_id@, cipher@, Error::NotFound) {
                Err(e) => Err(e),
                Ok(book) => Ok((library, book)),
            },
        },
{
    let library = match library_id.sql_id_or(cipher, Error::NotFound) {
        Ok(row) => row,
        Err(e) => {
            return Err(e);
        },
    };
    let book = match book_id.sql_id_or(cipher, Error::NotFound) {
        Ok(row) => row,
        Err(e) => {
            return Err(e);
        },
    };
    Ok((library, book))
}

/// Shows one stored book.
fn show(row: &DbBook, cipher: &IdCipher) -> (book: Book)
    ensures
        shows(book, *row, cipher@),
{
    Book {
        id: BookId::new(row.id, cipher),
        year: row.year,
        name: row.name.clone(),
        genre: row.genre.clone(),
        author: row.author.clone(),
    }
}

/// Shows the stored books of a library, in their order.
pub fn list_library_books(rows: &Vec<DbBook>, cipher: &IdCipher) -> (books: Vec<Book>)
    ensures
        books@.len() == rows@.len(),
        forall|i: int| 0 <= i < rows@.len() ==> shows(#[trigger] books@[i], rows@[i], cipher@),
{
    let mut books: Vec<Book> = Vec::new();
    let mut i: usize = 0;
    while i < rows.len()
        invariant
            i <= rows.len(),
            books@.len() == i,
            forall|j: int| 0 <= j < i ==> shows(#[trigger] books@[j], rows@[j], cipher@),
        decreases rows.len() - i,
    {
        books.push(show(&rows[i], cipher));
        i += 1;
    }
    books
}

/// Shows the book that storage found, or reports that there is none.
pub fn view_book(row: Option<DbBook>, cipher: &IdCipher) -> (res: Result<Book, Error>)
    ensures
        match row {
            Some(r) => res matches Ok(book) && shows(book, r, cipher@),
            None => res matches Err(e) && e == Error::NotFound,
        },
{
    match row {
        Some(r) => Ok(show(&r, cipher)),
        None => Err(Error::NotFound),
    }
}

} // verus!
