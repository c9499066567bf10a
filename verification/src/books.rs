//! Books of a library.

use vstd::prelude::*;
use crate::auth::name::{Name, UnvalidatedName};
use crate::id::Id;

pub mod add;
pub mod author;
pub mod delete;
pub mod genre;
pub mod owner;
pub mod update;
pub mod view;
pub mod year;

pub use add::add_book;
pub use author::{Author, UnvalidatedAuthor};
pub use delete::delete_book;
pub use genre::{Genre, UnvalidatedGenre};
pub use owner::check_owns;
pub use update::update_book;
pub use view::{list_library_books, view_book};
pub use year::{UnvalidatedYear, Year};

verus! {

/// The tag of books: the name `book`.
pub const BOOK_TAG: u64 = 0x6b6f_6f62;

/// The identifier of a book.
pub type BookId = Id<BOOK_TAG>;

/// What a client sends to add a book.
pub struct NewBook {
    pub year: UnvalidatedYear,
    pub name: UnvalidatedName,
    pub genre: UnvalidatedGenre,
    pub author: UnvalidatedAuthor,
}

/// A book as it is shown.
pub struct Book {
    pub id: BookId,
    pub year: Year,
    pub name: Name,
    pub genre: Genre,
    pub author: Author,
}

/// What a client sends to change a book.
pub struct UpdateBook {
    pub year: UnvalidatedYear,
    pub name: UnvalidatedName,
    pub genre: UnvalidatedGenre,
    pub author: UnvalidatedAuthor,
}

} // verus!
