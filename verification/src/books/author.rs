//! Authors of books.

use vstd::prelude::*;
use crate::error::Error;
use crate::text::{byte_len, byte_len_spec};

verus! {

pub type UnvalidatedAuthor = String;

/// The name of a book's author, of at most 50 bytes.
#[derive(Debug)]
pub struct Author(UnvalidatedAuthor);

impl View for Author {
    type V = Seq<char>;

    closed spec fn view(&self) -> Seq<char> {
        self.0@
    }
}

impl Author {
    #[verifier::type_invariant]
    spec fn fits(self) -> bool {
        byte_len_spec(self.0@) <= 50
    }

    /// Accepts a text of at most 50 bytes of UTF-8 and rejects a longer one.
    pub fn new(author: UnvalidatedAuthor) -> (res: Result<Self, Error>)
        ensures
            match res {
                Ok(value) => byte_len_spec(author@) <= 50 && value@ == author@,
                Err(e) => byte_len_spec(author@) > 50 && e == Error::Validation(
                    "author name is too long",
                ),
            },
    {
        if byte_len(author.as_str()) > 50 {
            Err(Error::Validation("author name is too long"))
        } else {
            Ok(Author(author))
        }
    }

    /// The text, which holds at most 50 bytes.
    pub fn as_str(&self) -> (text: &str)
        ensures
            text@ == self@,
            byte_len_spec(text@) <= 50,
    {
        proof {
            use_type_invariant(self);
        }
        self.0.as_str()
    }
}

impl Clone for Author {
    /// A copy with the same text.
    fn clone(&self) -> (value: Self)
        ensures
            value@ == self@,
    {
        proof {
            use_type_invariant(self);
        }
        Author(self.0.clone())
    }
}

impl Default for Author {
    /// The empty text.
    fn default() -> (value: Self)
        ensures
            value@ == Seq::<char>::empty(),
    {
        let text = String::new();
        assert(byte_len_spec(text@) == 0);
        Author(text)
    }
}

} // verus!
