//! Display names.

use vstd::prelude::*;
use crate::error::Error;
use crate::text::{byte_len, byte_len_spec};

verus! {

pub type UnvalidatedName = String;

/// A display name of at most 50 bytes.
#[derive(Debug)]
pub struct Name(UnvalidatedName);

impl View for Name {
    type V = Seq<char>;

    closed spec fn view(&self) -> Seq<char> {
        self.0@
    }
}

impl Name {
    #[verifier::type_invariant]
    spec fn fits(self) -> bool {
        byte_len_spec(self.0@) <= 50
    }

    /// Accepts a text of at most 50 bytes of UTF-8 and rejects a longer one.
    pub fn new(name: UnvalidatedName) -> (res: Result<Self, Error>)
        ensures
            match res {
                Ok(value) => byte_len_spec(name@) <= 50 && value@ == name@,
                Err(e) => byte_len_spec(name@) > 50 && e == Error::Validation(
                    "name is too long",
                ),
            },
    {
        if byte_len(name.as_str()) > 50 {
            Err(Error::Validation("name is too long"))
        } else {
            Ok(Name(name))
        }
    }

    /// The text, which holds at most 50 bytes.
    pub fn as_str(&self) -> (text: &str)
        ensures
            text@ == self@,
            byte_len_spec(text@) <= 50,
    {
        proof {
            use_type_invariant(self);
        }
        self.0.as_str()
    }
}

impl Clone for Name {
    /// A copy with the same text.
    fn clone(&self) -> (value: Self)
        ensures
            value@ == self@,
    {
        proof {
            use_type_invariant(self);
        }
        Name(self.0.clone())
    }
}

impl Default for Name {
    /// The empty text.
    fn default() -> (value: Self)
        ensures
            value@ == Seq::<char>::empty(),
    {
        let text = String::new();
        assert(byte_len_spec(text@) == 0);
        Name(text)
    }
}

} // verus!
