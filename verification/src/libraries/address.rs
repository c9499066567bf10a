//! Addresses of libraries.

use vstd::prelude::*;
use crate::error::Error;
use crate::text::{byte_len, byte_len_spec};

verus! {

pub type UnvalidatedAddress = String;

/// The address of a library, of at most 100 bytes.
#[derive(Debug)]
pub struct Address(UnvalidatedAddress);

impl View for Address {
    type V = Seq<char>;

    closed spec fn view(&self) -> Seq<char> {
        self.0@
    }
}

impl Address {
    #[verifier::type_invariant]
    spec fn fits(self) -> bool {
        byte_len_spec(self.0@) <= 100
    }

    /// Accepts a text of at most 100 bytes of UTF-8 and rejects a longer one.
    pub fn new(address: UnvalidatedAddress) -> (res: Result<Self, Error>)
        ensures
            match res {
                Ok(value) => byte_len_spec(address@) <= 100 && value@ == address@,
                Err(e) => byte_len_spec(address@) > 100 && e == Error::Validation(
                    "address is too long",
                ),
            },
    {
        if byte_len(address.as_str()) > 100 {
            Err(Error::Validation("address is too long"))
        } else {
            Ok(Address(address))
        }
    }

    /// The text, which holds at most 100 bytes.
    pub fn as_str(&self) -> (text: &str)
        ensures
            text@ == self@,
            byte_len_spec(text@) <= 100,
    {
        proof {
            use_type_invariant(self);
        }
        self.0.as_str()
    }
}

impl Clone for Address {
    /// A copy with the same text.
    fn clone(&self) -> (value: Self)
        ensures
            value@ == self@,
    {
        proof {
            use_type_invariant(self);
        }
        Address(self.0.clone())
    }
}

impl Default for Address {
    /// The empty text.
    fn default() -> (value: Self)
        ensures
            value@ == Seq::<char>::empty(),
    {
        let text = String::new();
        assert(byte_len_spec(text@) == 0);
        Address(text)
    }
}

} // verus!
