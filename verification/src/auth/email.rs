//! Email addresses.

use vstd::prelude::*;
use crate::error::Error;
use crate::text::{alphanumeric, byte_len, byte_len_spec, chars_of, is_alphanumeric};

verus! {

pub type UnvalidatedEmail = String;

/// Whether a character may stand in the user name or the domain of an
/// address: letters, numbers, `.`, `-` and `_`.
pub open spec fn allowed_in_address(c: char) -> bool {
    alphanumeric(c) || c == '.' || c == '-' || c == '_'
}

/// Whether two dots stand side by side at `i` and `i + 1`.
pub open spec fn double_dot_at(part: Seq<char>, i: int) -> bool {
    part[i] == '.' && part[i + 1] == '.'
}

/// Whether a user name or a domain is well formed: allowed characters only,
/// and no two dots side by side.
pub open spec fn well_formed_part(part: Seq<char>) -> bool {
    &&& forall|i: int| 0 <= i < part.len() ==> allowed_in_address(#[trigger] part[i])
    &&& forall|i: int| 0 <= i < part.len() - 1 ==> !#[trigger] double_dot_at(part, i)
}

/// Whether `c` occurs in `s` at `i` and nowhere before.
pub open spec fn first_at(s: Seq<char>, c: char, i: int) -> bool {
    &&& 0 <= i < s.len()
    &&& s[i] == c
    &&& forall|j: int| 0 <= j < i ==> s[j] != c
}

/// Whether a text is an email address that the service supports: at most 50
/// bytes; a user name, the first `@`, and a domain with a dot in it; both
/// parts well formed.
pub open spec fn valid_email(email: Seq<char>) -> bool {
    &&& byte_len_spec(email) <= 50
    &&& exists|at: int|
        {
            &&& #[trigger] first_at(email, '@', at)
            &&& email.skip(at + 1).contains('.')
            &&& well_formed_part(email.take(at))
            &&& well_formed_part(email.skip(at + 1))
        }
}

/// The place of the first `c` in `chars`, if there is one.
fn find(chars: &Vec<char>, c: char) -> (place: Option<usize>)
    ensures
        match place {
            Some(i) => first_at(chars@, c, i as int),
            None => !chars@.contains(c),
        },
{
    let mut i: usize = 0;
    while i < chars.len()
        invariant
            i <= chars.len(),
            forall|j: int| 0 <= j < i ==> chars@[j] != c,
        decreases chars.len() - i,
    {
        if chars[i] == c {
            return Some(i);
        }
        i += 1;
    }
    None
}

/// Whether `c` occurs in `chars` from `from` on.
fn contains_from(chars: &Vec<char>, from: usize, c: char) -> (found: bool)
    requires
        from <= chars.len(),
    ensures
        found == chars@.skip(from as int).contains(c),
{
    let ghost tail = chars@.skip(from as int);
    let mut i: usize = from;
    while i < chars.len()
        invariant
            from <= i <= chars.len(),
            tail == chars@.skip(from as int),
            forall|j: int| 0 <= j < i - from ==> tail[j] != c,
        decreases chars.len() - i,
    {
        if chars[i] == c {
            assert(tail[i - from] == c);
            return true;
        }
        i += 1;
    }
    false
}

/// Whether the characters from `from` up to `to` form a well-formed part.
fn part_is_well_formed(chars: &Vec<char>, from: usize, to: usize) -> (ok: bool)
    requires
        from <= to <= chars.len(),
    ensures
        ok == well_formed_part(chars@.subrange(from as int, to as int)),
{
    let ghost part = chars@.subrange(from as int, to as int);
    let mut i: usize = from;
    while i < to
        invariant
            from <= i <= to <= chars.len(),
            part == chars@.subrange(from as int, to as int),
            forall|j: int| 0 <= j < i - from ==> allowed_in_address(#[trigger] part[j]),
            forall|j: int| 0 <= j < i - from - 1 ==> !#[trigger] double_dot_at(part, j),
        decreases to - i,
    {
        let c = chars[i];
        assert(part[i - from] == c);
        if !(is_alphanumeric(c) || c == '.' || c == '-' || c == '_') {
            return false;
        }
        if i > from && c == '.' && chars[i - 1] == '.' {
            assert(double_dot_at(part, i - from - 1));
            return false;
        }
        i += 1;
    }
    true
}

/// Whether a text is an email address that the service supports.
pub fn validate_email(email: &str) -> (valid: bool)
    ensures
        valid == valid_email(email@),
{
    if byte_len(email) > 50 {
        return false;
    }
    let chars = chars_of(email);
    match find(&chars, '@') {
        None => {
            assert forall|at: int| !#[trigger] first_at(email@, '@', at) by {
                if first_at(email@, '@', at) {
                    assert(email@.contains('@'));
                }
            }
            false
        },
        Some(at) => {
            assert forall|other: int| #[trigger] first_at(email@, '@', other) implies other
                == at by {}
            assert(at < chars.len());
            let valid = contains_from(&chars, at + 1, '.') && part_is_well_formed(&chars, 0, at)
                && part_is_well_formed(&chars, at + 1, chars.len());
            proof {
                assert(chars@.subrange(0, at as int) =~= email@.take(at as int));
                assert(chars@.subrange(at + 1, chars.len() as int) =~= email@.skip(at + 1));
            }
            valid
        },
    }
}

/// An email address that the service supports.
#[derive(Debug)]
pub struct Email(UnvalidatedEmail);

impl View for Email {
    type V = Seq<char>;

    closed spec fn view(&self) -> Seq<char> {
        self.0@
    }
}

impl Email {
    #[verifier::type_invariant]
    spec fn is_valid(self) -> bool {
        valid_email(self.0@)
    }

    /// Accepts a supported email address and rejects any other text.
    pub fn new(value: UnvalidatedEmail) -> (res: Result<Email, Error>)
        ensures
            match res {
                Ok(email) => valid_email(value@) && email@ == value@,
                Err(e) => !valid_email(value@) && e == Error::Validation(
                    "unsupported email address",
                ),
            },
    {
        if validate_email(value.as_str()) {
            Ok(Email(value))
        } else {
            Err(Error::Validation("unsupported email address"))
        }
    }

    /// The address, which is a supported one.
    pub fn as_str(&self) -> (text: &str)
        ensures
            text@ == self@,
            valid_email(text@),
    {
        proof {
            use_type_invariant(self);
        }
        self.0.as_str()
    }
}

impl Clone for Email {
    /// A copy with the same address.
    fn clone(&self) -> (value: Self)
        ensures
            value@ == self@,
    {
        proof {
            use_type_invariant(self);
        }
        Email(self.0.clone())
    }
}

} // verus!
