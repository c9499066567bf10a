//! Text helpers that the standard library provides and the verifier has no
//! statement for.

use vstd::prelude::*;
use vstd::string::StringSliceAdditionalSpecFns;
use vstd::utf8::encode_utf8;

verus! {

/// The length of a text in bytes of UTF-8.
pub open spec fn byte_len_spec(s: Seq<char>) -> nat {
    encode_utf8(s).len()
}

/// The length of a text in bytes of UTF-8.
pub fn byte_len(s: &str) -> (n: usize)
    ensures
        n == byte_len_spec(s@),
{
    s.as_bytes().len()
}

/// The characters of a text, one by one.
pub fn chars_of(s: &str) -> (chars: Vec<char>)
    ensures
        chars@ == s@,
{
    let mut chars: Vec<char> = Vec::new();
    for c in it: s.chars()
        invariant
            it.seq() == s@,
            chars@ == s@.take(it.index()),
    {
        chars.push(c);
        assert(s@.take(it.index() + 1) =~= s@.take(it.index()).push(c));
    }
    assert(s@.take(s@.len() as int) =~= s@);
    chars
}

/// What `char::is_alphanumeric` says of a character beyond ASCII: whether
/// Unicode counts it as a letter or a number.
pub uninterp spec fn unicode_alphanumeric(c: char) -> bool;

/// What `char::is_lowercase` says of a character beyond ASCII: whether
/// Unicode gives it the property Lowercase.
pub uninterp spec fn unicode_lowercase(c: char) -> bool;

/// What `char::is_uppercase` says of a character beyond ASCII: whether
/// Unicode gives it the property Uppercase.
pub uninterp spec fn unicode_uppercase(c: char) -> bool;

/// What `char::is_numeric` says of a character beyond ASCII: whether Unicode
/// puts it in one of the general categories for numbers.
pub uninterp spec fn unicode_numeric(c: char) -> bool;

/// Whether a character is an ASCII one.
pub open spec fn ascii(c: char) -> bool {
    c <= '\u{7f}'
}

/// Whether a character is a lowercase one: in ASCII the letters `a` to `z`.
pub open spec fn lowercase(c: char) -> bool {
    if ascii(c) {
        'a' <= c <= 'z'
    } else {
        unicode_lowercase(c)
    }
}

/// Whether a character is an uppercase one: in ASCII the letters `A` to `Z`.
pub open spec fn uppercase(c: char) -> bool {
    if ascii(c) {
        'A' <= c <= 'Z'
    } else {
        unicode_uppercase(c)
    }
}

/// Whether a character is a number: in ASCII the digits `0` to `9`.
pub open spec fn numeric(c: char) -> bool {
    if ascii(c) {
        '0' <= c <= '9'
    } else {
        unicode_numeric(c)
    }
}

/// Whether a character is a letter or a number: in ASCII the letters `a` to
/// `z` and `A` to `Z` and the digits `0` to `9`.
pub open spec fn alphanumeric(c: char) -> bool {
    if ascii(c) {
        'a' <= c <= 'z' || 'A' <= c <= 'Z' || '0' <= c <= '9'
    } else {
        unicode_alphanumeric(c)
    }
}

/// `char::is_alphanumeric`: in ASCII it holds of the letters and the digits,
/// beyond ASCII of what Unicode counts as a letter or a number.
#[verifier::external_body]
pub(crate) fn is_alphanumeric(c: char) -> (b: bool)
    ensures
        b == alphanumeric(c),
        !ascii(c) ==> b == unicode_alphanumeric(c),
{
    c.is_alphanumeric()
}

/// `char::is_lowercase`: in ASCII it holds of `a` to `z`, beyond ASCII of
/// what Unicode gives the property Lowercase.
#[verifier::external_body]
pub(crate) fn is_lowercase(c: char) -> (b: bool)
    ensures
        b == lowercase(c),
        !ascii(c) ==> b == unicode_lowercase(c),
{
    c.is_lowercase()
}

/// `char::is_uppercase`: in ASCII it holds of `A` to `Z`, beyond ASCII of
/// what Unicode gives the property Uppercase.
#[verifier::external_body]
pub(crate) fn is_uppercase(c: char) -> (b: bool)
    ensures
        b == uppercase(c),
        !ascii(c) ==> b == unicode_uppercase(c),
{
    c.is_uppercase()
}

/// `char::is_numeric`: in ASCII it holds of `0` to `9`, beyond ASCII of what
/// Unicode puts in a general category for numbers.
#[verifier::external_body]
pub(crate) fn is_numeric(c: char) -> (b: bool)
    ensures
        b == numeric(c),
        !ascii(c) ==> b == unicode_numeric(c),
{
    c.is_numeric()
}

/// `String::push`: the character is appended at the end and nothing else
/// changes.
#[verifier::external_body]
pub(crate) fn push_char(s: &mut String, c: char)
    ensures
        final(s)@ == old(s)@.push(c),
{
    s.push(c)
}

} // verus!
