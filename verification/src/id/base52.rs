//! The text of an identifier: a 128-bit number in base 52, least significant
//! digit first, over the letters `a` to `z` and `A` to `Z`.

use vstd::prelude::*;
use vstd::arithmetic::div_mod::{
    lemma_add_mod_noop, lemma_add_mod_noop_right, lemma_mod_twice, lemma_mul_mod_noop_general,
    lemma_small_mod,
};
use crate::text::push_char;

verus! {

/// An identifier's text did not name it.
#[derive(Clone, Copy, Debug, PartialEq, Eq)]
pub struct DecodeError;

/// The number of letters in the alphabet.
pub const BASE: u128 = 52;

/// One more than the largest number an identifier holds.
pub open spec fn modulus() -> nat {
    0x1_0000_0000_0000_0000_0000_0000_0000_0000nat
}

/// The digit that a letter stands for: `a` to `z` are 0 to 25, `A` to `Z` are
/// 26 to 51; any other character stands for none.
pub open spec fn digit_of(c: char) -> Option<nat> {
    if 'a' <= c <= 'z' {
        Some((c as nat - 'a' as nat) as nat)
    } else if 'A' <= c <= 'Z' {
        Some((c as nat - 'A' as nat + 26) as nat)
    } else {
        None
    }
}

/// The letter that stands for a digit below 52.
pub open spec fn symbol(d: nat) -> char {
    if d < 26 {
        ('a' as nat + d) as char
    } else {
        ('A' as nat + d - 26) as char
    }
}

/// Whether every character of `s` is a letter of the alphabet.
pub open spec fn in_alphabet(s: Seq<char>) -> bool {
    forall|i: int| 0 <= i < s.len() ==> (#[trigger] digit_of(s[i])) is Some
}

/// The number that the digits of `s` denote, least significant first. A
/// character outside the alphabet counts as zero.
pub open spec fn digits_value(s: Seq<char>) -> nat
    decreases s.len(),
{
    if s.len() == 0 {
        0
    } else {
        (match digit_of(s[0]) {
            Some(d) => d,
            None => 0,
        }) + 52 * digits_value(s.drop_first())
    }
}

/// What a text decodes to: the number its digits denote, reduced to 128 bits,
/// unless a character lies outside the alphabet.
pub open spec fn decoded(s: Seq<char>) -> Result<u128, DecodeError> {
    if in_alphabet(s) {
        Ok((digits_value(s) % modulus()) as u128)
    } else {
        Err(DecodeError)
    }
}

/// The text of a number: its base-52 digits, least significant first, with at
/// least one digit and no zero digit at the end but for the number zero.
pub open spec fn encoded(n: nat) -> Seq<char>
    decreases n,
{
    if n < 52 {
        seq![symbol(n)]
    } else {
        seq![symbol(n % 52)] + encoded(n / 52)
    }
}

/// A letter's digit names the letter, and a digit's letter stands for it.
pub proof fn lemma_symbol_digit(d: nat)
    requires
        d < 52,
    ensures
        digit_of(symbol(d)) == Some(d),
{
}

/// The text of a number holds letters of the alphabet only, and its digits
/// denote the number.
pub proof fn lemma_encoded_value(n: nat)
    ensures
        encoded(n).len() >= 1,
        in_alphabet(encoded(n)),
        digits_value(encoded(n)) == n,
    decreases n,
{
    lemma_symbol_digit(n % 52);
    let text = encoded(n);
    assert(text[0] == symbol(n % 52));
    if n < 52 {
        assert(text.drop_first() =~= Seq::<char>::empty());
        assert(digits_value(text) == n % 52 + 52 * digits_value(text.drop_first()));
    } else {
        lemma_encoded_value(n / 52);
        let rest = encoded(n / 52);
        assert(text.drop_first() =~= rest);
        assert(digits_value(text) == n % 52 + 52 * digits_value(text.drop_first()));
        assert forall|i: int| 0 <= i < text.len() implies (#[trigger] digit_of(text[i])) is Some by {
            if i > 0 {
                assert(text[i] == rest[i - 1]);
            }
        }
    }
}

/// Decoding the text of a number gives the number back.
pub proof fn lemma_decoded_encoded(n: u128)
    ensures
        decoded(encoded(n as nat)) == Ok::<u128, DecodeError>(n),
{
    lemma_encoded_value(n as nat);
    lemma_small_mod(n as nat, modulus());
}

/// A text with a character outside the alphabet decodes to nothing.
pub proof fn lemma_foreign_character(s: Seq<char>, i: int)
    requires
        0 <= i < s.len(),
        digit_of(s[i]) is None,
    ensures
        decoded(s) == Err::<u128, DecodeError>(DecodeError),
{
}

/// The empty text decodes to zero.
pub proof fn lemma_empty_text()
    ensures
        decoded(Seq::<char>::empty()) == Ok::<u128, DecodeError>(0),
{
    lemma_small_mod(0, modulus());
}

/// The digit of a character, if it is a letter of the alphabet.
pub fn digit(c: char) -> (d: Option<u8>)
    ensures
        match d {
            Some(v) => digit_of(c) == Some(v as nat),
            None => digit_of(c) is None,
        },
{
    if 'a' <= c && c <= 'z' {
        Some((c as u32 - 'a' as u32) as u8)
    } else if 'A' <= c && c <= 'Z' {
        Some((c as u32 - 'A' as u32 + 26) as u8)
    } else {
        None
    }
}

/// The letter of a digit below 52.
pub fn letter(d: u8) -> (c: char)
    requires
        d < 52,
    ensures
        c == symbol(d as nat),
{
    if d < 26 {
        (0x61u8 + d) as char
    } else {
        (0x41u8 + (d - 26)) as char
    }
}

/// Writes a number as text.
pub fn encode(n: u128) -> (text: String)
    ensures
        text@ == encoded(n as nat),
{
    let mut text = String::new();
    let mut rest: u128 = n;
    while rest >= BASE
        invariant
            text@ + encoded(rest as nat) == encoded(n as nat),
        decreases rest,
    {
        push_char(&mut text, letter((rest % BASE) as u8));
        rest = rest / BASE;
    }
    push_char(&mut text, letter(rest as u8));
    text
}

/// One step of reading digits: taking the digit `d` at the weight `weight`
/// into the sum, both reduced by `m`, leaves the whole value unchanged.
proof fn lemma_decode_step(acc: int, weight: int, d: int, rest: int, m: int)
    requires
        0 < m,
    ensures
        ((acc + (d * weight) % m) % m + ((weight * 52) % m) * rest) % m == (acc + weight * (d + 52
            * rest)) % m,
{
    let acc2 = (acc + (d * weight) % m) % m;
    let weight2 = (weight * 52) % m;
    lemma_add_mod_noop(acc2, weight2 * rest, m);
    lemma_mod_twice(acc + (d * weight) % m, m);
    lemma_add_mod_noop_right(acc, d * weight, m);
    lemma_mul_mod_noop_general(weight * 52, rest, m);
    lemma_add_mod_noop(acc + d * weight, (weight * 52) * rest, m);
    assert(weight * (d + 52 * rest) == d * weight + (weight * 52) * rest) by (nonlinear_arith);
}

/// Reads a number from its text. Digits beyond 128 bits wrap around.
pub fn decode(s: &str) -> (res: Result<u128, DecodeError>)
    ensures
        res == decoded(s@),
{
    let mut acc: u128 = 0;
    let mut weight: u128 = 1;
    proof {
        assert(s@.skip(0) =~= s@);
        assert(s@.take(0) =~= Seq::<char>::empty());
    }
    for c in it: s.chars()
        invariant
            it.seq() == s@,
            in_alphabet(s@.take(it.index())),
            (acc + weight * digits_value(s@.skip(it.index()))) % (modulus() as int) == digits_value(
                s@,
            ) % modulus(),
    {
        let ghost i = it.index();
        match digit(c) {
            None => {
                assert(digit_of(s@[i]) is None);
                return Err(DecodeError);
            },
            Some(d) => {
                proof {
                    let rest = digits_value(s@.skip(i + 1));
                    assert(s@.skip(i).drop_first() =~= s@.skip(i + 1));
                    assert(digits_value(s@.skip(i)) == d + 52 * rest);
                    lemma_decode_step(
                        acc as int,
                        weight as int,
                        d as int,
                        rest as int,
                        modulus() as int,
                    );
                    lemma_small_mod(acc as nat, modulus());
                    assert forall|j: int| 0 <= j < i + 1 implies (#[trigger] digit_of(
                        s@.take(i + 1)[j],
                    )) is Some by {
                        if j < i {
                            assert(s@.take(i + 1)[j] == s@.take(i)[j]);
                        }
                    }
                }
                acc = acc.wrapping_add((d as u128).wrapping_mul(weight));
                weight = weight.wrapping_mul(BASE);
            },
        }
    }
    proof {
        assert(s@.take(s@.len() as int) =~= s@);
        assert(s@.skip(s@.len() as int) =~= Seq::<char>::empty());
        assert(digits_value(s@.skip(s@.len() as int)) == 0);
        assert(weight * 0 == 0);
        lemma_small_mod(acc as nat, modulus());
    }
    Ok(acc)
}

} // verus!
