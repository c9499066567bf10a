//! Opaque identifiers: a row id and the tag of its resource kind, packed into
//! one 128-bit block, encrypted, and written out over a 52-letter alphabet.

use vstd::prelude::*;
use vstd::array::array_as_slice;
use vstd::bytes::{
    lemma_auto_spec_u128_to_from_le_bytes, spec_u128_from_le_bytes, spec_u128_to_le_bytes,
    u128_from_le_bytes, u128_to_le_bytes,
};
use vstd::string::StringSliceAdditionalSpecFns;

pub mod base52;
pub mod block;
pub mod cipher;

pub use base52::DecodeError;
use crate::error::Error;
pub use cipher::IdCipher;

use base52::{decode, decoded, encode, encoded, lemma_decoded_encoded};
use block::{bisect, bisect_spec, concat_spec, lemma_bisect_concat, lemma_concat_bisect};
use cipher::{aes128_decrypt, aes128_encrypt, decrypt_block, encrypt_block};

verus! {

/// The number that a sequence of bytes denotes when the first byte is the
/// least significant one.
pub open spec fn le_value(bytes: Seq<u8>) -> nat
    decreases bytes.len(),
{
    if bytes.len() == 0 {
        0
    } else {
        bytes[0] as nat + 256 * le_value(bytes.drop_first())
    }
}

proof fn lemma_le_value_bound(bytes: Seq<u8>)
    requires
        bytes.len() <= 8,
    ensures
        bytes.len() == 0 ==> le_value(bytes) == 0,
        bytes.len() == 1 ==> le_value(bytes) < 0x100,
        bytes.len() == 2 ==> le_value(bytes) < 0x1_0000,
        bytes.len() == 3 ==> le_value(bytes) < 0x100_0000,
        bytes.len() == 4 ==> le_value(bytes) < 0x1_0000_0000,
        bytes.len() == 5 ==> le_value(bytes) < 0x100_0000_0000,
        bytes.len() == 6 ==> le_value(bytes) < 0x1_0000_0000_0000,
        bytes.len() == 7 ==> le_value(bytes) < 0x100_0000_0000_0000,
        bytes.len() == 8 ==> le_value(bytes) < 0x1_0000_0000_0000_0000,
    decreases bytes.len(),
{
    if bytes.len() > 0 {
        lemma_le_value_bound(bytes.drop_first());
    }
}

/// The tag of a resource kind: the bytes of its short name, the first byte in
/// the lowest position. A name holds at most eight bytes.
pub fn tag(s: &str) -> (result: u64)
    requires
        s.spec_bytes().len() <= 8,
    ensures
        result == le_value(s.spec_bytes()),
{
    let bytes = s.as_bytes();
    let mut result: u64 = 0;
    let mut i: usize = bytes.len();
    proof {
        assert(bytes@.skip(i as int) =~= Seq::<u8>::empty());
    }
    while i > 0
        invariant
            i <= bytes.len() <= 8,
            result == le_value(bytes@.skip(i as int)),
        decreases i,
    {
        i -= 1;
        let b: u64 = bytes[i] as u64;
        proof {
            let rest = bytes@.skip(i as int + 1);
            lemma_le_value_bound(rest);
            assert(bytes@.skip(i as int).drop_first() =~= rest);
            assert(result < 0x100_0000_0000_0000);
            assert(((result << 8) | b) == result * 256 + b) by (bit_vector)
                requires
                    result < 0x100_0000_0000_0000,
                    b < 256,
            ;
        }
        result = (result << 8) | b;
    }
    proof {
        assert(bytes@.skip(0) =~= bytes@);
    }
    result
}

/// The number behind the identifier of row `id` of the kind `tag`: its block,
/// encrypted under `key`.
pub open spec fn sealed(tag: u64, id: i64, key: Seq<u8>) -> u128 {
    spec_u128_from_le_bytes(aes128_encrypt(key, concat_spec(tag, id)))
}

/// The row that the number `value` names as an identifier of the kind
/// `expected_tag`: the row id in its decrypted block, if the tag there is the
/// expected one.
pub open spec fn opened(expected_tag: u64, value: u128, key: Seq<u8>) -> Result<i64, DecodeError> {
    let parts = bisect_spec(aes128_decrypt(key, spec_u128_to_le_bytes(value)));
    if parts.0 == expected_tag {
        Ok(parts.1)
    } else {
        Err(DecodeError)
    }
}

/// The row that the text `text` names as an identifier of the kind
/// `expected_tag`.
pub open spec fn row_of(expected_tag: u64, text: Seq<char>, key: Seq<u8>) -> Result<
    i64,
    DecodeError,
> {
    match decoded(text) {
        Ok(value) => opened(expected_tag, value, key),
        Err(e) => Err(e),
    }
}

/// The row that the number `value` names as an identifier of the kind
/// `expected_tag`, or `error` where it names none.
pub open spec fn row_or(expected_tag: u64, value: u128, key: Seq<u8>, error: Error) -> Result<
    i64,
    Error,
> {
    match opened(expected_tag, value, key) {
        Ok(row) => Ok(row),
        Err(_) => Err(error),
    }
}

/// Seals a row id under a tag.
pub fn encrypt(tag: u64, id: i64, cipher: &IdCipher) -> (value: u128)
    ensures
        value == sealed(tag, id, cipher@),
        forall|expected_tag: u64| #[trigger]
            opened(expected_tag, value, cipher@) == if expected_tag == tag {
                Ok::<i64, DecodeError>(id)
            } else {
                Err(DecodeError)
            },
{
    let out = encrypt_block(cipher, block::concat(tag, id));
    let value = u128_from_le_bytes(array_as_slice(&out));
    proof {
        lemma_auto_spec_u128_to_from_le_bytes();
        lemma_bisect_concat(tag, id);
        assert(out@.len() == 16);
        assert(spec_u128_to_le_bytes(spec_u128_from_le_bytes(out@)) == out@);
    }
    value
}

/// Opens a sealed number, expecting a tag. A row comes out of the one number
/// that seals it under that tag, and of no other.
pub fn decrypt(expected_tag: u64, id: u128, cipher: &IdCipher) -> (row: Result<i64, DecodeError>)
    ensures
        row == opened(expected_tag, id, cipher@),
        row matches Ok(r) ==> id == sealed(expected_tag, r, cipher@),
{
    let v = u128_to_le_bytes(id);
    let block: [u8; 16] = [
        v[0], v[1], v[2], v[3], v[4], v[5], v[6], v[7],
        v[8], v[9], v[10], v[11], v[12], v[13], v[14], v[15],
    ];
    assert(block@ =~= v@);
    let plain = decrypt_block(cipher, block);
    let parts = bisect(plain);
    if parts.0 == expected_tag {
        proof {
            lemma_auto_spec_u128_to_from_le_bytes();
            assert(plain@.len() == 16);
            lemma_concat_bisect(plain@);
            assert(spec_u128_from_le_bytes(spec_u128_to_le_bytes(id)) == id);
        }
        Ok(parts.1)
    } else {
        Err(DecodeError)
    }
}

/// The identifier of a row of the resource kind with the tag `TAG`, as it is
/// shown outside.
#[derive(Clone, Copy)]
pub struct Id<const TAG: u64>(u128);

impl<const TAG: u64> View for Id<TAG> {
    type V = u128;

    closed spec fn view(&self) -> u128 {
        self.0
    }
}

impl<const TAG: u64> Id<TAG> {
    /// The identifier of the row `id`. Opened under the same cipher it names
    /// that row for its own tag, and no row for any other tag; so does its
    /// text.
    pub fn new(id: i64, cipher: &IdCipher) -> (res: Self)
        ensures
            res@ == sealed(TAG, id, cipher@),
            forall|expected_tag: u64| #[trigger]
                opened(expected_tag, res@, cipher@) == if expected_tag == TAG {
                    Ok::<i64, DecodeError>(id)
                } else {
                    Err(DecodeError)
                },
            forall|expected_tag: u64| #[trigger]
                row_of(expected_tag, encoded(res@ as nat), cipher@) == if expected_tag == TAG {
                    Ok::<i64, DecodeError>(id)
                } else {
                    Err(DecodeError)
                },
    {
        let value = encrypt(TAG, id, cipher);
        proof {
            lemma_decoded_encoded(value);
        }
        Id(value)
    }

    /// The row that the identifier names, unless it was made for another
    /// resource kind or under another key.
    pub fn sql_id(self, cipher: &IdCipher) -> (row: Result<i64, DecodeError>)
        ensures
            row == opened(TAG, self@, cipher@),
            row matches Ok(r) ==> self@ == sealed(TAG, r, cipher@),
    {
        decrypt(TAG, self.0, cipher)
    }

    /// The row that the identifier names; one that names none is reported
    /// as `error`.
    pub fn sql_id_or(self, cipher: &IdCipher, error: Error) -> (row: Result<i64, Error>)
        ensures
            row == row_or(TAG, self@, cipher@, error),
            row matches Ok(r) ==> self@ == sealed(TAG, r, cipher@),
    {
        match decrypt(TAG, self.0, cipher) {
            Ok(row) => Ok(row),
            Err(_) => Err(error),
        }
    }

    /// The text of the identifier. Parsing it gives the identifier back.
    pub fn to_string(&self) -> (text: String)
        ensures
            text@ == encoded(self@ as nat),
            decoded(text@) == Ok::<u128, DecodeError>(self@),
    {
        proof {
            lemma_decoded_encoded(self.0);
        }
        encode(self.0)
    }

    /// The identifier that a text names, if all its characters are letters of
    /// the alphabet.
    pub fn from_str(s: &str) -> (res: Result<Self, DecodeError>)
        ensures
            match res {
                Ok(id) => decoded(s@) == Ok::<u128, DecodeError>(id@),
                Err(e) => decoded(s@) == Err::<u128, DecodeError>(e),
            },
    {
        match decode(s) {
            Ok(value) => Ok(Id(value)),
            Err(e) => Err(e),
        }
    }
}

} // verus!
