//! The block cipher that seals identifiers: AES-128 on single blocks under a
//! key shared by the whole process.

use vstd::prelude::*;
use aes::cipher::{BlockDecrypt, BlockEncrypt, KeyInit};
use aes::Aes128;

verus! {

/// What AES-128 encryption under `key` makes of one block of sixteen bytes.
pub uninterp spec fn aes128_encrypt(key: Seq<u8>, block: Seq<u8>) -> Seq<u8>;

/// What AES-128 decryption under `key` makes of one block of sixteen bytes.
pub uninterp spec fn aes128_decrypt(key: Seq<u8>, block: Seq<u8>) -> Seq<u8>;

/// The key under which identifiers are sealed.
#[derive(Clone, Copy)]
pub struct IdCipher {
    key: [u8; 16],
}

impl View for IdCipher {
    type V = Seq<u8>;

    closed spec fn view(&self) -> Seq<u8> {
        self.key@
    }
}

impl IdCipher {
    /// A cipher for the given key.
    pub fn new(key: [u8; 16]) -> (cipher: Self)
        ensures
            cipher@ == key@,
    {
        IdCipher { key }
    }
}

/// `Aes128::encrypt_block` under a cipher made by `Aes128::new` from the
/// key. The result is the AES-128 encryption of the block, and decryption
/// under the same key turns it back into the block.
#[verifier::external_body]
pub(crate) fn encrypt_block(cipher: &IdCipher, block: [u8; 16]) -> (out: [u8; 16])
    ensures
        out@ == aes128_encrypt(cipher@, block@),
        aes128_decrypt(cipher@, out@) == block@,
{
    let cipher = Aes128::new((&cipher.key).into());
    let mut bytes = block.into();
    cipher.encrypt_block(&mut bytes);
    bytes.into()
}

/// `Aes128::decrypt_block` under a cipher made by `Aes128::new` from the
/// key. The result is the AES-128 decryption of the block, and encryption
/// under the same key turns it back into the block.
#[verifier::external_body]
pub(crate) fn decrypt_block(cipher: &IdCipher, block: [u8; 16]) -> (out: [u8; 16])
    ensures
        out@ == aes128_decrypt(cipher@, block@),
        aes128_encrypt(cipher@, out@) == block@,
{
    let cipher = Aes128::new((&cipher.key).into());
    let mut bytes = block.into();
    cipher.decrypt_block(&mut bytes);
    bytes.into()
}

} // verus!
