//! Passwords: the rules a new password must meet, and hashing and checking
//! with Argon2 under the service's key.

use vstd::prelude::*;
use vstd::string::StringSliceAdditionalSpecFns;
use vstd::utf8::encode_utf8;
use argon2::password_hash::rand_core::OsRng;
use argon2::password_hash::{PasswordHasher, PasswordVerifier, SaltString};
use argon2::{Algorithm, Argon2, Params, Version};
use crate::config::{Argon2Params, HasherConfig};
use crate::error::Error;
use crate::text::{
    byte_len, chars_of, is_lowercase, is_numeric, is_uppercase, lowercase, numeric,
    uppercase,
};

verus! {

pub type UnvalidatedPassword = String;

/// Whether some character of `s` is a lowercase one.
pub open spec fn has_lowercase(s: Seq<char>) -> bool {
    exists|i: int| 0 <= i < s.len() && lowercase(#[trigger] s[i])
}

/// Whether some character of `s` is an uppercase one.
pub open spec fn has_uppercase(s: Seq<char>) -> bool {
    exists|i: int| 0 <= i < s.len() && uppercase(#[trigger] s[i])
}

/// Whether some character of `s` is a number.
pub open spec fn has_number(s: Seq<char>) -> bool {
    exists|i: int| 0 <= i < s.len() && numeric(#[trigger] s[i])
}

/// The first rule that a password breaks, if it breaks one: at least 8
/// characters, a lowercase character, an uppercase character, a number.
pub open spec fn password_fault(password: Seq<char>) -> Option<&'static str> {
    if password.len() < 8 {
        Some("password must be at least 8 characters long")
    } else if !has_lowercase(password) {
        Some("password must contain at least one lowercase character")
    } else if !has_uppercase(password) {
        Some("password must contain at least one uppercase character")
    } else if !has_number(password) {
        Some("password must contain at least one number")
    } else {
        None
    }
}

/// Checks a password against the rules and names the first one it breaks.
pub fn validate_password(password: &str) -> (res: Result<(), &'static str>)
    ensures
        res == match password_fault(password@) {
            Some(reason) => Err::<(), &'static str>(reason),
            None => Ok(()),
        },
{
    let chars = chars_of(password);
    if chars.len() < 8 {
        return Err("password must be at least 8 characters long");
    }
    let mut lower: bool = false;
    let mut upper: bool = false;
    let mut number: bool = false;
    let mut i: usize = 0;
    while i < chars.len()
        invariant
            i <= chars.len(),
            lower == has_lowercase(chars@.take(i as int)),
            upper == has_uppercase(chars@.take(i as int)),
            number == has_number(chars@.take(i as int)),
        decreases chars.len() - i,
    {
        let c = chars[i];
        let ghost before = chars@.take(i as int);
        let ghost after = chars@.take(i + 1);
        proof {
            assert(after[i as int] == c);
            assert forall|j: int| 0 <= j < i implies before[j] == after[j] by {}
            if has_lowercase(before) {
                let j = choose|j: int| 0 <= j < before.len() && lowercase(#[trigger] before[j]);
                assert(lowercase(after[j]));
            }
            if has_uppercase(before) {
                let j = choose|j: int| 0 <= j < before.len() && uppercase(#[trigger] before[j]);
                assert(uppercase(after[j]));
            }
            if has_number(before) {
                let j = choose|j: int| 0 <= j < before.len() && numeric(#[trigger] before[j]);
                assert(numeric(after[j]));
            }
            if has_lowercase(after) && !lowercase(c) {
                let j = choose|j: int| 0 <= j < after.len() && lowercase(#[trigger] after[j]);
                assert(lowercase(before[j]));
            }
            if has_uppercase(after) && !uppercase(c) {
                let j = choose|j: int| 0 <= j < after.len() && uppercase(#[trigger] after[j]);
                assert(uppercase(before[j]));
            }
            if has_number(after) && !numeric(c) {
                let j = choose|j: int| 0 <= j < after.len() && numeric(#[trigger] after[j]);
                assert(numeric(before[j]));
            }
        }
        lower = lower || is_lowercase(c);
        upper = upper || is_uppercase(c);
        number = number || is_numeric(c);
        i += 1;
    }
    assert(chars@.take(chars@.len() as int) =~= password@);
    if !lower {
        Err("password must contain at least one lowercase character")
    } else if !upper {
        Err("password must contain at least one uppercase character")
    } else if !number {
        Err("password must contain at least one number")
    } else {
        Ok(())
    }
}

/// A password that meets the rules.
pub struct Password(UnvalidatedPassword);

impl View for Password {
    type V = Seq<char>;

    closed spec fn view(&self) -> Seq<char> {
        self.0@
    }
}

impl Password {
    #[verifier::type_invariant]
    spec fn meets_rules(self) -> bool {
        password_fault(self.0@) is None
    }

    /// Accepts a password that meets the rules; rejects another with the
    /// first rule it breaks.
    pub fn new(value: UnvalidatedPassword) -> (res: Result<Self, Error>)
        ensures
            match res {
                Ok(password) => password_fault(value@) is None && password@ == value@,
                Err(e) => password_fault(value@) matches Some(reason) && e == Error::Validation(
                    reason,
                ),
            },
    {
        match validate_password(value.as_str()) {
            Ok(()) => Ok(Password(value)),
            Err(reason) => Err(Error::Validation(reason)),
        }
    }
}

/// The hash of a password as it is stored: a PHC string.
pub struct PasswordHash(String);

impl View for PasswordHash {
    type V = Seq<char>;

    closed spec fn view(&self) -> Seq<char> {
        self.0@
    }
}

impl PasswordHash {
    /// The stored hash with the given text.
    pub fn new(text: String) -> (hash: Self)
        ensures
            hash@ == text@,
    {
        PasswordHash(text)
    }

    /// The text to store.
    pub fn as_str(&self) -> (text: &str)
        ensures
            text@ == self@,
    {
        self.0.as_str()
    }

    /// What a log may show of a stored hash: always the same text, which
    /// holds nothing of the hash.
    pub fn debug(&self) -> (text: String)
        ensures
            text@ == "PasswordHash(...)"@,
    {
        "PasswordHash(...)".to_owned()
    }
}

impl Clone for PasswordHash {
    /// A copy with the same text.
    fn clone(&self) -> (hash: Self)
        ensures
            hash@ == self@,
    {
        PasswordHash(self.0.clone())
    }
}

/// What checking a password against a stored hash comes to.
#[derive(Clone, Copy, Debug, PartialEq, Eq, Structural)]
pub enum Verdict {
    /// The stored text is no PHC string.
    Malformed,
    /// The password does not give the stored hash.
    Mismatch,
    /// The password gives the stored hash.
    Match,
}

/// The PHC string that Argon2id, version 19, makes of a password under a
/// salt, a key and costs; none where it refuses one of them.
pub uninterp spec fn argon2_hash(
    password: Seq<u8>,
    salt: Seq<char>,
    secret: Seq<u8>,
    params: Argon2Params,
) -> Option<Seq<char>>;

/// What Argon2 under a key finds when it checks a password against a stored
/// text, with the algorithm, salt and costs that the text names.
pub uninterp spec fn argon2_verify(password: Seq<u8>, hash: Seq<char>, secret: Seq<u8>) -> Verdict;

/// The parameters that a stored text names, in their order, each with its
/// number where its value is a decimal one; none where the text is no PHC
/// string. A text may name a parameter more than once.
pub uninterp spec fn phc_params(hash: Seq<char>) -> Option<Seq<(Seq<char>, Option<u32>)>>;

/// The parameters of a stored text as they are handed out.
pub open spec fn params_view(params: Seq<(String, Option<u32>)>) -> Seq<(Seq<char>, Option<u32>)> {
    Seq::new(params.len(), |i: int| (params[i].0@, params[i].1))
}

/// Whether a parameter, if it is the degree of parallelism `p`, lies in the
/// range that Argon2 takes: up to 2^24 - 1.
pub open spec fn lanes_in_range(param: (Seq<char>, Option<u32>)) -> bool {
    param.0 == "p"@ ==> match param.1 {
        Some(p) => p <= 0xff_ffff,
        None => true,
    }
}

/// Whether every degree of parallelism that a stored text names lies in the
/// range that Argon2 takes.
pub open spec fn lanes_fit(hash: Seq<char>) -> bool {
    match phc_params(hash) {
        Some(params) => forall|i: int|
            0 <= i < params.len() ==> lanes_in_range(#[trigger] params[i]),
        None => true,
    }
}

/// The number of bytes that `Salt::decode_b64` reads from the text of a
/// salt; none where the text is no B64.
pub uninterp spec fn salt_length(salt: Seq<char>) -> Option<nat>;

/// Whether Argon2 takes a text as a salt: at most 64 characters that are the
/// B64 of at least 8 bytes.
pub open spec fn good_salt(salt: Seq<char>) -> bool {
    salt.len() <= 64 && match salt_length(salt) {
        Some(n) => 8 <= n,
        None => false,
    }
}

/// Whether a PHC string can hold a hash of this length: 10 to 64 bytes, or
/// the 32 bytes that are made where none is set.
pub open spec fn output_fits(length: Option<usize>) -> bool {
    match length {
        Some(n) => 10 <= n <= 64,
        None => true,
    }
}

/// Whether a password can be hashed under the settings: a hasher can be
/// made, the hash has a length that a PHC string can hold, and the password
/// has less than 2^32 bytes. Under a good salt such a password always gets
/// its hash.
pub open spec fn hashable(password: Seq<char>, config: HasherConfig) -> bool {
    config.usable() && output_fits(config.params.output_length) && encode_utf8(password).len()
        <= 0xffff_ffff
}

/// `SaltString::generate` with the operating system's random numbers: a fresh
/// salt, the 22 characters that are the B64 of 16 random bytes.
#[verifier::external_body]
fn fresh_salt() -> (salt: String)
    ensures
        salt@.len() == 22,
        salt_length(salt@) == Some(16nat),
{
    SaltString::generate(&mut OsRng).as_str().to_owned()
}

/// `Argon2::hash_password` of a hasher made by `Argon2::new_with_secret` from
/// the key and `Params::new` of the costs, with the default algorithm and
/// version. The result is the PHC string of the hash, or none where the
/// salt, the output length or the length of the password is refused, and on
/// no other ground; `Argon2::verify_password` under the same
/// key accepts the password for that string, which names the degree of
/// parallelism of the costs and no other.
#[verifier::external_body]
fn argon2_hash_password(password: &[u8], salt: &str, config: &HasherConfig) -> (hash: Option<
    String,
>)
    requires
        config.usable(),
    ensures
        match hash {
            Some(text) => argon2_hash(password@, salt@, config.secret(), config.params) == Some(
                text@,
            ) && argon2_verify(password@, text@, config.secret()) == Verdict::Match && lanes_fit(
                text@,
            ),
            None => argon2_hash(password@, salt@, config.secret(), config.params) is None,
        },
        output_fits(config.params.output_length) && password@.len() <= 0xffff_ffff && good_salt(
            salt@,
        ) ==> hash is Some,
{
    let p = config.params;
    let costs = Params::new(p.memory_size, p.iterations, p.parallelism_factor, p.output_length);
    let key = config.key.as_bytes();
    let hasher =
        Argon2::new_with_secret(key, Algorithm::default(), Version::default(), costs.ok()?).ok()?;
    let salt = SaltString::from_b64(salt).ok()?;
    let hash = hasher.hash_password(password, &salt).ok()?;
    Some(hash.to_string())
}

/// `ParamsString::iter` on the stored text parsed by `PasswordHash::new`,
/// with `Value::decimal` of each value: the parameters that the text names.
#[verifier::external_body]
fn stored_params(hash: &str) -> (params: Option<Vec<(String, Option<u32>)>>)
    ensures
        match params {
            Some(v) => phc_params(hash@) == Some(params_view(v@)),
            None => phc_params(hash@) is None,
        },
{
    let parsed = argon2::PasswordHash::new(hash).ok()?;
    let mut params = Vec::new();
    for (name, value) in parsed.params.iter() {
        params.push((name.as_str().to_owned(), value.decimal().ok()));
    }
    Some(params)
}

/// Whether every degree of parallelism among the parameters lies in the
/// range that Argon2 takes.
fn lanes_are_in_range(params: &Vec<(String, Option<u32>)>) -> (fit: bool)
    ensures
        fit == forall|i: int|
            0 <= i < params@.len() ==> lanes_in_range(#[trigger] params_view(params@)[i]),
{
    let name = "p".to_owned();
    let mut i: usize = 0;
    while i < params.len()
        invariant
            i <= params.len(),
            name@ == "p"@,
            forall|j: int| 0 <= j < i ==> lanes_in_range(#[trigger] params_view(params@)[j]),
        decreases params.len() - i,
    {
        let param = &params[i];
        assert(params_view(params@)[i as int] == (param.0@, param.1));
        if param.0 == name {
            match param.1 {
                Some(p) => {
                    if p > 0xff_ffff {
                        return false;
                    }
                },
                None => {},
            }
        }
        i += 1;
    }
    true
}

/// Whether every degree of parallelism that a stored text names lies in the
/// range that Argon2 takes.
pub fn stored_lanes_fit(hash: &str) -> (fit: bool)
    ensures
        fit == lanes_fit(hash@),
{
    match stored_params(hash) {
        Some(params) => {
            let fit = lanes_are_in_range(&params);
            proof {
                let named = params_view(params@);
                let stored = phc_params(hash@)->0;
                assert(stored == named);
                if fit {
                    assert forall|i: int| 0 <= i < stored.len() implies lanes_in_range(
                        #[trigger] stored[i],
                    ) by {
                        assert(lanes_in_range(named[i]));
                    }
                }
                if lanes_fit(hash@) {
                    assert forall|i: int| 0 <= i < named.len() implies lanes_in_range(
                        #[trigger] named[i],
                    ) by {
                        assert(lanes_in_range(stored[i]));
                    }
                }
            }
            fit
        },
        None => true,
    }
}

/// `Argon2::verify_password` of a hasher made as for hashing, on the stored
/// text parsed by `PasswordHash::new`: whether the text is a PHC string, and
/// whether hashing the password as the text says gives the hash in it. A
/// degree of parallelism beyond the range of Argon2 is kept from it.
#[verifier::external_body]
fn argon2_verify_password(password: &[u8], hash: &str, config: &HasherConfig) -> (verdict: Verdict)
    requires
        config.usable(),
        lanes_fit(hash@),
    ensures
        verdict == argon2_verify(password@, hash@, config.secret()),
{
    let p = config.params;
    let Ok(parsed) = argon2::PasswordHash::new(hash) else { return Verdict::Malformed };
    let costs = Params::new(p.memory_size, p.iterations, p.parallelism_factor, p.output_length);
    let Ok(costs) = costs else { return Verdict::Mismatch };
    let key = config.key.as_bytes();
    let hasher = Argon2::new_with_secret(key, Algorithm::default(), Version::default(), costs);
    let Ok(hasher) = hasher else { return Verdict::Mismatch };
    match hasher.verify_password(password, &parsed) {
        Ok(()) => Verdict::Match,
        Err(_) => Verdict::Mismatch,
    }
}

/// Whether a hasher can be made from the settings.
pub fn hasher(config: &HasherConfig) -> (res: Result<(), Error>)
    ensures
        res == if config.usable() {
            Ok::<(), Error>(())
        } else {
            Err(Error::Internal(crate::error::ErrorChain { context: "instantiate hasher" }))
        },
{
    if config.params.is_usable() && byte_len(config.key.as_str()) <= 0xffff_ffff {
        Ok(())
    } else {
        Err(Error::internal("instantiate hasher"))
    }
}

/// What hashing a password under a given salt returns: the stored hash that
/// Argon2 makes, or an internal error where it makes none.
pub open spec fn hashed(password: Seq<char>, salt: Seq<char>, config: HasherConfig) -> Result<
    Seq<char>,
    Error,
> {
    if !config.usable() {
        Err(Error::Internal(crate::error::ErrorChain { context: "instantiate hasher" }))
    } else {
        match argon2_hash(encode_utf8(password), salt, config.secret(), config.params) {
            Some(text) => Ok(text),
            None => Err(Error::Internal(crate::error::ErrorChain { context: "hash password" })),
        }
    }
}

/// An unknown account is never verified, whatever the password.
pub proof fn lemma_unknown_account(password: Seq<char>, config: HasherConfig)
    ensures
        verified(password, None, config) is Err,
        config.usable() ==> verified(password, None, config) == Err::<(), Error>(
            Error::InvalidCredentials,
        ),
{
}

/// What checking a password against a stored hash returns. With no stored
/// hash the answer is never `Ok`. A stored text that is no PHC string, or
/// names a degree of parallelism beyond the range of Argon2, is a failure
/// inside the service.
pub open spec fn verified(password: Seq<char>, hash: Option<Seq<char>>, config: HasherConfig) -> Result<
    (),
    Error,
> {
    if !config.usable() {
        Err(Error::Internal(crate::error::ErrorChain { context: "instantiate hasher" }))
    } else {
        match hash {
            Some(text) => if !lanes_fit(text) {
                Err(Error::Internal(crate::error::ErrorChain { context: "parse password hash" }))
            } else {
                match argon2_verify(encode_utf8(password), text, config.secret()) {
                    Verdict::Match => Ok(()),
                    Verdict::Mismatch => Err(Error::InvalidCredentials),
                    Verdict::Malformed => Err(
                        Error::Internal(
                            crate::error::ErrorChain { context: "parse password hash" },
                        ),
                    ),
                }
            },
            None => Err(Error::InvalidCredentials),
        }
    }
}

/// Hashes a password under a given salt. A password that can be hashed gets
/// its hash under every good salt, and a hash that comes out is one that the
/// password is verified against.
pub fn hash_password_with_salt(password: &str, salt: &str, config: &HasherConfig) -> (res: Result<
    PasswordHash,
    Error,
>)
    ensures
        match res {
            Ok(hash) => hashed(password@, salt@, *config) == Ok::<Seq<char>, Error>(hash@)
                && verified(password@, Some(hash@), *config) == Ok::<(), Error>(()),
            Err(e) => hashed(password@, salt@, *config) == Err::<Seq<char>, Error>(e),
        },
        hashable(password@, *config) && good_salt(salt@) ==> res is Ok,
{
    match hasher(config) {
        Err(e) => Err(e),
        Ok(()) => match argon2_hash_password(password.as_bytes(), salt, config) {
            Some(text) => Ok(PasswordHash(text)),
            None => Err(Error::internal("hash password")),
        },
    }
}

/// Hashes a password under a fresh salt.
fn hash_bytes(password: &str, config: &HasherConfig) -> (res: Result<PasswordHash, Error>)
    ensures
        match res {
            Ok(hash) => exists|salt: Seq<char>|
                #[trigger] hashed(password@, salt, *config) == Ok::<Seq<char>, Error>(hash@),
            Err(e) => exists|salt: Seq<char>|
                #[trigger] hashed(password@, salt, *config) == Err::<Seq<char>, Error>(e),
        },
        res matches Ok(hash) ==> verified(password@, Some(hash@), *config) == Ok::<(), Error>(()),
        hashable(password@, *config) ==> res is Ok,
{
    let salt = fresh_salt();
    hash_password_with_salt(password, salt.as_str(), config)
}

/// Hashes a password for storing, under a fresh salt. Whatever salt was
/// drawn, a password that can be hashed gets its hash, and a hash that comes
/// out is one that the password is verified against.
pub fn hash_password(password: &Password, config: HasherConfig) -> (res: Result<
    PasswordHash,
    Error,
>)
    ensures
        match res {
            Ok(hash) => (exists|salt: Seq<char>|
                #[trigger] hashed(password@, salt, config) == Ok::<Seq<char>, Error>(hash@))
                && verified(password@, Some(hash@), config) == Ok::<(), Error>(()),
            Err(e) => exists|salt: Seq<char>|
                #[trigger] hashed(password@, salt, config) == Err::<Seq<char>, Error>(e),
        },
        hashable(password@, config) ==> res is Ok,
{
    hash_bytes(password.0.as_str(), &config)
}

/// Checks a password against the stored hash of an account, or against none
/// where the account is unknown. With no stored hash a hash is computed all
/// the same and thrown away, so that an unknown account answers as slowly as
/// a wrong password does.
pub fn verify_password(
    password: &UnvalidatedPassword,
    hash: Option<&PasswordHash>,
    config: HasherConfig,
) -> (res: Result<(), Error>)
    ensures
        res == verified(
            password@,
            match hash {
                Some(h) => Some(h@),
                None => None,
            },
            config,
        ),
{
    match hasher(&config) {
        Err(e) => Err(e),
        Ok(()) => match hash {
            Some(hash) => if !stored_lanes_fit(hash.0.as_str()) {
                Err(Error::internal("parse password hash"))
            } else {
                match argon2_verify_password(
                    password.as_str().as_bytes(),
                    hash.0.as_str(),
                    &config,
                ) {
                    Verdict::Match => Ok(()),
                    Verdict::Mismatch => Err(Error::InvalidCredentials),
                    Verdict::Malformed => Err(Error::internal("parse password hash")),
                }
            },
            None => {
                let _ = hash_bytes(password.as_str(), &config);
                Err(Error::InvalidCredentials)
            },
        },
    }
}

} // verus!
