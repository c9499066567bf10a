//! Signing up: a new account from an email address and a password.

use vstd::prelude::*;
use crate::auth::claims::is_random_uuid;
use crate::auth::email::valid_email;
use crate::auth::password::{hash_password, hashable, hashed, password_fault, verified};
use crate::auth::{Credentials, Email, Name, Password, PasswordHash, RefreshSecret, Role};
use crate::error::{Error, ErrorChain};
use crate::state::AppState;

verus! {

/// An account to be stored.
pub struct NewUser {
    pub name: Name,
    pub email: Email,
    pub password_hash: PasswordHash,
    pub refresh_secret: RefreshSecret,
    pub role: Role,
}

/// Why storage did not take a new row.
#[derive(Clone, Copy, Debug, PartialEq, Eq, Structural)]
pub enum SaveError {
    /// A row with the same unique value exists.
    UniqueViolation,
    /// Anything else.
    Other,
}

/// Whether an account is the new one for the credentials: a client without
/// a name, with the email address of the credentials, a hash that the
/// password is verified against, and a fresh random refresh secret.
pub open spec fn new_account(user: NewUser, credentials: Credentials, state: AppState) -> bool {
    &&& user.email@ == credentials.email@
    &&& user.name@ == Seq::<char>::empty()
    &&& user.role == Role::Client
    &&& exists|salt: Seq<char>| #[trigger]
        hashed(credentials.password@, salt, state.hasher_config) == Ok::<Seq<char>, Error>(
            user.password_hash@,
        )
    &&& verified(credentials.password@, Some(user.password_hash@), state.hasher_config) == Ok::<
        (),
        Error,
    >(())
    &&& is_random_uuid(user.refresh_secret@)
}

/// Makes the account for new credentials. An unsupported email address is
/// refused first, then a password that breaks a rule. Credentials that pass
/// always get their account where the password can be hashed under the
/// settings; where it cannot, hashing fails inside the service.
pub fn sign_up(credentials: Credentials, state: &AppState) -> (res: Result<NewUser, Error>)
    ensures
        match res {
            Ok(user) => valid_email(credentials.email@) && password_fault(credentials.password@)
                is None && new_account(user, credentials, *state),
            Err(e) => if !valid_email(credentials.email@) {
                e == Error::Validation("unsupported email address")
            } else {
                match password_fault(credentials.password@) {
                    Some(reason) => e == Error::Validation(reason),
                    None => !hashable(credentials.password@, state.hasher_config) && exists|
                        salt: Seq<char>,
                    | #[trigger]
                        hashed(credentials.password@, salt, state.hasher_config) == Err::<
                            Seq<char>,
                            Error,
                        >(e),
                }
            },
        },
{
    let ghost given = credentials;
    let Credentials { email, password } = credentials;
    let email = match Email::new(email) {
        Ok(email) => email,
        Err(e) => {
            return Err(e);
        },
    };
    let password = match Password::new(password) {
        Ok(password) => password,
        Err(e) => {
            return Err(e);
        },
    };
    let password_hash = match hash_password(&password, state.hasher_config.clone()) {
        Ok(hash) => hash,
        Err(e) => {
            return Err(e);
        },
    };
    let refresh_secret = RefreshSecret::new();
    Ok(NewUser { name: Name::default(), email, password_hash, refresh_secret, role: Role::Client })
}

/// What storing a new account comes to: an account with the same email
/// address exists, or storage failed, or the account is stored.
pub fn save_user(stored: Result<(), SaveError>) -> (res: Result<(), Error>)
    ensures
        res == match stored {
            Ok(()) => Ok::<(), Error>(()),
            Err(SaveError::UniqueViolation) => Err(Error::AccountExists),
            Err(SaveError::Other) => Err(Error::Internal(ErrorChain { context: "execute sql" })),
        },
{
    match stored {
        Ok(()) => Ok(()),
        Err(SaveError::UniqueViolation) => Err(Error::AccountExists),
        Err(SaveError::Other) => Err(Error::internal("execute sql")),
    }
}

} // verus!
