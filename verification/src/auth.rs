//! Accounts: sign-up, sign-in, bearer tokens and permissions.

use vstd::prelude::*;
use crate::id::Id;

pub mod claims;
pub mod email;
pub mod name;
pub mod password;
pub mod role;
pub mod sign_in;
pub mod sign_up;
pub mod token;
pub mod user;

pub use email::{Email, UnvalidatedEmail};
pub use name::{Name, UnvalidatedName};
pub use password::{Password, PasswordHash, UnvalidatedPassword};
pub use role::Role;
pub use sign_in::{sign_in, sign_in_at};
pub use sign_up::sign_up;
pub use token::{parse_access_token, AccessToken, RefreshSecret, RefreshToken};
pub use user::{check_permission, get_all_users, get_user, update_user};

verus! {

/// The tag of accounts: the name `user`.
pub const USER_TAG: u64 = 0x7265_7375;

/// The identifier of an account.
pub type UserId = Id<USER_TAG>;

/// What a client sends to sign up or to sign in.
pub struct Credentials {
    pub email: UnvalidatedEmail,
    pub password: UnvalidatedPassword,
}

/// An account as it is shown.
pub struct User {
    pub id: UserId,
    pub name: Name,
    pub email: Email,
}

/// What a client sends to change an account.
pub struct UpdateUser {
    pub name: UnvalidatedName,
}

/// The tokens that signing in gives.
pub struct TokenPair {
    pub access_token: AccessToken,
    pub refresh_token: RefreshToken,
}

} // verus!
