//! Signing in: a password for a pair of tokens.

use vstd::prelude::*;
use crate::auth::password::{verified, verify_password, PasswordHash};
use crate::auth::claims::current_timestamp;
use crate::auth::token::{
    access_issued, create_access_token_at, create_refresh_token_at, refresh_issued, RefreshSecret,
};
use crate::auth::{Credentials, TokenPair, UserId, USER_TAG};
use crate::error::{Error, ErrorChain};
use crate::id::{sealed, Id};
use crate::state::AppState;

verus! {

/// What storage holds of the account with an email address.
pub struct DbUser {
    pub id: i64,
    pub password_hash: PasswordHash,
    pub refresh_secret: RefreshSecret,
}

/// The stored hash of the account that was found, if one was.
pub open spec fn stored_hash(user: Option<DbUser>) -> Option<Seq<char>> {
    match user {
        Some(u) => Some(u.password_hash@),
        None => None,
    }
}

/// Whether a pair of tokens is the one issued at the time `now` for the
/// account in `row` and its refresh secret: an access token over the
/// account's identifier and a refresh token over the secret.
pub open spec fn pair_issued(pair: TokenPair, row: i64, secret: u128, state: AppState, now: u64) -> bool {
    &&& access_issued(
        pair.access_token@,
        state.jwt_config.secret(),
        sealed(USER_TAG, row, state.id_cipher@),
        state.jwt_config.access_ttl,
        now,
    )
    &&& refresh_issued(
        pair.refresh_token@,
        state.jwt_config.secret(),
        secret,
        state.jwt_config.refresh_ttl,
        now,
    )
}

/// Whether both tokens issued at the time `now` expire at a second that a
/// token can name.
pub open spec fn expiries_fit(state: AppState, now: u64) -> bool {
    now + state.jwt_config.access_ttl <= u64::MAX && now + state.jwt_config.refresh_ttl
        <= u64::MAX
}

/// Whether `res` is the answer to signing in at the time `now` with what
/// storage found. A password that is not verified against the stored hash,
/// or against none where no account was found, gets the error of the
/// verification. A verified one gets the pair of tokens issued at `now`: an
/// access token over the account's identifier and a refresh token over its
/// stored secret; or an internal error where an expiry does not fit.
pub open spec fn signed_in(
    res: Result<TokenPair, Error>,
    password: Seq<char>,
    user: Option<DbUser>,
    state: AppState,
    now: u64,
) -> bool {
    match verified(password, stored_hash(user), state.hasher_config) {
        Err(e) => res == Err::<TokenPair, Error>(e),
        Ok(()) => match user {
            None => false,
            Some(u) => if expiries_fit(state, now) {
                res matches Ok(pair) && pair_issued(pair, u.id, u.refresh_secret@, state, now)
            } else {
                res == Err::<TokenPair, Error>(
                    Error::Internal(ErrorChain { context: "encode jwt" }),
                )
            },
        },
    }
}

/// Checks the password against what storage found.
fn check_password(credentials: &Credentials, user: &Option<DbUser>, state: &AppState) -> (res:
    Result<(), Error>)
    ensures
        res == verified(credentials.password@, stored_hash(*user), state.hasher_config),
        res is Ok ==> user is Some,
{
    match user {
        Some(u) => verify_password(
            &credentials.password,
            Some(&u.password_hash),
            state.hasher_config.clone(),
        ),
        None => verify_password(&credentials.password, None, state.hasher_config.clone()),
    }
}

/// Issues the pair of tokens of an account at the time `now`.
fn issue_pair(user: &DbUser, state: &AppState, now: u64) -> (res: Result<TokenPair, Error>)
    requires
        expiries_fit(*state, now),
    ensures
        res matches Ok(pair) && pair_issued(pair, user.id, user.refresh_secret@, *state, now),
{
    let id = UserId::new(user.id, &state.id_cipher);
    let access_token = match create_access_token_at(id, &state.jwt_config, now) {
        Ok(token) => token,
        Err(e) => {
            return Err(e);
        },
    };
    let refresh_token = match create_refresh_token_at(
        user.refresh_secret,
        &state.jwt_config,
        now,
    ) {
        Ok(token) => token,
        Err(e) => {
            return Err(e);
        },
    };
    Ok(TokenPair { access_token, refresh_token })
}

/// Signs in at the time `now` with what storage found under the email
/// address of the credentials. Verified credentials always get their pair of
/// tokens.
pub fn sign_in_at(credentials: Credentials, user: Option<DbUser>, state: &AppState, now: u64) -> (res:
    Result<TokenPair, Error>)
    requires
        expiries_fit(*state, now),
    ensures
        signed_in(res, credentials.password@, user, *state, now),
{
    match check_password(&credentials, &user, state) {
        Err(e) => Err(e),
        Ok(()) => match user {
            None => Err(Error::InvalidCredentials),
            Some(u) => issue_pair(&u, state, now),
        },
    }
}

/// Signs in with what storage found under the email address of the
/// credentials. The password is checked first; the clock is read for
/// verified credentials only, and both tokens are issued at that time.
pub fn sign_in(credentials: Credentials, user: Option<DbUser>, state: &AppState) -> (res: Result<
    TokenPair,
    Error,
>)
    ensures
        exists|now: u64| #[trigger] signed_in(res, credentials.password@, user, *state, now),
{
    match check_password(&credentials, &user, state) {
        Err(e) => {
            let res = Err(e);
            assert(signed_in(res, credentials.password@, user, *state, 0));
            res
        },
        Ok(()) => match user {
            None => Err(Error::InvalidCredentials),
            Some(u) => {
                let now = current_timestamp();
                let res = if now > u64::MAX - state.jwt_config.access_ttl || now > u64::MAX
                    - state.jwt_config.refresh_ttl {
                    Err(Error::internal("encode jwt"))
                } else {
                    issue_pair(&u, state, now)
                };
                assert(signed_in(res, credentials.password@, user, *state, now));
                res
            },
        },
    }
}

} // verus!
