//! What the service decides for its HTTP front: who asks, which status an
//! error has, and how the tokens travel.

use vstd::prelude::*;
use crate::auth::token::{access_of, parse_access_token};
use crate::auth::{TokenPair, UserId};
use crate::config::JwtConfig;
use crate::error::Error;

verus! {

/// The name of the cookie with the access token.
pub const ACCESS_TOKEN: &'static str = "access-token";

/// The name of the cookie with the refresh token.
pub const REFRESH_TOKEN: &'static str = "refresh-token";

/// The HTTP status of an error.
pub open spec fn status_of(error: Error) -> u16 {
    match error {
        Error::Validation(_) => 422,
        Error::AccountExists => 409,
        Error::LoggedOff => 401,
        Error::InvalidCredentials => 401,
        Error::Unauthorized => 403,
        Error::NotFound => 404,
        Error::Internal(_) => 500,
    }
}

/// The HTTP status of an error.
pub fn status_code(error: &Error) -> (code: u16)
    ensures
        code == status_of(*error),
{
    match error {
        Error::Validation(_) => 422,
        Error::AccountExists => 409,
        Error::LoggedOff | Error::InvalidCredentials => 401,
        Error::Unauthorized => 403,
        Error::NotFound => 404,
        Error::Internal(_) => 500,
    }
}

/// Who sends a request, by the cookie with the access token: without the
/// cookie, or with one that is no good access token now, the caller must
/// sign in.
pub fn authenticate(cookie: Option<&str>, config: &JwtConfig) -> (res: Result<UserId, Error>)
    ensures
        match cookie {
            None => res matches Err(e) && e == Error::LoggedOff,
            Some(token) => exists|now: u64|
                match res {
                    Ok(id) => #[trigger] access_of(token@, config.secret(), now) == Ok::<
                        u128,
                        Error,
                    >(id@),
                    Err(e) => e == Error::LoggedOff && access_of(token@, config.secret(), now)
                        is Err,
                },
        },
{
    match cookie {
        None => Err(Error::LoggedOff),
        Some(token) => match parse_access_token(token, config) {
            Ok(id) => Ok(id),
            Err(_) => Err(Error::LoggedOff),
        },
    }
}

/// A cookie that carries a token: kept from scripts, and sent with requests
/// from other sites too.
pub struct TokenCookie {
    pub name: &'static str,
    pub value: String,
    pub path: &'static str,
    pub http_only: bool,
    pub same_site_none: bool,
}

/// The cookies that carry a pair of tokens: the access token for every path,
/// the refresh token for the path that refreshes only.
pub fn token_cookies(pair: TokenPair) -> (cookies: (TokenCookie, TokenCookie))
    ensures
        cookies.0.name == ACCESS_TOKEN,
        cookies.0.value == pair.access_token,
        cookies.0.path == "/",
        cookies.0.http_only && cookies.0.same_site_none,
        cookies.1.name == REFRESH_TOKEN,
        cookies.1.value == pair.refresh_token,
        cookies.1.path == "/auth/refresh",
        cookies.1.http_only && cookies.1.same_site_none,
{
    (
        TokenCookie {
            name: ACCESS_TOKEN,
            value: pair.access_token,
            path: "/",
            http_only: true,
            same_site_none: true,
        },
        TokenCookie {
            name: REFRESH_TOKEN,
            value: pair.refresh_token,
            path: "/auth/refresh",
            http_only: true,
            same_site_none: true,
        },
    )
}

} // verus!
