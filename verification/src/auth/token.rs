//! Bearer tokens: short-lived access tokens that carry an account's
//! identifier, and long-lived refresh tokens that carry its refresh secret.

use vstd::prelude::*;
use crate::auth::claims::{
    claim_set, current_timestamp, is_random_uuid, json_names, json_numbers, json_texts,
    jwt_claims, jwt_decode, jwt_encode, new_claims, number, plain_claims, put_number, put_text,
    random_uuid, text, uuid_from_text, uuid_text, uuid_to_text, uuid_value, ClaimMap, ClaimSet,
};
use crate::auth::UserId;
use crate::config::JwtConfig;
use crate::error::{Error, ErrorChain};
use crate::id::base52::{decoded, encoded, DecodeError};
use crate::id::Id;

verus! {

pub type AccessToken = String;

pub type RefreshToken = String;

/// The secret of an account that proves the right to a new access token: a
/// UUID, kept as its 128 bits.
#[derive(Clone, Copy, PartialEq, Eq)]
pub struct RefreshSecret(u128);

impl View for RefreshSecret {
    type V = u128;

    closed spec fn view(&self) -> u128 {
        self.0
    }
}

impl RefreshSecret {
    /// A fresh random secret: a UUID of version 4.
    pub fn new() -> (secret: Self)
        ensures
            is_random_uuid(secret@),
    {
        RefreshSecret(random_uuid())
    }

    /// The secret with the given bits.
    pub fn from_u128(value: u128) -> (secret: Self)
        ensures
            secret@ == value,
    {
        RefreshSecret(value)
    }

    /// The bits of the secret.
    pub fn as_u128(&self) -> (value: u128)
        ensures
            value == self@,
    {
        self.0
    }

    /// What a log may show of a secret: always the same text, which holds
    /// nothing of the secret.
    pub fn debug(&self) -> (text: String)
        ensures
            text@ == "RefreshSecret()"@,
    {
        "RefreshSecret()".to_owned()
    }
}

/// What an access token says: when it was issued, when it expires, and whose
/// it is.
#[derive(Clone, Copy)]
pub struct AccessClaims {
    pub iat: u64,
    pub exp: u64,
    pub id: UserId,
}

/// What a refresh token says: when it was issued, when it expires, and the
/// refresh secret.
#[derive(Clone, Copy)]
pub struct RefreshClaims {
    pub iat: u64,
    pub exp: u64,
    pub secret: RefreshSecret,
}

/// The claims of an access token: `iat` and `exp` as numbers, `id` as the
/// text of the identifier.
pub open spec fn access_claim_set(id: u128, iat: u64, exp: u64) -> ClaimSet {
    ClaimSet {
        numbers: Map::<Seq<char>, u64>::empty().insert("iat"@, iat).insert("exp"@, exp),
        texts: Map::<Seq<char>, Seq<char>>::empty().insert("id"@, encoded(id as nat)),
    }
}

/// The claims of a refresh token: `iat` and `exp` as numbers, `secret` as the
/// text of the UUID.
pub open spec fn refresh_claim_set(secret: u128, iat: u64, exp: u64) -> ClaimSet {
    ClaimSet {
        numbers: Map::<Seq<char>, u64>::empty().insert("iat"@, iat).insert("exp"@, exp),
        texts: Map::<Seq<char>, Seq<char>>::empty().insert("secret"@, uuid_text(secret)),
    }
}

/// The identifier and the expiry that claims give as those of an access
/// token: none unless `iat` and `exp` are numbers and `id` is the text of an
/// identifier.
pub open spec fn claimed_access(claims: ClaimSet) -> Option<(u128, u64)> {
    if claims.numbers.contains_key("iat"@) && claims.numbers.contains_key("exp"@)
        && claims.texts.contains_key("id"@) {
        match decoded(claims.texts["id"@]) {
            Ok(id) => Some((id, claims.numbers["exp"@])),
            Err(_) => None,
        }
    } else {
        None
    }
}

/// The secret and the expiry that claims give as those of a refresh token:
/// none unless `iat` and `exp` are numbers and `secret` is the text of a UUID.
pub open spec fn claimed_refresh(claims: ClaimSet) -> Option<(u128, u64)> {
    if claims.numbers.contains_key("iat"@) && claims.numbers.contains_key("exp"@)
        && claims.texts.contains_key("secret"@) {
        match uuid_value(claims.texts["secret"@]) {
            Some(secret) => Some((secret, claims.numbers["exp"@])),
            None => None,
        }
    } else {
        None
    }
}

/// Whom a text names as an access token at the time `now`: the account in its
/// claims, if the signature is good under `key`, the claims are those of an
/// access token and `now` is before the expiry. Every failure is the same:
/// the caller must sign in.
pub open spec fn access_of(token: Seq<char>, key: Seq<u8>, now: u64) -> Result<u128, Error> {
    match jwt_claims(token, key) {
        Some(claims) => match claimed_access(claims) {
            Some((id, exp)) => if now < exp {
                Ok(id)
            } else {
                Err(Error::LoggedOff)
            },
            None => Err(Error::LoggedOff),
        },
        None => Err(Error::LoggedOff),
    }
}

/// The secret that a text holds as a refresh token at the time `now`, on the
/// same conditions as for an access token.
pub open spec fn refresh_of(token: Seq<char>, key: Seq<u8>, now: u64) -> Result<u128, Error> {
    match jwt_claims(token, key) {
        Some(claims) => match claimed_refresh(claims) {
            Some((secret, exp)) => if now < exp {
                Ok(secret)
            } else {
                Err(Error::LoggedOff)
            },
            None => Err(Error::LoggedOff),
        },
        None => Err(Error::LoggedOff),
    }
}

/// The names of the claims differ from each other and from the names that
/// JWT reserves.
proof fn lemma_claim_names()
    ensures
        "iat"@ != "exp"@,
        "id"@ != "secret"@,
        "id"@ != "iat"@,
        "id"@ != "exp"@,
        "id"@ != "nbf"@,
        "secret"@ != "iat"@,
        "secret"@ != "exp"@,
        "secret"@ != "nbf"@,
        "iat"@ != "sub"@,
        "iat"@ != "iss"@,
        "iat"@ != "aud"@,
        "exp"@ != "sub"@,
        "exp"@ != "iss"@,
        "exp"@ != "aud"@,
        "id"@ != "aud"@,
        "secret"@ != "aud"@,
{
    reveal_strlit("iat");
    reveal_strlit("exp");
    reveal_strlit("id");
    reveal_strlit("secret");
    reveal_strlit("nbf");
    reveal_strlit("sub");
    reveal_strlit("iss");
    reveal_strlit("aud");
    assert("id"@.len() == 2 && "secret"@.len() == 6);
    assert("iat"@.len() == 3 && "exp"@.len() == 3 && "nbf"@.len() == 3 && "aud"@.len() == 3);
    assert("iat"@[0] != "exp"@[0]);
    assert("iat"@[0] != "sub"@[0]);
    assert("iat"@[1] != "iss"@[1]);
    assert("iat"@[0] != "aud"@[0]);
    assert("exp"@[0] != "sub"@[0]);
    assert("exp"@[0] != "iss"@[0]);
    assert("exp"@[0] != "aud"@[0]);
}

/// The claims of an access token name their account and expiry, and are not
/// those of a refresh token.
pub proof fn lemma_access_claims(id: u128, iat: u64, exp: u64)
    ensures
        claimed_access(access_claim_set(id, iat, exp)) == Some((id, exp)),
        claimed_refresh(access_claim_set(id, iat, exp)) is None,
{
    lemma_claim_names();
    crate::id::base52::lemma_decoded_encoded(id);
}

/// An access token is good for its account before its expiry and for nobody
/// from then on, and it is never good as a refresh token. One that expires
/// when it is issued is good at no time from its issue on.
pub proof fn lemma_access_token_life(
    token: Seq<char>,
    key: Seq<u8>,
    id: u128,
    iat: u64,
    exp: u64,
    now: u64,
)
    requires
        jwt_claims(token, key) == Some(access_claim_set(id, iat, exp)),
    ensures
        access_of(token, key, now) == if now < exp {
            Ok::<u128, Error>(id)
        } else {
            Err(Error::LoggedOff)
        },
        refresh_of(token, key, now) == Err::<u128, Error>(Error::LoggedOff),
        exp == iat && now >= iat ==> access_of(token, key, now) == Err::<u128, Error>(
            Error::LoggedOff,
        ),
{
    lemma_access_claims(id, iat, exp);
}

/// A refresh token whose secret's text reads back as the secret is good for
/// that secret before its expiry and for none from then on, and it is never
/// good as an access token.
pub proof fn lemma_refresh_token_life(
    token: Seq<char>,
    key: Seq<u8>,
    secret: u128,
    iat: u64,
    exp: u64,
    now: u64,
)
    requires
        jwt_claims(token, key) == Some(refresh_claim_set(secret, iat, exp)),
        uuid_value(uuid_text(secret)) == Some(secret),
    ensures
        refresh_of(token, key, now) == if now < exp {
            Ok::<u128, Error>(secret)
        } else {
            Err(Error::LoggedOff)
        },
        access_of(token, key, now) == Err::<u128, Error>(Error::LoggedOff),
        exp == iat && now >= iat ==> refresh_of(token, key, now) == Err::<u128, Error>(
            Error::LoggedOff,
        ),
{
    lemma_claim_names();
}

/// Signs claims with the service's key.
fn encode_claims(claims: &ClaimMap, config: &JwtConfig) -> (res: Result<String, Error>)
    requires
        plain_claims(*claims),
    ensures
        res matches Ok(token) && jwt_claims(token@, config.secret()) == Some(claim_set(*claims)),
{
    match jwt_encode(claims, config.key.as_str().as_bytes()) {
        Some(token) => Ok(token),
        None => Err(Error::internal("encode jwt")),
    }
}

/// Reads the claims of a token signed with the service's key.
fn parse_claims(token: &str, config: &JwtConfig) -> (res: Result<ClaimMap, Error>)
    ensures
        match res {
            Ok(claims) => jwt_claims(token@, config.secret()) == Some(claim_set(claims)),
            Err(e) => jwt_claims(token@, config.secret()) is None && e == Error::LoggedOff,
        },
{
    match jwt_decode(token, config.key.as_str().as_bytes()) {
        Some(claims) => Ok(claims),
        None => Err(Error::LoggedOff),
    }
}

/// The JSON object with `iat` and `exp`.
fn timed_claims(iat: u64, exp: u64) -> (claims: ClaimMap)
    ensures
        json_names(claims) == Set::<Seq<char>>::empty().insert("iat"@).insert("exp"@),
        json_numbers(claims) == Map::<Seq<char>, u64>::empty().insert("iat"@, iat).insert(
            "exp"@,
            exp,
        ),
        json_texts(claims) == Map::<Seq<char>, Seq<char>>::empty(),
{
    let mut claims = new_claims();
    put_number(&mut claims, "iat", iat);
    put_number(&mut claims, "exp", exp);
    proof {
        assert(json_numbers(claims) =~= Map::<Seq<char>, u64>::empty().insert("iat"@, iat).insert(
            "exp"@,
            exp,
        ));
        assert(json_texts(claims) =~= Map::<Seq<char>, Seq<char>>::empty());
    }
    claims
}

impl AccessClaims {
    /// The claims as a JSON object.
    fn to_claims(&self) -> (claims: ClaimMap)
        ensures
            plain_claims(claims),
            claim_set(claims) == access_claim_set(self.id@, self.iat, self.exp),
    {
        let mut claims = timed_claims(self.iat, self.exp);
        let id = self.id.to_string();
        put_text(&mut claims, "id", id.as_str());
        proof {
            lemma_claim_names();
            let target = access_claim_set(self.id@, self.iat, self.exp);
            assert(json_numbers(claims) =~= target.numbers);
            assert(json_texts(claims) =~= target.texts);
            assert(json_names(claims) =~= json_numbers(claims).dom().union(
                json_texts(claims).dom(),
            ));
        }
        claims
    }

    /// The claims of an access token in a JSON object, if it holds them.
    fn from_claims(claims: &ClaimMap) -> (res: Option<Self>)
        ensures
            match res {
                Some(c) => claimed_access(claim_set(*claims)) == Some((c.id@, c.exp)),
                None => claimed_access(claim_set(*claims)) is None,
            },
    {
        let iat = number(claims, "iat");
        let exp = number(claims, "exp");
        let id = text(claims, "id");
        match (iat, exp, id) {
            (Some(iat), Some(exp), Some(id)) => match Id::from_str(id.as_str()) {
                Ok(id) => Some(AccessClaims { iat, exp, id }),
                Err(_) => None,
            },
            _ => None,
        }
    }
}

impl RefreshClaims {
    /// The claims as a JSON object.
    fn to_claims(&self) -> (claims: ClaimMap)
        ensures
            plain_claims(claims),
            claim_set(claims) == refresh_claim_set(self.secret@, self.iat, self.exp),
            uuid_value(uuid_text(self.secret@)) == Some(self.secret@),
    {
        let mut claims = timed_claims(self.iat, self.exp);
        let secret = uuid_to_text(self.secret.0);
        put_text(&mut claims, "secret", secret.as_str());
        proof {
            lemma_claim_names();
            let target = refresh_claim_set(self.secret@, self.iat, self.exp);
            assert(json_numbers(claims) =~= target.numbers);
            assert(json_texts(claims) =~= target.texts);
            assert(json_names(claims) =~= json_numbers(claims).dom().union(
                json_texts(claims).dom(),
            ));
        }
        claims
    }

    /// The claims of a refresh token in a JSON object, if it holds them.
    fn from_claims(claims: &ClaimMap) -> (res: Option<Self>)
        ensures
            match res {
                Some(c) => claimed_refresh(claim_set(*claims)) == Some((c.secret@, c.exp)),
                None => claimed_refresh(claim_set(*claims)) is None,
            },
    {
        let iat = number(claims, "iat");
        let exp = number(claims, "exp");
        let secret = text(claims, "secret");
        match (iat, exp, secret) {
            (Some(iat), Some(exp), Some(secret)) => match uuid_from_text(secret.as_str()) {
                Some(value) => Some(RefreshClaims { iat, exp, secret: RefreshSecret(value) }),
                None => None,
            },
            _ => None,
        }
    }
}

/// Issues an access token for an account at the time `now`; one is always
/// issued. The token
/// expires `access_ttl` seconds later; until then it names the account, from
/// then on nobody, and it is never good as a refresh token.
pub fn create_access_token_at(id: UserId, config: &JwtConfig, now: u64) -> (res: Result<
    AccessToken,
    Error,
>)
    requires
        now + config.access_ttl <= u64::MAX,
    ensures
        res matches Ok(token) && access_issued(
            token@,
            config.secret(),
            id@,
            config.access_ttl,
            now,
        ),
{
    let claims = AccessClaims { iat: now, exp: now + config.access_ttl, id };
    let res = encode_claims(&claims.to_claims(), config);
    proof {
        if let Ok(token) = &res {
            let key = config.secret();
            assert forall|at: u64| #[trigger]
                access_of(token@, key, at) == if at < now + config.access_ttl {
                    Ok::<u128, Error>(id@)
                } else {
                    Err(Error::LoggedOff)
                } by {
                lemma_access_token_life(token@, key, id@, claims.iat, claims.exp, at);
            }
            assert forall|at: u64| #[trigger]
                refresh_of(token@, key, at) == Err::<u128, Error>(Error::LoggedOff) by {
                lemma_access_token_life(token@, key, id@, claims.iat, claims.exp, at);
            }
        }
    }
    res
}

/// Issues a refresh token for a secret at the time `now`; one is always
/// issued. The token expires
/// `refresh_ttl` seconds later; until then it holds the secret, from then on
/// none, and it is never good as an access token.
pub fn create_refresh_token_at(secret: RefreshSecret, config: &JwtConfig, now: u64) -> (res: Result<
    RefreshToken,
    Error,
>)
    requires
        now + config.refresh_ttl <= u64::MAX,
    ensures
        res matches Ok(token) && refresh_issued(
            token@,
            config.secret(),
            secret@,
            config.refresh_ttl,
            now,
        ),
{
    let claims = RefreshClaims { iat: now, exp: now + config.refresh_ttl, secret };
    let res = encode_claims(&claims.to_claims(), config);
    proof {
        if let Ok(token) = &res {
            let key = config.secret();
            assert forall|at: u64| #[trigger]
                refresh_of(token@, key, at) == if at < now + config.refresh_ttl {
                    Ok::<u128, Error>(secret@)
                } else {
                    Err(Error::LoggedOff)
                } by {
                lemma_refresh_token_life(token@, key, secret@, claims.iat, claims.exp, at);
            }
            assert forall|at: u64| #[trigger]
                access_of(token@, key, at) == Err::<u128, Error>(Error::LoggedOff) by {
                lemma_refresh_token_life(token@, key, secret@, claims.iat, claims.exp, at);
            }
        }
    }
    res
}

/// Whether a text is an access token for the account `id`, issued at the
/// time `now` to live for `ttl` seconds: its claims say so, and it is good
/// for the account until it expires and never as a refresh token.
pub open spec fn access_issued(token: Seq<char>, key: Seq<u8>, id: u128, ttl: u64, now: u64) -> bool {
    &&& now + ttl <= u64::MAX
    &&& jwt_claims(token, key) == Some(access_claim_set(id, now, (now + ttl) as u64))
    &&& forall|at: u64| #[trigger]
        access_of(token, key, at) == if at < now + ttl {
            Ok::<u128, Error>(id)
        } else {
            Err(Error::LoggedOff)
        }
    &&& forall|at: u64| #[trigger] refresh_of(token, key, at) == Err::<u128, Error>(Error::LoggedOff)
}

/// Whether a text is a refresh token for `secret`, issued at the time `now`
/// to live for `ttl` seconds: its claims say so, and it is good for the
/// secret until it expires and never as an access token.
pub open spec fn refresh_issued(
    token: Seq<char>,
    key: Seq<u8>,
    secret: u128,
    ttl: u64,
    now: u64,
) -> bool {
    &&& now + ttl <= u64::MAX
    &&& jwt_claims(token, key) == Some(refresh_claim_set(secret, now, (now + ttl) as u64))
    &&& forall|at: u64| #[trigger]
        refresh_of(token, key, at) == if at < now + ttl {
            Ok::<u128, Error>(secret)
        } else {
            Err(Error::LoggedOff)
        }
    &&& forall|at: u64| #[trigger] access_of(token, key, at) == Err::<u128, Error>(Error::LoggedOff)
}

/// What issuing an access token at the time `now` returns: the token, or an
/// internal error where its expiry would lie beyond the last second that a
/// token can name.
pub open spec fn access_granted(
    res: Result<AccessToken, Error>,
    key: Seq<u8>,
    id: u128,
    ttl: u64,
    now: u64,
) -> bool {
    if now + ttl <= u64::MAX {
        res matches Ok(token) && access_issued(token@, key, id, ttl, now)
    } else {
        res == Err::<AccessToken, Error>(Error::Internal(ErrorChain { context: "encode jwt" }))
    }
}

/// What issuing a refresh token at the time `now` returns: the token, or an
/// internal error where its expiry would lie beyond the last second that a
/// token can name.
pub open spec fn refresh_granted(
    res: Result<RefreshToken, Error>,
    key: Seq<u8>,
    secret: u128,
    ttl: u64,
    now: u64,
) -> bool {
    if now + ttl <= u64::MAX {
        res matches Ok(token) && refresh_issued(token@, key, secret, ttl, now)
    } else {
        res == Err::<RefreshToken, Error>(Error::Internal(ErrorChain { context: "encode jwt" }))
    }
}

/// Issues an access token for an account now: whatever the clock says, the
/// token is issued at that time, unless its expiry would lie beyond the last
/// second that a token can name.
pub fn create_access_token(id: UserId, config: &JwtConfig) -> (res: Result<AccessToken, Error>)
    ensures
        exists|now: u64| #[trigger] access_granted(res, config.secret(), id@, config.access_ttl, now),
{
    let now = current_timestamp();
    let res = if now > u64::MAX - config.access_ttl {
        Err(Error::internal("encode jwt"))
    } else {
        create_access_token_at(id, config, now)
    };
    assert(access_granted(res, config.secret(), id@, config.access_ttl, now));
    res
}

/// Issues a refresh token for a secret now: whatever the clock says, the
/// token is issued at that time, unless its expiry would lie beyond the last
/// second that a token can name.
pub fn create_refresh_token(secret: RefreshSecret, config: &JwtConfig) -> (res: Result<
    RefreshToken,
    Error,
>)
    ensures
        exists|now: u64| #[trigger]
            refresh_granted(res, config.secret(), secret@, config.refresh_ttl, now),
{
    let now = current_timestamp();
    let res = if now > u64::MAX - config.refresh_ttl {
        Err(Error::internal("encode jwt"))
    } else {
        create_refresh_token_at(secret, config, now)
    };
    assert(refresh_granted(res, config.secret(), secret@, config.refresh_ttl, now));
    res
}

/// Whom a token names as an access token at the time `now`.
pub fn parse_access_token_at(token: &str, config: &JwtConfig, now: u64) -> (res: Result<
    UserId,
    Error,
>)
    ensures
        match res {
            Ok(id) => access_of(token@, config.secret(), now) == Ok::<u128, Error>(id@),
            Err(e) => access_of(token@, config.secret(), now) == Err::<u128, Error>(e),
        },
{
    match parse_claims(token, config) {
        Err(e) => Err(e),
        Ok(claims) => match AccessClaims::from_claims(&claims) {
            Some(claims) if now < claims.exp => Ok(claims.id),
            _ => Err(Error::LoggedOff),
        },
    }
}

/// The secret that a token holds as a refresh token at the time `now`.
pub fn parse_refresh_token_at(token: &str, config: &JwtConfig, now: u64) -> (res: Result<
    RefreshSecret,
    Error,
>)
    ensures
        match res {
            Ok(secret) => refresh_of(token@, config.secret(), now) == Ok::<u128, Error>(secret@),
            Err(e) => refresh_of(token@, config.secret(), now) == Err::<u128, Error>(e),
        },
{
    match parse_claims(token, config) {
        Err(e) => Err(e),
        Ok(claims) => match RefreshClaims::from_claims(&claims) {
            Some(claims) if now < claims.exp => Ok(claims.secret),
            _ => Err(Error::LoggedOff),
        },
    }
}

/// Whom a token names as an access token now.
pub fn parse_access_token(token: &str, config: &JwtConfig) -> (res: Result<UserId, Error>)
    ensures
        exists|now: u64|
            match res {
                Ok(id) => #[trigger] access_of(token@, config.secret(), now) == Ok::<u128, Error>(
                    id@,
                ),
                Err(e) => access_of(token@, config.secret(), now) == Err::<u128, Error>(e),
            },
{
    let now = current_timestamp();
    parse_access_token_at(token, config, now)
}

/// The secret that a token holds as a refresh token now.
pub fn parse_refresh_token(token: &str, config: &JwtConfig) -> (res: Result<RefreshSecret, Error>)
    ensures
        exists|now: u64|
            match res {
                Ok(secret) => #[trigger] refresh_of(token@, config.secret(), now) == Ok::<
                    u128,
                    Error,
                >(secret@),
                Err(e) => refresh_of(token@, config.secret(), now) == Err::<u128, Error>(e),
            },
{
    let now = current_timestamp();
    parse_refresh_token_at(token, config, now)
}

} // verus!
