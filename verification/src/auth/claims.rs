//! Signed claims: the JSON object inside a token, signing and checking with
//! HMAC-SHA256, the clock, and the text of UUIDs.

use vstd::prelude::*;
use jsonwebtoken::{DecodingKey, EncodingKey, Header, Validation};

verus! {

/// `serde_json::Map`, a JSON object; nothing of its inside is known here.
#[verifier::external_type_specification]
#[verifier::external_body]
#[verifier::reject_recursive_types(K)]
#[verifier::reject_recursive_types(V)]
pub struct ExJsonMap<K, V>(serde_json::Map<K, V>);

/// `serde_json::Value`, a JSON value; nothing of its inside is known here.
#[verifier::external_type_specification]
#[verifier::external_body]
pub struct ExJsonValue(serde_json::Value);

/// A JSON object that holds claims.
pub type ClaimMap = serde_json::Map<String, serde_json::Value>;

/// The claims that the service reads: the numbers and the texts, by name.
pub struct ClaimSet {
    pub numbers: Map<Seq<char>, u64>,
    pub texts: Map<Seq<char>, Seq<char>>,
}

/// The names of all entries of a JSON object.
pub uninterp spec fn json_names(m: ClaimMap) -> Set<Seq<char>>;

/// The entries of a JSON object whose value is an integer from 0 to
/// 2^64 - 1.
pub uninterp spec fn json_numbers(m: ClaimMap) -> Map<Seq<char>, u64>;

/// The entries of a JSON object whose value is a string.
pub uninterp spec fn json_texts(m: ClaimMap) -> Map<Seq<char>, Seq<char>>;

/// The number and text claims of a JSON object.
pub open spec fn claim_set(m: ClaimMap) -> ClaimSet {
    ClaimSet { numbers: json_numbers(m), texts: json_texts(m) }
}

/// The number and text claims that `jsonwebtoken::decode` reads from a token
/// under `key`, with the check of the expiry switched off and no claim
/// required. It reads none unless the token has three parts, a header for
/// HS256, a signature that is the HMAC-SHA256 of the first two parts under
/// `key`, and a JSON object as its claims; and none where the object names an
/// audience, or gives a claim that JWT reserves a shape that cannot be read.
pub uninterp spec fn jwt_claims(token: Seq<char>, key: Seq<u8>) -> Option<ClaimSet>;

/// The text of a UUID: 32 lowercase hexadecimal digits in groups of 8, 4, 4,
/// 4 and 12 with hyphens between them, the highest byte first.
pub uninterp spec fn uuid_text(value: u128) -> Seq<char>;

/// The UUID that a text names in one of the forms that `Uuid::parse_str`
/// reads.
pub uninterp spec fn uuid_value(text: Seq<char>) -> Option<u128>;

/// Whether every entry of a JSON object is a number or a text claim, the
/// names that JWT reserves for a number (`exp`, `nbf`) or for texts (`sub`,
/// `iss`) hold nothing else, and no audience (`aud`) is named.
pub open spec fn plain_claims(m: ClaimMap) -> bool {
    &&& json_names(m) == json_numbers(m).dom().union(json_texts(m).dom())
    &&& !json_texts(m).contains_key("exp"@)
    &&& !json_texts(m).contains_key("nbf"@)
    &&& !json_numbers(m).contains_key("sub"@)
    &&& !json_numbers(m).contains_key("iss"@)
    &&& !json_names(m).contains("aud"@)
}

/// `serde_json::Map::new`: an object without entries.
#[verifier::external_body]
pub(crate) fn new_claims() -> (m: ClaimMap)
    ensures
        json_names(m) == Set::<Seq<char>>::empty(),
        json_numbers(m).dom() == Set::<Seq<char>>::empty(),
        json_texts(m).dom() == Set::<Seq<char>>::empty(),
{
    serde_json::Map::new()
}

/// `serde_json::Map::insert` of a number: the entry of that name now holds
/// the number, and the other entries are unchanged.
#[verifier::external_body]
pub(crate) fn put_number(m: &mut ClaimMap, name: &str, value: u64)
    ensures
        json_names(*final(m)) == json_names(*old(m)).insert(name@),
        json_numbers(*final(m)) == json_numbers(*old(m)).insert(name@, value),
        json_texts(*final(m)) == json_texts(*old(m)).remove(name@),
{
    m.insert(name.to_owned(), serde_json::Value::from(value));
}

/// `serde_json::Map::insert` of a string: the entry of that name now holds
/// the text, and the other entries are unchanged.
#[verifier::external_body]
pub(crate) fn put_text(m: &mut ClaimMap, name: &str, value: &str)
    ensures
        json_names(*final(m)) == json_names(*old(m)).insert(name@),
        json_numbers(*final(m)) == json_numbers(*old(m)).remove(name@),
        json_texts(*final(m)) == json_texts(*old(m)).insert(name@, value@),
{
    m.insert(name.to_owned(), serde_json::Value::from(value));
}

/// `serde_json::Map::get`, then `Value::as_u64`: the number under a name, if
/// the entry is there and holds one.
#[verifier::external_body]
pub(crate) fn number(m: &ClaimMap, name: &str) -> (value: Option<u64>)
    ensures
        value == if json_numbers(*m).contains_key(name@) {
            Some(json_numbers(*m)[name@])
        } else {
            None
        },
{
    let value = m.get(name)?;
    value.as_u64()
}

/// `serde_json::Map::get`, then `Value::as_str`: the text under a name, if
/// the entry is there and holds one.
#[verifier::external_body]
pub(crate) fn text(m: &ClaimMap, name: &str) -> (value: Option<String>)
    ensures
        match value {
            Some(t) => json_texts(*m).contains_key(name@) && json_texts(*m)[name@] == t@,
            None => !json_texts(*m).contains_key(name@),
        },
{
    let value = m.get(name)?;
    Some(value.as_str()?.to_owned())
}

/// `jsonwebtoken::encode` with the default header (HS256) and an HMAC key
/// made by `EncodingKey::from_secret`. With such a key and claims that are
/// numbers and texts it does not fail, and the token is one that
/// `jsonwebtoken::decode` under the same key reads the same claims from.
#[verifier::external_body]
pub(crate) fn jwt_encode(claims: &ClaimMap, key: &[u8]) -> (token: Option<String>)
    requires
        plain_claims(*claims),
    ensures
        token is Some,
        token matches Some(t) ==> jwt_claims(t@, key@) == Some(claim_set(*claims)),
{
    jsonwebtoken::encode(&Header::default(), claims, &EncodingKey::from_secret(key)).ok()
}

/// `jsonwebtoken::decode` for HS256 with an HMAC key made by
/// `DecodingKey::from_secret`, with the check of `exp` switched off and no
/// claim required: the claims of a token with a good signature and without
/// an audience.
#[verifier::external_body]
pub(crate) fn jwt_decode(token: &str, key: &[u8]) -> (claims: Option<ClaimMap>)
    ensures
        match claims {
            Some(m) => jwt_claims(token@, key@) == Some(claim_set(m)),
            None => jwt_claims(token@, key@) is None,
        },
{
    let mut validation = Validation::default();
    validation.validate_exp = false;
    validation.required_spec_claims.clear();
    let key = DecodingKey::from_secret(key);
    let data = jsonwebtoken::decode::<ClaimMap>(token, &key, &validation).ok()?;
    Some(data.claims)
}

/// `jsonwebtoken::get_current_timestamp`: the seconds since 1970 on the
/// system's clock.
#[verifier::external_body]
pub(crate) fn current_timestamp() -> (now: u64) {
    jsonwebtoken::get_current_timestamp()
}

/// Whether a number is a UUID of version 4 in the variant of RFC 4122.
pub open spec fn is_random_uuid(value: u128) -> bool {
    value & 0xf000_c000_0000_0000_0000 == 0x4000_8000_0000_0000_0000
}

/// `Uuid::new_v4`, as a number: a random UUID of version 4.
#[verifier::external_body]
pub(crate) fn random_uuid() -> (value: u128)
    ensures
        is_random_uuid(value),
{
    uuid::Uuid::new_v4().as_u128()
}

/// `Uuid::from_u128`, written out by its `Display`: the hyphenated lowercase
/// text, which `Uuid::parse_str` reads back as the same UUID.
#[verifier::external_body]
pub(crate) fn uuid_to_text(value: u128) -> (text: String)
    ensures
        text@ == uuid_text(value),
        uuid_value(text@) == Some(value),
{
    uuid::Uuid::from_u128(value).to_string()
}

/// `Uuid::parse_str`, as a number.
#[verifier::external_body]
pub(crate) fn uuid_from_text(text: &str) -> (value: Option<u128>)
    ensures
        value == uuid_value(text@),
{
    let id = uuid::Uuid::parse_str(text).ok()?;
    Some(id.as_u128())
}

} // verus!
