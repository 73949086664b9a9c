//! The call into `jsonwebtoken` that token checking makes. Whether a
//! token decodes depends on the clock (expiry), so only what holds of every
//! successful decoding is stated: the token carries a valid HS256
//! signature for the secret, and its `role` entry is the token's own.
use vstd::prelude::*;

verus! {

/// `jsonwebtoken::errors::Error`, carried through opaquely.
#[verifier::external_type_specification]
#[verifier::external_body]
pub struct ExJwtError(jsonwebtoken::errors::Error);

/// The `role` entry of decoded token claims, by the kind of JSON value it
/// holds.
pub enum RoleField {
    /// The claims have no `role` entry.
    Missing,
    /// The entry is `null`.
    Null,
    /// The entry is a string.
    Text(String),
    /// The entry is a boolean, number, array or object.
    Other,
}

/// Whether `token` is a JWT with an `HS256` header whose HMAC-SHA256
/// signature over header and payload verifies with the UTF-8 bytes of
/// `secret`, as `jsonwebtoken` checks it.
pub uninterp spec fn hs256_signature_ok(token: Seq<char>, secret: Seq<char>) -> bool;

/// The `role` entry of the JSON claims in the payload of `token`.
pub uninterp spec fn token_role_entry(token: Seq<char>) -> RoleField;

/// Calls `jsonwebtoken::decode` (claims read as a JSON value) with an HMAC
/// key made from the UTF-8 bytes of `secret` (`DecodingKey::from_secret`)
/// and `Validation::default()` (HS256 only, `exp` required and checked
/// against the clock), and returns the claims' `role` entry (via
/// `serde_json::Value::get`). `decode` verifies the signature before it
/// looks at the claims, so a success means the signature verified; the
/// entry is then read from the token's own payload. Whether the token is
/// expired, and so whether the call succeeds, is not stated.
#[verifier::external_body]
pub(crate) fn decode_hs256(token: &str, secret: &str) -> (r: Result<RoleField, jsonwebtoken::errors::Error>)
    ensures
        r is Ok ==> hs256_signature_ok(token@, secret@),
        r matches Ok(f) ==> f == token_role_entry(token@),
{
    let key = jsonwebtoken::DecodingKey::from_secret(secret.as_bytes());
    let data = jsonwebtoken::decode::<serde_json::Value>(token, &key, &jsonwebtoken::Validation::default())?;
    Ok(match data.claims.get("role") {
        None => RoleField::Missing,
        Some(serde_json::Value::Null) => RoleField::Null,
        Some(serde_json::Value::Bool(_)) => RoleField::Other,
        Some(serde_json::Value::Number(_)) => RoleField::Other,
        Some(serde_json::Value::String(s)) => RoleField::Text(s.clone()),
        Some(serde_json::Value::Array(_)) => RoleField::Other,
        Some(serde_json::Value::Object(_)) => RoleField::Other,
    })
}

/// Formats a `jsonwebtoken` error with its `Display` impl. Nothing is
/// claimed of the text.
#[verifier::external_body]
pub(crate) fn jwt_error_text(e: &jsonwebtoken::errors::Error) -> String {
    format!("{e}")
}

} // verus!
