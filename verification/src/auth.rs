//! Request authentication: the error a refused request gets, the
//! authorization header as the authenticators read it, and the
//! authenticators that allow everything, deny everything, or accept any
//! valid JWT.
use vstd::prelude::*;
use crate::jwt::{decode_hs256, hs256_signature_ok, jwt_error_text};
use crate::text::{chars_of, concat2, has_prefix, starts_with_chars};
use vstd::string::StrSliceExecFns;

verus! {

/// Why a request was refused.
#[derive(Debug)]
pub enum ServiceError {
    /// The caller did not prove who they are.
    Unauthorized(String),
    /// The caller is known but may not do this.
    PermissionDenied(String),
}

/// The `Authorization` header of a request, as far as the authenticators
/// read it.
#[derive(Debug, Clone)]
pub enum AuthorizationHeader {
    /// No such header.
    Missing,
    /// The header is present but is not visible ASCII text.
    Unreadable,
    /// The header's text.
    Text(String),
}

/// The prefix of a bearer credential.
pub open spec fn bearer_prefix() -> Seq<char> {
    "Bearer "@
}

/// The token of a `Bearer` header, if the header is readable and carries
/// one.
pub open spec fn bearer_token(h: AuthorizationHeader) -> Option<Seq<char>> {
    match h {
        AuthorizationHeader::Text(s) => if has_prefix(s@, bearer_prefix()) {
            Some(s@.skip(bearer_prefix().len() as int))
        } else {
            None
        },
        _ => None,
    }
}

/// `r` is the refusal `Unauthorized(message)`.
pub open spec fn is_unauthorized(r: Result<(), ServiceError>, message: Seq<char>) -> bool {
    r matches Err(ServiceError::Unauthorized(m)) && m@ == message
}

/// `r` is the refusal `PermissionDenied(message)`.
pub open spec fn is_denied(r: Result<(), ServiceError>, message: Seq<char>) -> bool {
    r matches Err(ServiceError::PermissionDenied(m)) && m@ == message
}

/// Extracts the token of a `Bearer` header.
pub fn bearer_token_of(h: &AuthorizationHeader) -> (r: Option<String>)
    ensures
        r matches Some(t) ==> bearer_token(*h) == Some(t@),
        r is None ==> bearer_token(*h) is None,
{
    match h {
        AuthorizationHeader::Text(s) => {
            let chars = chars_of(s.as_str());
            let prefix = chars_of("Bearer ");
            if starts_with_chars(&chars, &prefix) {
                let n = s.as_str().unicode_len();
                let token = s.as_str().substring_char(prefix.len(), n);
                Some(token.to_owned())
            } else {
                None
            }
        },
        _ => None,
    }
}

/// Authenticates a request for a permission of the form
/// `module:resource:action`. Applications supply their own.
pub trait Authenticator {
    /// `Ok(())` if the request may proceed, otherwise why it may not.
    fn check(&self, authorization: &AuthorizationHeader, permission: &str) -> Result<(), ServiceError>;
}

/// Allows every request.
pub struct AllowAll;

impl Authenticator for AllowAll {
    fn check(&self, authorization: &AuthorizationHeader, permission: &str) -> (r: Result<(), ServiceError>)
        ensures
            r is Ok,
    {
        Ok(())
    }
}

/// Denies every request.
pub struct DenyAll;

impl Authenticator for DenyAll {
    fn check(&self, authorization: &AuthorizationHeader, permission: &str) -> (r: Result<(), ServiceError>)
        ensures
            is_denied(r, "access denied"@),
    {
        Err(ServiceError::PermissionDenied("access denied".to_owned()))
    }
}

/// The outcome of a JWT check once the token was decoded to `decoded`:
/// any valid token passes, a decoding failure is unauthorized.
pub open spec fn jwt_outcome(decoded: Result<(), String>, r: Result<(), ServiceError>) -> bool {
    match decoded {
        Ok(()) => r is Ok,
        Err(e) => is_unauthorized(r, "invalid token: "@ + e@),
    }
}

/// Accepts any request that carries a valid, unexpired HMAC-SHA256 JWT as a
/// `Bearer` credential; the permission is not looked at.
pub struct JwtAuthenticator {
    secret: String,
}

impl JwtAuthenticator {
    /// The secret that tokens must be signed with.
    pub closed spec fn secret(&self) -> Seq<char> {
        self.secret@
    }

    /// An authenticator for tokens signed with `secret`.
    pub fn new(secret: &str) -> (r: Self)
        ensures
            r.secret() == secret@,
    {
        JwtAuthenticator { secret: secret.to_owned() }
    }

    /// The outcome once the token was decoded to `decoded` (its error text
    /// if decoding failed).
    pub fn decide(decoded: Result<(), String>) -> (r: Result<(), ServiceError>)
        ensures
            jwt_outcome(decoded, r),
    {
        match decoded {
            Ok(()) => Ok(()),
            Err(e) => Err(ServiceError::Unauthorized(concat2("invalid token: ", e.as_str()))),
        }
    }
}

impl Authenticator for JwtAuthenticator {
    fn check(&self, authorization: &AuthorizationHeader, permission: &str) -> (r: Result<(), ServiceError>)
        ensures
            *authorization is Missing ==> is_unauthorized(r, "missing Authorization header"@),
            *authorization is Unreadable ==> is_unauthorized(r, "invalid Authorization header"@),
            *authorization is Text && bearer_token(*authorization) is None ==> is_unauthorized(
                r,
                "missing Bearer prefix"@,
            ),
            bearer_token(*authorization) matches Some(t) ==> exists|d: Result<(), String>|
                jwt_outcome(d, r) && (d is Ok ==> hs256_signature_ok(t, self.secret())),
            r is Ok ==> (bearer_token(*authorization) matches Some(t) && hs256_signature_ok(
                t,
                self.secret(),
            )),
    {
        match authorization {
            AuthorizationHeader::Missing => {
                Err(ServiceError::Unauthorized("missing Authorization header".to_owned()))
            },
            AuthorizationHeader::Unreadable => {
                Err(ServiceError::Unauthorized("invalid Authorization header".to_owned()))
            },
            AuthorizationHeader::Text(_) => {
                match bearer_token_of(authorization) {
                    None => Err(ServiceError::Unauthorized("missing Bearer prefix".to_owned())),
                    Some(token) => {
                        let decoded = match decode_hs256(token.as_str(), self.secret.as_str()) {
                            Ok(_) => Ok(()),
                            Err(e) => Err(jwt_error_text(&e)),
                        };
                        let r = JwtAuthenticator::decide(decoded);
                        assert(jwt_outcome(decoded, r));
                        r
                    },
                }
            },
        }
    }
}

} // verus!
