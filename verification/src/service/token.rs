//! The token codec: signs claims into a compact token and reads a token
//! back, with HMAC-SHA256 under a shared secret.

use crate::model::auth::{Claims, TokenClaims};
use crate::util::api_response::{Failure, ServiceError};
use vstd::prelude::*;

verus! {

/// The error of `jsonwebtoken`, known to the verifier as an opaque type.
#[verifier::external_type_specification]
#[verifier::external_body]
pub struct ExTokenError(jsonwebtoken::errors::Error);

/// The four claims as a token's payload holds them, each as far as it is
/// there with the right kind of value: integers for `sub`, `iat` and `exp`,
/// a text for `email`.
#[derive(Debug, PartialEq, Eq)]
pub struct Payload {
    pub sub: Option<i64>,
    pub email: Option<String>,
    pub iat: Option<i64>,
    pub exp: Option<i64>,
}

/// A payload as contracts speak of it.
pub struct Fields {
    pub sub: Option<i64>,
    pub email: Option<Seq<char>>,
    pub iat: Option<i64>,
    pub exp: Option<i64>,
}

impl View for Payload {
    type V = Fields;

    open spec fn view(&self) -> Fields {
        Fields {
            sub: self.sub,
            email: match self.email {
                Some(text) => Some(text@),
                None => None,
            },
            iat: self.iat,
            exp: self.exp,
        }
    }
}

/// The token that signing the four claims under `secret` gives.
pub uninterp spec fn signed_token(
    sub: i32,
    email: Seq<char>,
    iat: i64,
    exp: i64,
    secret: Seq<char>,
) -> Seq<char>;

/// What a token holds for someone who knows `secret`: the fields of its
/// payload, or `None` where the token is malformed, is not signed with
/// HMAC-SHA256 under `secret`, carries no usable expiry, or names an
/// audience.
pub uninterp spec fn token_payload(token: Seq<char>, secret: Seq<char>) -> Option<Fields>;

/// The payload that holds exactly the given claims.
pub open spec fn payload_of(claims: Claims) -> Fields {
    Fields {
        sub: Some(claims.sub as i64),
        email: Some(claims.email),
        iat: Some(claims.iat),
        exp: Some(claims.exp),
    }
}

/// The claims that a payload states, if it states all four and the subject
/// is a 32-bit id.
pub open spec fn claims_of(fields: Fields) -> Option<Claims> {
    if fields.sub is Some && fields.email is Some && fields.iat is Some && fields.exp is Some
        && i32::MIN <= fields.sub->0 <= i32::MAX {
        Some(
            Claims {
                sub: fields.sub->0 as i32,
                email: fields.email->0,
                iat: fields.iat->0,
                exp: fields.exp->0,
            },
        )
    } else {
        None
    }
}

/// Calls `jsonwebtoken::encode` with the default header (HS256, type JWT),
/// a payload object of the four claims, and `secret` as the HMAC key.
/// Trusted: with a secret as the key and HS256 in the header the call does
/// not fail, since integers and texts always serialise and an HMAC is
/// defined for every key and message; the result is the named token of
/// these arguments; and, as long as its expiry is not negative, it reads
/// back under the same secret as the payload that was signed.
#[verifier::external_body]
fn sign(claims: &TokenClaims, secret: &str) -> (token: Result<String, jsonwebtoken::errors::Error>)
    ensures
        token is Ok,
        token matches Ok(text) ==> text@ == signed_token(
            claims.sub,
            claims.email@,
            claims.iat,
            claims.exp,
            secret@,
        ),
        token matches Ok(text) ==> (claims.exp >= 0 ==> token_payload(text@, secret@) == Some(
            payload_of(claims@),
        )),
{
    let mut payload = serde_json::Map::new();
    payload.insert("sub".to_owned(), serde_json::Value::from(claims.sub));
    payload.insert("email".to_owned(), serde_json::Value::from(claims.email.as_str()));
    payload.insert("iat".to_owned(), serde_json::Value::from(claims.iat));
    payload.insert("exp".to_owned(), serde_json::Value::from(claims.exp));
    let key = jsonwebtoken::EncodingKey::from_secret(secret.as_bytes());
    jsonwebtoken::encode(&jsonwebtoken::Header::default(), &payload, &key)
}

/// Calls `jsonwebtoken::decode` with `secret` as the HMAC key and the
/// default validation (HS256 only, `exp` required, no audience accepted)
/// except that the expiry is not compared with the clock: that comparison
/// is made here, in `verify_at`. Trusted: the result is the named payload
/// of these arguments.
#[verifier::external_body]
fn read(token: &str, secret: &str) -> (payload: Option<Payload>)
    ensures
        match payload {
            Some(fields) => token_payload(token@, secret@) == Some(fields@),
            None => token_payload(token@, secret@) is None,
        },
{
    let mut validation = jsonwebtoken::Validation::default();
    validation.validate_exp = false;
    let key = jsonwebtoken::DecodingKey::from_secret(secret.as_bytes());
    let data = jsonwebtoken::decode::<serde_json::Value>(token, &key, &validation).ok()?;
    Some(Payload {
        sub: data.claims.get("sub").and_then(serde_json::Value::as_i64),
        email: data.claims.get("email").and_then(serde_json::Value::as_str).map(str::to_owned),
        iat: data.claims.get("iat").and_then(serde_json::Value::as_i64),
        exp: data.claims.get("exp").and_then(serde_json::Value::as_i64),
    })
}

/// The claims embedded in a token issued at `now` for `ttl` seconds, or
/// `None` where the expiry is past what a token can state.
pub open spec fn issued_claims(sub: i32, email: Seq<char>, ttl: u64, now: u64) -> Option<Claims> {
    if now + ttl <= i64::MAX {
        Some(Claims { sub, email, iat: now as i64, exp: (now + ttl) as i64 })
    } else {
        None
    }
}

/// Whether `token` is what issuing for these inputs at `now` gives: the
/// signed claims, which read back under the same secret.
pub open spec fn issued(
    token: Seq<char>,
    sub: i32,
    email: Seq<char>,
    secret: Seq<char>,
    ttl: u64,
    now: u64,
) -> bool {
    match issued_claims(sub, email, ttl, now) {
        Some(claims) => {
            &&& token == signed_token(claims.sub, claims.email, claims.iat, claims.exp, secret)
            &&& token_payload(token, secret) == Some(payload_of(claims))
        },
        None => false,
    }
}

/// Whether a token can be issued at `now` for `ttl` seconds: whether its
/// expiry is a time that a token can state.
pub open spec fn issuable(ttl: u64, now: u64) -> bool {
    now + ttl <= i64::MAX
}

/// The failure to issue a token whose expiry would be out of range.
pub open spec fn out_of_range() -> Failure {
    Failure::FailedTokenCreation("expiry is out of range"@)
}

/// What verifying `token` under `secret` at `now` gives: the claims, unless
/// the token does not read back as four proper claims under the secret
/// (invalid) or `now` is past its expiry (expired).
pub open spec fn verified(token: Seq<char>, secret: Seq<char>, now: u64) -> Result<Claims, Failure> {
    match token_payload(token, secret) {
        Some(fields) => match claims_of(fields) {
            Some(claims) => if now > claims.exp {
                Err(Failure::ExpiredAuthToken)
            } else {
                Ok(claims)
            },
            None => Err(Failure::InvalidAuthToken),
        },
        None => Err(Failure::InvalidAuthToken),
    }
}

/// A token verifies, under the secret it was issued with and at any time up
/// to its expiry, as the claims it was issued for.
pub proof fn lemma_issued_token_verifies(
    token: Seq<char>,
    sub: i32,
    email: Seq<char>,
    secret: Seq<char>,
    ttl: u64,
    issued_at: u64,
    now: u64,
)
    requires
        ttl > 0,
        issued(token, sub, email, secret, ttl, issued_at),
        now <= issued_at + ttl,
    ensures
        verified(token, secret, now) == Ok::<Claims, Failure>(
            Claims { sub, email, iat: issued_at as i64, exp: (issued_at + ttl) as i64 },
        ),
{
    let claims = issued_claims(sub, email, ttl, issued_at)->0;
}

/// A token issued for `ttl` seconds is expired one second after that time
/// has passed, and one second before it still verifies as the claims it was
/// issued for.
pub proof fn lemma_token_expires(
    token: Seq<char>,
    sub: i32,
    email: Seq<char>,
    secret: Seq<char>,
    ttl: u64,
    issued_at: u64,
)
    requires
        ttl > 0,
        issued(token, sub, email, secret, ttl, issued_at),
    ensures
        verified(token, secret, (issued_at + ttl + 1) as u64) == Err::<Claims, Failure>(
            Failure::ExpiredAuthToken,
        ),
        verified(token, secret, (issued_at + ttl - 1) as u64) == Ok::<Claims, Failure>(
            Claims { sub, email, iat: issued_at as i64, exp: (issued_at + ttl) as i64 },
        ),
{
    let claims = issued_claims(sub, email, ttl, issued_at)->0;
}

/// A token that does not read back under a secret is invalid under it at
/// every time: it is never reported as expired.
pub proof fn lemma_unreadable_token_is_invalid(token: Seq<char>, secret: Seq<char>, now: u64)
    requires
        token_payload(token, secret) is None,
    ensures
        verified(token, secret, now) == Err::<Claims, Failure>(Failure::InvalidAuthToken),
{
}

/// A token issued under one secret and held against another under which it
/// does not read back is invalid at every time, expired or not: it is never
/// reported as expired, and never verifies.
pub proof fn lemma_other_secret_is_invalid(
    token: Seq<char>,
    sub: i32,
    email: Seq<char>,
    secret: Seq<char>,
    other: Seq<char>,
    ttl: u64,
    issued_at: u64,
    now: u64,
)
    requires
        issued(token, sub, email, secret, ttl, issued_at),
        other != secret,
        token_payload(token, other) is None,
    ensures
        verified(token, other, now) == Err::<Claims, Failure>(Failure::InvalidAuthToken),
{
}

/// Whether a token is expired or not depends on the time alone: a token
/// that verifies at some time is, at any time, either expired or the same
/// claims.
pub proof fn lemma_verified_claims_are_stable(
    token: Seq<char>,
    secret: Seq<char>,
    now: u64,
    later: u64,
)
    requires
        verified(token, secret, now) is Ok,
    ensures
        verified(token, secret, later) == verified(token, secret, now) || verified(
            token,
            secret,
            later,
        ) == Err::<Claims, Failure>(Failure::ExpiredAuthToken),
        later <= now ==> verified(token, secret, later) == verified(token, secret, now),
{
}

/// Issues a token for a subject at the time `now`, valid for `ttl` seconds.
/// It fails only where the expiry is past what a token can state.
pub fn issue_at(sub: i32, email: &str, secret: &str, ttl: u64, now: u64) -> (token: Result<
    String,
    ServiceError,
>)
    ensures
        match token {
            Ok(text) => issuable(ttl, now) && issued(text@, sub, email@, secret@, ttl, now),
            Err(error) => !issuable(ttl, now) && error@ == out_of_range(),
        },
{
    if now > i64::MAX as u64 || ttl > i64::MAX as u64 - now {
        return Err(
            ServiceError::FailedTokenCreation("expiry is out of range".to_owned()),
        );
    }
    let claims = TokenClaims {
        sub,
        email: email.to_owned(),
        iat: now as i64,
        exp: (now + ttl) as i64,
    };
    match sign(&claims, secret) {
        Ok(text) => Ok(text),
        Err(error) => Err(ServiceError::FailedTokenCreation(error.to_string())),
    }
}

/// Verifies a token at the time `now`.
pub fn verify_at(token: &str, secret: &str, now: u64) -> (claims: Result<TokenClaims, ServiceError>)
    ensures
        match claims {
            Ok(stated) => verified(token@, secret@, now) == Ok::<Claims, Failure>(stated@),
            Err(error) => verified(token@, secret@, now) == Err::<Claims, Failure>(error@),
        },
{
    match read(token, secret) {
        Some(Payload { sub: Some(sub), email: Some(email), iat: Some(iat), exp: Some(exp) }) => {
            if sub < i32::MIN as i64 || sub > i32::MAX as i64 {
                Err(ServiceError::InvalidAuthToken)
            } else if exp < 0 || now > exp as u64 {
                Err(ServiceError::ExpiredAuthToken)
            } else {
                Ok(TokenClaims { sub: sub as i32, email, iat, exp })
            }
        },
        _ => Err(ServiceError::InvalidAuthToken),
    }
}

} // verus!
