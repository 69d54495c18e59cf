//! Stateless session tokens: compact signed claims `{sub, iat, exp}`, issued
//! and verified with a symmetric server secret through a standard MAC-based
//! signing scheme.
//!
//! Expiry is judged against a caller-supplied clock reading, so that the
//! whole accept/reject decision is verified here; the outside crate is asked
//! only for signing and signature checking. A signature mismatch, a
//! malformed token and an expired token are all reported as the same
//! uniform unauthorized error, so that callers cannot be used as an oracle
//! for which check failed.
use vstd::prelude::*;

use crate::errors::Error;

verus! {

/// The signed compact encoding of the claims `{sub, iat, exp}` under the
/// given secret. Encoding is a function of the four arguments alone; this
/// crate only names it.
pub uninterp spec fn jwt_of(sub: u64, iat: u64, exp: u64, secret: Seq<char>) -> Seq<char>;

/// The claims that signature checking recovers from a token string under
/// the given secret: `None` when the token is malformed or its signature
/// does not match. Recovery is a function of token and secret alone; this
/// crate only names it.
pub uninterp spec fn jwt_claims(token: Seq<char>, secret: Seq<char>) -> Option<(u64, u64, u64)>;

/// Relies on jsonwebtoken's `encode` with its default header (HMAC-SHA256):
/// the produced string is a function of claims and secret, and `decode`
/// under the same secret recovers exactly the claims that were signed.
/// Signing never fails here: the key family always matches the default
/// header, HMAC accepts a key of any length, and serializing a
/// string-keyed map of numbers cannot fail.
#[verifier::external_body]
fn jwt_encode(sub: u64, iat: u64, exp: u64, secret: &str) -> (r: Option<String>)
    ensures
        r is Some,
        r matches Some(t) ==> t@ == jwt_of(sub, iat, exp, secret@)
            && jwt_claims(t@, secret@) == Some((sub, iat, exp)),
{
    let mut claims = serde_json::Map::new();
    claims.insert(String::from("sub"), serde_json::Value::from(sub));
    claims.insert(String::from("iat"), serde_json::Value::from(iat));
    claims.insert(String::from("exp"), serde_json::Value::from(exp));
    let key = jsonwebtoken::EncodingKey::from_secret(secret.as_bytes());
    jsonwebtoken::encode(&jsonwebtoken::Header::default(), &serde_json::Value::Object(claims), &key).ok()
}

/// Relies on jsonwebtoken's `decode` for HMAC-SHA256, with the library's own
/// expiry check switched off so that only the signature and the structure of
/// the token decide: returns the recovered claims, or nothing when the token
/// is malformed, carries another algorithm, or fails the signature check.
#[verifier::external_body]
fn jwt_decode(token: &str, secret: &str) -> (r: Option<(u64, u64, u64)>)
    ensures
        r == jwt_claims(token@, secret@),
{
    let key = jsonwebtoken::DecodingKey::from_secret(secret.as_bytes());
    let mut validation = jsonwebtoken::Validation::new(jsonwebtoken::Algorithm::HS256);
    validation.validate_exp = false;
    validation.required_spec_claims = std::collections::HashSet::new();
    let data = jsonwebtoken::decode::<serde_json::Value>(token, &key, &validation).ok()?;
    let sub = data.claims.get("sub")?.as_u64()?;
    let iat = data.claims.get("iat")?.as_u64()?;
    let exp = data.claims.get("exp")?.as_u64()?;
    Some((sub, iat, exp))
}

/// What decoding a token at time `now` yields: the subject of the claims
/// that the signature check recovers, provided `now` has not passed their
/// expiry; a uniform unauthorized error otherwise, whether the token is
/// malformed, wrongly signed, or expired.
pub open spec fn decode_result(token: Seq<char>, secret: Seq<char>, now: u64) -> Result<u64, Error> {
    match jwt_claims(token, secret) {
        Some((sub, iat, exp)) => if now <= exp {
            Ok(sub)
        } else {
            Err(Error::Unauthorized)
        },
        None => Err(Error::Unauthorized),
    }
}

/// Issues a session token for `sub` at time `now`, valid for `ttl_secs`
/// seconds. Issuing always succeeds: signing with a symmetric secret
/// cannot fail.
pub fn issue(secret: &str, sub: u64, now: u64, ttl_secs: u64) -> (r: Result<String, Error>)
    requires
        now + ttl_secs <= u64::MAX,
    ensures
        r matches Ok(t) && t@ == jwt_of(sub, now, (now + ttl_secs) as u64, secret@)
            && jwt_claims(t@, secret@) == Some((sub, now, (now + ttl_secs) as u64)),
{
    let exp = now + ttl_secs;
    Ok(jwt_encode(sub, now, exp, secret).unwrap())
}

/// Verifies signature and expiry of a token in one step and recovers its
/// subject.
pub fn decode(secret: &str, token: &str, now: u64) -> (r: Result<u64, Error>)
    ensures
        r == decode_result(token@, secret@, now),
{
    match jwt_decode(token, secret) {
        Some((sub, _iat, exp)) => if now <= exp {
            Ok(sub)
        } else {
            Err(Error::Unauthorized)
        },
        None => Err(Error::Unauthorized),
    }
}

/// Round trip: a token whose signature check recovers the claims
/// `(sub, iat, exp)` decodes to exactly `sub` at any time that has not
/// passed `exp`. Together with the contract of `issue`, which guarantees
/// that an issued token's recovered claims are the claims it was issued
/// with, this gives `decode(issue(sub, ttl)) == sub` before expiry.
pub proof fn lemma_token_round_trip(token: Seq<char>, secret: Seq<char>, sub: u64, iat: u64, exp: u64, now: u64)
    requires
        jwt_claims(token, secret) == Some((sub, iat, exp)),
        now <= exp,
    ensures
        decode_result(token, secret, now) == Ok::<u64, Error>(sub),
{
}

/// Expiry: the same token is uniformly rejected at any time past `exp`,
/// however it was obtained.
pub proof fn lemma_token_expired(token: Seq<char>, secret: Seq<char>, sub: u64, iat: u64, exp: u64, now: u64)
    requires
        jwt_claims(token, secret) == Some((sub, iat, exp)),
        now > exp,
    ensures
        decode_result(token, secret, now) == Err::<u64, Error>(Error::Unauthorized),
{
}

/// Uniform rejection: whenever decoding fails, the caller sees the one
/// unauthorized error, whether the token was malformed, wrongly signed, or
/// expired — a rejected decode cannot be used as an oracle for which check
/// failed.
pub proof fn lemma_decode_rejects_uniformly(token: Seq<char>, secret: Seq<char>, now: u64)
    requires
        decode_result(token, secret, now) is Err,
    ensures
        decode_result(token, secret, now) == Err::<u64, Error>(Error::Unauthorized),
{
}

} // verus!
