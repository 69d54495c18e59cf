//! Password hashing and verification, delegated to a memory-hard salted
//! algorithm of the Argon2 family.
//!
//! Hashing draws a fresh random salt on every call, so the produced string is
//! not a function of the password; all that is promised of it is that it
//! verifies against the password it was made from. Verification is a pure
//! function of plaintext and stored hash and is carried out by the
//! algorithm's own constant-time comparator.
use vstd::prelude::*;

use argon2::PasswordHasher;
use argon2::PasswordVerifier;

use crate::errors::Error;

verus! {

/// What verifying `plain` against the stored string `hash` reports:
/// `Some(true)` for a match, `Some(false)` for a mismatch, `None` when the
/// stored string does not parse as a password hash (corrupted data).
/// The outcome depends on the two strings alone; this crate only names it.
pub uninterp spec fn password_check(plain: Seq<char>, hash: Seq<char>) -> Option<bool>;

/// Relies on argon2's `PasswordHasher::hash_password`, which draws a fresh
/// random salt: the produced hash string verifies against the plaintext it
/// was made from.
#[verifier::external_body]
fn argon2_hash(plain: &str) -> (r: Option<String>)
    ensures
        r matches Some(h) ==> password_check(plain@, h@) == Some(true),
{
    match argon2::Argon2::default().hash_password(plain.as_bytes()) {
        Ok(h) => Some(h.to_string()),
        Err(_) => None,
    }
}

/// Relies on argon2's `PasswordVerifier::verify_password` (and
/// `PasswordHash::new` for parsing the stored string): the outcome depends
/// on plaintext and stored string alone, and a mismatch is reported as
/// `Error::PasswordInvalid`.
#[verifier::external_body]
fn argon2_verify(plain: &str, hash: &str) -> (r: Option<bool>)
    ensures
        r == password_check(plain@, hash@),
{
    match argon2::PasswordHash::new(hash) {
        Err(_) => None,
        Ok(parsed) => match argon2::Argon2::default().verify_password(plain.as_bytes(), &parsed) {
            Ok(()) => Some(true),
            Err(argon2::password_hash::Error::PasswordInvalid) => Some(false),
            Err(_) => None,
        },
    }
}

/// Hashes a plaintext password with a freshly drawn random salt.
///
/// On success the returned string verifies against `plain`; a hashing
/// backend failure surfaces as an internal error.
pub fn hash(plain: &str) -> (r: Result<String, Error>)
    ensures
        r matches Ok(h) ==> password_check(plain@, h@) == Some(true),
        r matches Err(e) ==> e == Error::InternalServerError,
{
    match argon2_hash(plain) {
        Some(h) => Ok(h),
        None => Err(Error::InternalServerError),
    }
}

/// What `verify` returns for a given plaintext and stored hash: the match
/// outcome, or an internal error when the stored hash is malformed. A
/// malformed stored hash is never reported as "password incorrect".
pub open spec fn verify_result(plain: Seq<char>, hash: Seq<char>) -> Result<bool, Error> {
    match password_check(plain, hash) {
        Some(b) => Ok(b),
        None => Err(Error::InternalServerError),
    }
}

/// Verifies a plaintext password against a stored hash string.
pub fn verify(plain: &str, hashed: &str) -> (r: Result<bool, Error>)
    ensures
        r == verify_result(plain@, hashed@),
{
    match argon2_verify(plain, hashed) {
        Some(b) => Ok(b),
        None => Err(Error::InternalServerError),
    }
}

/// A password verifies against any hash produced from it: whenever hashing
/// `plain` succeeded with result `hash`, verifying `plain` against `hash`
/// reports a match.
pub proof fn lemma_verify_of_fresh_hash(plain: Seq<char>, hash: Seq<char>)
    requires
        password_check(plain, hash) == Some(true),
    ensures
        verify_result(plain, hash) == Ok::<bool, Error>(true),
{
}

} // verus!
