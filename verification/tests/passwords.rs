use auth_core::errors::Error;
use auth_core::hasher::{hash, verify};

#[test]
fn fresh_hash_verifies_its_password() {
    let h = hash("correct horse").unwrap();
    assert_eq!(verify("correct horse", &h), Ok(true));
}

#[test]
fn wrong_password_does_not_verify() {
    let h = hash("correct horse").unwrap();
    assert_eq!(verify("battery staple", &h), Ok(false));
    assert_eq!(verify("", &h), Ok(false));
}

#[test]
fn two_hashes_of_one_password_differ_but_both_verify() {
    let h1 = hash("secret1").unwrap();
    let h2 = hash("secret1").unwrap();
    assert_ne!(h1, h2);
    assert_eq!(verify("secret1", &h1), Ok(true));
    assert_eq!(verify("secret1", &h2), Ok(true));
}

#[test]
fn malformed_stored_hash_is_an_internal_error() {
    assert_eq!(verify("whatever", "not-a-password-hash"), Err(Error::InternalServerError));
    assert_eq!(verify("whatever", ""), Err(Error::InternalServerError));
}

#[test]
fn hash_output_is_not_the_plaintext() {
    let h = hash("visible").unwrap();
    assert_ne!(h, "visible");
    assert!(h.starts_with("$argon2"));
}
