//! Core of a content-backend's authentication subsystem: credential
//! registration, password hashing and verification, time-boxed single-use
//! verification and reset tokens, stateless session tokens, and role-based
//! gating, specified and verified over a plain in-memory credential store.
use vstd::prelude::*;

pub mod clock;
pub mod codec;
pub mod errors;
pub mod gate;
pub mod hasher;
pub mod mails;
pub mod response;
pub mod service;
pub mod store;
pub mod tokens;
pub mod users;

verus! {

/// Process-wide configuration, constructed once at startup and passed by
/// reference into the services; never read ad hoc from the environment.
pub struct Config {
    pub database_url: String,
    pub jwt_secret: String,
    pub jwt_maxage: u64,
    pub port: u16,
}

impl Config {
    pub fn new(database_url: String, jwt_secret: String, jwt_maxage: u64, port: u16) -> (c: Config)
        ensures
            c.database_url@ == database_url@,
            c.jwt_secret@ == jwt_secret@,
            c.jwt_maxage == jwt_maxage,
            c.port == port,
    {
        Config { database_url, jwt_secret, jwt_maxage, port }
    }
}

} // verus!
