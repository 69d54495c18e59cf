//! Single-use pending-action tokens: random unguessable strings with an
//! expiry horizon, persisted on the user record they belong to.
//!
//! A token stands for at most one pending action, either an email
//! verification (24 hour horizon) or a password reset (30 minute horizon).
//! Issuing a new token for a user overwrites any prior pending one.
//! Resolving checks presence and expiry but clears nothing; only the
//! explicit consume step clears the token, and for the verification kind it
//! additionally flips the holder to verified.
use vstd::prelude::*;

use crate::errors::Error;
use crate::store::{
    consume_token_effect, find_token_holder, has_token, set_pending_effect, UserStore,
};
use crate::users::{User, UserView};

verus! {

/// Validity horizon of an email-verification token, in seconds (24 hours).
pub const VERIFY_TOKEN_TTL_SECS: u64 = 86400;

/// Validity horizon of a password-reset token, in seconds (30 minutes).
pub const RESET_TOKEN_TTL_SECS: u64 = 1800;

/// The kind of pending action a token stands for.
#[derive(Clone, Copy, Debug, PartialEq, Eq, Structural)]
pub enum TokenKind {
    Verification,
    PasswordReset,
}

/// The horizon attached to a token of the given kind.
pub open spec fn token_ttl_spec(kind: TokenKind) -> u64 {
    match kind {
        TokenKind::Verification => VERIFY_TOKEN_TTL_SECS,
        TokenKind::PasswordReset => RESET_TOKEN_TTL_SECS,
    }
}

fn token_ttl(kind: TokenKind) -> (r: u64)
    ensures
        r == token_ttl_spec(kind),
{
    match kind {
        TokenKind::Verification => VERIFY_TOKEN_TTL_SECS,
        TokenKind::PasswordReset => RESET_TOKEN_TTL_SECS,
    }
}

/// Relies on uuid's `new_v4` and its hyphenated `to_string` form: a fresh
/// random token of 36 characters. Nothing else is promised of a random
/// value.
#[verifier::external_body]
pub(crate) fn fresh_token() -> (r: String)
    ensures
        r@.len() == 36,
{
    uuid::Uuid::new_v4().to_string()
}

/// Whether the record's pending horizon has passed at `now`. A record
/// without a horizon is not expired.
pub open spec fn token_expired(u: UserView, now: u64) -> bool {
    match u.token_expires_at {
        Some(e) => e < now,
        None => false,
    }
}

/// What resolving a token at a given time finds.
pub ghost enum ResolveOutcome {
    Found(UserView),
    NotFound,
    Expired,
}

/// The outcome of resolving `token` at time `now` against the records `s`:
/// the first holder when its horizon has not passed, `NotFound` when no
/// record holds the token, `Expired` otherwise.
pub open spec fn resolve_spec(s: Seq<UserView>, token: Seq<char>, now: u64) -> ResolveOutcome {
    match find_token_holder(s, token) {
        Some(h) => if token_expired(h, now) {
            ResolveOutcome::Expired
        } else {
            ResolveOutcome::Found(h)
        },
        None => ResolveOutcome::NotFound,
    }
}

/// The reason reported for a token whose horizon has passed.
pub open spec fn token_expired_msg() -> Seq<char> {
    "Token expired"@
}

/// Generates a fresh random single-use token of the given kind for the
/// user, persists it with its horizon on the user record, overwriting any
/// prior pending token, and returns the token with its expiry.
pub fn issue_pending_action(
    store: &mut UserStore,
    user_id: u64,
    kind: TokenKind,
    now: u64,
) -> (r: (String, u64))
    requires
        old(store).wf(),
        now + VERIFY_TOKEN_TTL_SECS <= u64::MAX,
    ensures
        final(store).wf(),
        final(store).next_id == old(store).next_id,
        r.1 == now + token_ttl_spec(kind),
        r.0@.len() == 36,
        final(store)@ == set_pending_effect(old(store)@, user_id, r.0@, r.1),
{
    let ttl = token_ttl(kind);
    let expires_at = now + ttl;
    let token = fresh_token();
    store.set_pending_token(user_id, token.as_str(), expires_at);
    (token, expires_at)
}

/// Looks up the user holding `token`: fails with `NotFound` when no record
/// holds it, and with the expired reason when the holder's horizon has
/// passed `now`. The token is not cleared by this check alone; it stays
/// stored until explicitly consumed or overwritten.
pub fn resolve(store: &UserStore, token: &str, now: u64) -> (r: Result<User, Error>)
    ensures
        match resolve_spec(store@, token@, now) {
            ResolveOutcome::Found(h) => r matches Ok(u) && u@ == h,
            ResolveOutcome::NotFound => r == Err::<User, Error>(Error::NotFound),
            ResolveOutcome::Expired => r matches Err(e) && e matches Error::BadRequest(m)
                && m@ == token_expired_msg(),
        },
{
    match store.get_user(None, None, None, Some(token)) {
        None => Err(Error::NotFound),
        Some(u) => {
            let expired = match u.token_expires_at {
                Some(e) => e < now,
                None => false,
            };
            if expired {
                Err(Error::BadRequest("Token expired".to_owned()))
            } else {
                Ok(u)
            }
        },
    }
}

/// Consumes a pending token: clears the token fields of every record
/// holding it, and for the verification kind flips the holder to verified
/// and bumps its update time.
pub fn consume(store: &mut UserStore, token: &str, kind: TokenKind, now: u64)
    requires
        old(store).wf(),
    ensures
        final(store).wf(),
        final(store).next_id == old(store).next_id,
        final(store)@ == consume_token_effect(old(store)@, token@, kind is Verification, now),
{
    let mark_verified = match kind {
        TokenKind::Verification => true,
        TokenKind::PasswordReset => false,
    };
    store.consume_token(token, mark_verified, now);
}

/// Single use: consuming a token clears it from every record, so at any
/// later time a second resolve of the same token finds no holder and fails
/// with `NotFound`.
pub proof fn lemma_consumed_token_never_resolves(
    s: Seq<UserView>,
    token: Seq<char>,
    mark_verified: bool,
    now: u64,
    later: u64,
)
    ensures
        !has_token(consume_token_effect(s, token, mark_verified, now), token),
        resolve_spec(consume_token_effect(s, token, mark_verified, now), token, later)
            == ResolveOutcome::NotFound,
{
    let c = consume_token_effect(s, token, mark_verified, now);
    assert forall|i: int| 0 <= i < c.len() implies (#[trigger] c[i]).verification_token
        != Some(token) by {
        assert(c[i] == (if s[i].verification_token == Some(token) {
            crate::store::consumed_user(s[i], mark_verified, now)
        } else {
            s[i]
        }));
    }
    crate::store::lemma_find_token_none(c, token);
}

/// Expiry horizon: while a record still holds a token whose horizon has
/// passed, resolving the token reports the expired condition; the record
/// and its token stay in the store untouched until an explicit consume or
/// overwrite.
pub proof fn lemma_expired_token_reported(s: Seq<UserView>, token: Seq<char>, now: u64)
    requires
        find_token_holder(s, token) matches Some(h) && token_expired(h, now),
    ensures
        has_token(s, token),
        resolve_spec(s, token, now) == ResolveOutcome::Expired,
{
}

} // verus!
