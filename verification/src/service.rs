//! The orchestrating services: registration, login, email verification,
//! password forgotten/reset, and the authenticated account updates.
//!
//! The services are stateless beyond their configuration (the signing
//! secret and the configured session horizon); the credential store is
//! handed in by the caller. Notification emails are likewise the caller's
//! concern: where the original flow would send one, the service returns the
//! raw token, and the handler layer builds the link and triggers the sink,
//! so that a delivery failure never unwinds a committed state change.
use vstd::prelude::*;

use crate::codec;
use crate::codec::jwt_claims;
use crate::errors::Error;
use crate::hasher;
use crate::hasher::password_check;
use crate::store::{
    consume_token_effect, find_by_email, find_by_id, get_user_spec, has_email, has_id,
    opt_str_view, set_pending_effect, update_name_effect, update_password_effect, UserStore,
};
use crate::tokens;
use crate::tokens::{
    resolve_spec, token_expired_msg, ResolveOutcome, TokenKind, RESET_TOKEN_TTL_SECS,
    VERIFY_TOKEN_TTL_SECS,
};
use crate::users::{NameUpdateDto, User, UserPasswordUpdateDto, UserView};

verus! {

/// Lifetime of a session token issued by `login`, in seconds (60 minutes).
pub const SESSION_TTL_SECS: u64 = 3600;

/// The reason reported when a registration email is already taken.
pub open spec fn email_taken_msg() -> Seq<char> {
    "Unavailable."@
}

/// The reason reported when a login email names no account.
pub open spec fn login_not_found_msg() -> Seq<char> {
    "User not found, create an account!"@
}

/// The reason reported when a login is attempted before verification.
pub open spec fn not_verified_msg() -> Seq<char> {
    "Check your e-email!"@
}

/// The reason reported when a presented password does not match.
pub open spec fn invalid_password_msg() -> Seq<char> {
    "Invalid password!"@
}

/// The reason reported when a verification token resolves to no user.
pub open spec fn invalid_data_msg() -> Seq<char> {
    "Invalid data"@
}

/// The reason reported when a forgot-password email names no account.
/// This deliberately differs from other failures and so leaks account
/// existence: a known weakness of the original flow, preserved as is.
pub open spec fn invalid_email_msg() -> Seq<char> {
    "E-mail invalido!"@
}

/// The signup and credential-recovery flows.
pub struct AuthService {
    /// The symmetric secret session tokens are signed with.
    pub jwt_secret: String,
    /// The configured session horizon in minutes, applied at
    /// email-verification time.
    pub jwt_maxage: u64,
}

impl AuthService {
    pub fn new(jwt_secret: String, jwt_maxage: u64) -> (s: AuthService)
        ensures
            s.jwt_secret@ == jwt_secret@,
            s.jwt_maxage == jwt_maxage,
    {
        AuthService { jwt_secret, jwt_maxage }
    }

    /// Registers a new account: refused as a duplicate when the email is
    /// already present; otherwise the password is hashed, a pending
    /// verification token with a 24 hour horizon is attached, and the
    /// created record, unverified and in the `User` role, is returned. The
    /// caller reads the pending token off the returned record to trigger
    /// the verification email.
    pub fn register(
        &self,
        store: &mut UserStore,
        name: &str,
        email: &str,
        password: &str,
        now: u64,
    ) -> (r: Result<User, Error>)
        requires
            old(store).wf(),
            old(store).next_id < u64::MAX,
            now + VERIFY_TOKEN_TTL_SECS <= u64::MAX,
        ensures
            final(store).wf(),
            r is Ok ==> final(store).next_id == old(store).next_id + 1,
            r is Err ==> final(store).next_id == old(store).next_id,
            has_email(old(store)@, email@) ==> (r matches Err(e) && e matches Error::BadRequest(m)
                && m@ == email_taken_msg() && final(store)@ == old(store)@),
            r matches Ok(u) ==> {
                &&& !has_email(old(store)@, email@)
                &&& final(store)@ == old(store)@.push(u@)
                &&& u@.id == old(store).next_id
                &&& u@.name == name@
                &&& u@.email == email@
                &&& u@.role is User
                &&& u@.verified == false
                &&& password_check(password@, u@.password) == Some(true)
                &&& u@.verification_token is Some
                &&& u@.token_expires_at == Some((now + VERIFY_TOKEN_TTL_SECS) as u64)
                &&& u@.created_at == now
                &&& u@.updated_at == now
            },
            r == Err::<User, Error>(Error::InternalServerError) ==> (!has_email(old(store)@, email@)
                && final(store)@ == old(store)@),
            !has_email(old(store)@, email@) ==> (r is Ok || r == Err::<User, Error>(
                Error::InternalServerError,
            )),
    {
        if store.get_user(None, None, Some(email), None).is_some() {
            return Err(Error::BadRequest("Unavailable.".to_owned()));
        }
        let hashed = match hasher::hash(password) {
            Ok(h) => h,
            Err(e) => {
                return Err(e);
            },
        };
        let verification_token = tokens::fresh_token();
        let expires_at = now + VERIFY_TOKEN_TTL_SECS;
        let u = store.create_user(
            name,
            email,
            hashed.as_str(),
            verification_token.as_str(),
            expires_at,
            now,
        );
        Ok(u)
    }

    /// Logs an account in: the email must name an account, the account must
    /// be verified, and the password must match its stored hash; then a
    /// session token with the short login horizon is issued for it.
    pub fn login(&self, store: &UserStore, email: &str, password: &str, now: u64) -> (r: Result<
        String,
        Error,
    >)
        requires
            now + SESSION_TTL_SECS <= u64::MAX,
        ensures
            match find_by_email(store@, email@) {
                None => r matches Err(e) && e matches Error::BadRequest(m)
                    && m@ == login_not_found_msg(),
                Some(u) => if !u.verified {
                    r matches Err(e) && e matches Error::BadRequest(m) && m@ == not_verified_msg()
                } else {
                    match password_check(password@, u.password) {
                        Some(true) => r matches Ok(t) && jwt_claims(t@, self.jwt_secret@)
                            == Some((u.id, now, (now + SESSION_TTL_SECS) as u64)),
                        Some(false) => r matches Err(e) && e matches Error::BadRequest(m)
                            && m@ == invalid_password_msg(),
                        None => r == Err::<String, Error>(Error::InternalServerError),
                    }
                },
            },
    {
        let user = match store.get_user(None, None, Some(email), None) {
            Some(u) => u,
            None => {
                return Err(Error::BadRequest("User not found, create an account!".to_owned()));
            },
        };
        if !user.verified {
            return Err(Error::BadRequest("Check your e-email!".to_owned()));
        }
        match hasher::verify(password, user.password.as_str()) {
            Ok(true) => {},
            Ok(false) => {
                return Err(Error::BadRequest("Invalid password!".to_owned()));
            },
            Err(e) => {
                return Err(e);
            },
        }
        codec::issue(self.jwt_secret.as_str(), user.id, now, SESSION_TTL_SECS)
    }

    /// Verifies an email address: resolves the pending token, refuses it
    /// when unknown or past its horizon, otherwise consumes it (which flips
    /// the holder to verified and clears the token fields) and issues a
    /// session token with the configured long horizon. The caller triggers
    /// the welcome notification afterwards; delivery does not affect the
    /// committed verification.
    pub fn verify_email(&self, store: &mut UserStore, token: &str, now: u64) -> (r: Result<
        String,
        Error,
    >)
        requires
            old(store).wf(),
            now + self.jwt_maxage * 60 <= u64::MAX,
        ensures
            final(store).wf(),
            final(store).next_id == old(store).next_id,
            match resolve_spec(old(store)@, token@, now) {
                ResolveOutcome::NotFound => r matches Err(e) && e matches Error::BadRequest(m)
                    && m@ == invalid_data_msg() && final(store)@ == old(store)@,
                ResolveOutcome::Expired => r matches Err(e) && e matches Error::BadRequest(m)
                    && m@ == token_expired_msg() && final(store)@ == old(store)@,
                ResolveOutcome::Found(h) => {
                    &&& final(store)@ == consume_token_effect(old(store)@, token@, true, now)
                    &&& r matches Ok(t) && jwt_claims(t@, self.jwt_secret@) == Some(
                        (h.id, now, (now + self.jwt_maxage * 60) as u64),
                    )
                },
            },
    {
        let user = match tokens::resolve(store, token, now) {
            Ok(u) => u,
            Err(Error::NotFound) => {
                return Err(Error::BadRequest("Invalid data".to_owned()));
            },
            Err(e) => {
                return Err(e);
            },
        };
        tokens::consume(store, token, TokenKind::Verification, now);
        let ttl = self.jwt_maxage * 60;
        codec::issue(self.jwt_secret.as_str(), user.id, now, ttl)
    }

    /// Starts a password reset: the email must name an account (a missing
    /// one is reported distinguishably, see `invalid_email_msg`); a reset
    /// token with a 30 minute horizon is persisted on the account,
    /// overwriting any prior pending token, and returned. The caller builds
    /// the reset link from it and triggers the notification; the token
    /// stays persisted regardless, so retrying the call is the recovery
    /// path.
    pub fn forgot_password(&self, store: &mut UserStore, email: &str, now: u64) -> (r: Result<
        String,
        Error,
    >)
        requires
            old(store).wf(),
            now + VERIFY_TOKEN_TTL_SECS <= u64::MAX,
        ensures
            final(store).wf(),
            final(store).next_id == old(store).next_id,
            match find_by_email(old(store)@, email@) {
                None => r matches Err(e) && e matches Error::BadRequest(m)
                    && m@ == invalid_email_msg() && final(store)@ == old(store)@,
                Some(u) => r matches Ok(t) && t@.len() == 36 && final(store)@ == set_pending_effect(
                    old(store)@,
                    u.id,
                    t@,
                    (now + RESET_TOKEN_TTL_SECS) as u64,
                ),
            },
    {
        let user = match store.get_user(None, None, Some(email), None) {
            Some(u) => u,
            None => {
                return Err(Error::BadRequest("E-mail invalido!".to_owned()));
            },
        };
        let (token, _expires_at) = tokens::issue_pending_action(
            store,
            user.id,
            TokenKind::PasswordReset,
            now,
        );
        Ok(token)
    }

    /// Completes a password reset: resolves the token (unknown tokens are
    /// unauthorized, expired ones refused), hashes the new password,
    /// durably updates it, and only then consumes the token, so that a
    /// failure between the two steps leaves the token usable for a retry.
    /// Consuming a reset token clears it without touching the verified
    /// flag.
    pub fn reset_password(
        &self,
        store: &mut UserStore,
        token: &str,
        new_password: &str,
        now: u64,
    ) -> (r: Result<(), Error>)
        requires
            old(store).wf(),
        ensures
            final(store).wf(),
            final(store).next_id == old(store).next_id,
            match resolve_spec(old(store)@, token@, now) {
                ResolveOutcome::NotFound => r == Err::<(), Error>(Error::Unauthorized)
                    && final(store)@ == old(store)@,
                ResolveOutcome::Expired => r matches Err(e) && e matches Error::BadRequest(m)
                    && m@ == token_expired_msg() && final(store)@ == old(store)@,
                ResolveOutcome::Found(h) => {
                    &&& (r is Ok || r == Err::<(), Error>(Error::InternalServerError))
                    &&& (r == Err::<(), Error>(Error::InternalServerError) ==> final(store)@
                        == old(store)@)
                    &&& (r is Ok ==> exists|hash: Seq<char>|
                        password_check(new_password@, hash) == Some(true) && final(store)@
                            == consume_token_effect(
                            update_password_effect(old(store)@, h.id, hash, now),
                            token@,
                            false,
                            now,
                        ))
                },
            },
    {
        let user = match tokens::resolve(store, token, now) {
            Ok(u) => u,
            Err(Error::NotFound) => {
                return Err(Error::Unauthorized);
            },
            Err(e) => {
                return Err(e);
            },
        };
        let hashed = match hasher::hash(new_password) {
            Ok(h) => h,
            Err(e) => {
                return Err(e);
            },
        };
        store.update_password(user.id, hashed.as_str(), now);
        tokens::consume(store, token, TokenKind::PasswordReset, now);
        Ok(())
    }
}

/// A successful registration makes its email present in the store: any
/// record pushed for it is found by that email afterwards. Together with
/// the contract of `register`, which refuses a taken email as a duplicate
/// and leaves the store unchanged, this shows that registering twice with
/// one email fails the second time and keeps only the first account.
pub proof fn lemma_registered_email_taken(s: Seq<UserView>, u: UserView)
    ensures
        has_email(s.push(u), u.email),
{
    crate::store::lemma_find_by_email_none(s.push(u), u.email);
    assert(s.push(u)[s.len() as int] == u);
}

/// The account-facing service: lookups, token decoding, deletion, and the
/// re-authenticated profile updates.
pub struct UserService {
    /// The symmetric secret session tokens are verified with.
    pub jwt_secret: String,
}

impl UserService {
    pub fn new(jwt_secret: String) -> (s: UserService)
        ensures
            s.jwt_secret@ == jwt_secret@,
    {
        UserService { jwt_secret }
    }

    /// Loads the user selected by the first given criterion; fails when
    /// none matches.
    pub fn get_user(
        &self,
        store: &UserStore,
        user_id: Option<u64>,
        name: Option<&str>,
        email: Option<&str>,
        token: Option<&str>,
    ) -> (r: Result<User, Error>)
        ensures
            match get_user_spec(
                store@,
                user_id,
                opt_str_view(name),
                opt_str_view(email),
                opt_str_view(token),
            ) {
                Some(v) => r matches Ok(u) && u@ == v,
                None => r == Err::<User, Error>(Error::NotFound),
            },
    {
        match store.get_user(user_id, name, email, token) {
            Some(u) => Ok(u),
            None => Err(Error::NotFound),
        }
    }

    /// Verifies and decodes a session token against the service's secret:
    /// a thin pass-through to the token codec.
    pub fn decode_token(&self, token: &str, now: u64) -> (r: Result<u64, Error>)
        ensures
            r == codec::decode_result(token@, self.jwt_secret@, now),
    {
        codec::decode(self.jwt_secret.as_str(), token, now)
    }

    /// Deletes the account with the given id; deletion is immediate and
    /// irreversible, and deleting an absent id changes nothing.
    pub fn delete_user(&self, store: &mut UserStore, user_id: u64) -> (r: Result<(), Error>)
        requires
            old(store).wf(),
        ensures
            final(store).wf(),
            final(store).next_id == old(store).next_id,
            r is Ok,
            !has_id(old(store)@, user_id) ==> final(store)@ == old(store)@,
            has_id(old(store)@, user_id) ==> (exists|i: int|
                0 <= i < old(store)@.len() && (#[trigger] old(store)@[i]).id == user_id && final(store)@ == old(store)@.remove(i)),
    {
        store.delete_user(user_id);
        Ok(())
    }

    /// Changes the account's display name. The change is a sensitive one,
    /// so the caller's password is re-verified against the presented
    /// record's hash before the store is touched.
    pub fn update_username(
        &self,
        store: &mut UserStore,
        user: &User,
        user_update: &NameUpdateDto,
        now: u64,
    ) -> (r: Result<(), Error>)
        requires
            old(store).wf(),
        ensures
            final(store).wf(),
            final(store).next_id == old(store).next_id,
            match password_check(user_update.password@, user.password@) {
                None => r == Err::<(), Error>(Error::InternalServerError) && final(store)@ == old(store)@,
                Some(false) => r matches Err(e) && e matches Error::BadRequest(m)
                    && m@ == invalid_password_msg() && final(store)@ == old(store)@,
                Some(true) => if has_id(old(store)@, user.id) {
                    r is Ok && final(store)@ == update_name_effect(
                        old(store)@,
                        user.id,
                        user_update.name@,
                        now,
                    )
                } else {
                    r == Err::<(), Error>(Error::NotFound) && final(store)@ == old(store)@
                },
            },
    {
        match hasher::verify(user_update.password.as_str(), user.password.as_str()) {
            Ok(true) => {},
            Ok(false) => {
                return Err(Error::BadRequest("Invalid password!".to_owned()));
            },
            Err(e) => {
                return Err(e);
            },
        }
        match store.update_username(user.id, user_update.name.as_str(), now) {
            Some(_) => Ok(()),
            None => {
                proof {
                    crate::store::lemma_find_by_id_none(old(store)@, user.id);
                    assert(store@ =~= old(store)@);
                }
                Err(Error::NotFound)
            },
        }
    }

    /// Changes the account's password. The stored record is loaded afresh,
    /// the old password is verified against its hash, and only then is the
    /// new password hashed and persisted.
    pub fn update_user_password(
        &self,
        store: &mut UserStore,
        user: &User,
        user_update: &UserPasswordUpdateDto,
        now: u64,
    ) -> (r: Result<(), Error>)
        requires
            old(store).wf(),
        ensures
            final(store).wf(),
            final(store).next_id == old(store).next_id,
            match find_by_id(old(store)@, user.id) {
                None => r matches Err(e) && e matches Error::BadRequest(m)
                    && m@ == invalid_password_msg() && final(store)@ == old(store)@,
                Some(current) => match password_check(user_update.old_password@, current.password) {
                    None => r == Err::<(), Error>(Error::InternalServerError) && final(store)@
                        == old(store)@,
                    Some(false) => r matches Err(e) && e matches Error::BadRequest(m)
                        && m@ == invalid_password_msg() && final(store)@ == old(store)@,
                    Some(true) => {
                        &&& (r is Ok || r == Err::<(), Error>(Error::InternalServerError))
                        &&& (r == Err::<(), Error>(Error::InternalServerError) ==> final(store)@
                            == old(store)@)
                        &&& (r is Ok ==> exists|hash: Seq<char>|
                            password_check(user_update.new_password@, hash) == Some(true) && final(store)@ == update_password_effect(old(store)@, user.id, hash, now))
                    },
                },
            },
    {
        let current = match store.get_user(Some(user.id), None, None, None) {
            Some(u) => u,
            None => {
                return Err(Error::BadRequest("Invalid password!".to_owned()));
            },
        };
        match hasher::verify(user_update.old_password.as_str(), current.password.as_str()) {
            Ok(true) => {},
            Ok(false) => {
                return Err(Error::BadRequest("Invalid password!".to_owned()));
            },
            Err(e) => {
                return Err(e);
            },
        }
        let hashed = match hasher::hash(user_update.new_password.as_str()) {
            Ok(h) => h,
            Err(e) => {
                return Err(e);
            },
        };
        store.update_password(user.id, hashed.as_str(), now);
        Ok(())
    }
}

} // verus!
