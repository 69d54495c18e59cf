//! User model and the request/response data shapes of the authentication
//! subsystem, with verified validation of the inbound shapes.
//!
//! A user id is an opaque unique identifier; it is modelled here as a plain
//! `u64` drawn from a per-store counter. Timestamps are seconds of Unix time.
use vstd::prelude::*;

use crate::errors::Error;

verus! {

/// The two roles a user can hold. The default for a registered account is
/// `User`; `Admin` is never self-assignable through the register path.
#[derive(Clone, Copy, Debug, PartialEq, Eq, Structural)]
pub enum UserRole {
    Admin,
    User,
}

/// The lower-case wire name of a role.
pub open spec fn spec_role_str(r: UserRole) -> Seq<char> {
    match r {
        UserRole::Admin => "admin"@,
        UserRole::User => "user"@,
    }
}

impl UserRole {
    pub fn to_str(&self) -> (r: &str)
        ensures
            r@ == spec_role_str(*self),
    {
        match self {
            UserRole::Admin => "admin",
            UserRole::User => "user",
        }
    }
}

/// The mathematical image of one stored user record.
pub ghost struct UserView {
    pub id: u64,
    pub name: Seq<char>,
    pub email: Seq<char>,
    pub password: Seq<char>,
    pub role: UserRole,
    pub verified: bool,
    pub verification_token: Option<Seq<char>>,
    pub token_expires_at: Option<u64>,
    pub created_at: u64,
    pub updated_at: u64,
}

/// One account as the credential store holds it. `password` is the salted
/// password hash, never the plaintext; it is only ever produced and compared
/// by the password hasher. `verification_token` and `token_expires_at` are
/// set and cleared together: they describe the at-most-one pending
/// email-verification or password-reset action.
#[derive(Debug)]
pub struct User {
    pub id: u64,
    pub name: String,
    pub email: String,
    pub password: String,
    pub role: UserRole,
    pub verified: bool,
    pub verification_token: Option<String>,
    pub token_expires_at: Option<u64>,
    pub created_at: u64,
    pub updated_at: u64,
}

impl View for User {
    type V = UserView;

    open spec fn view(&self) -> UserView {
        UserView {
            id: self.id,
            name: self.name@,
            email: self.email@,
            password: self.password@,
            role: self.role,
            verified: self.verified,
            verification_token: match self.verification_token {
                Some(t) => Some(t@),
                None => None,
            },
            token_expires_at: self.token_expires_at,
            created_at: self.created_at,
            updated_at: self.updated_at,
        }
    }
}

impl User {
    /// A field-by-field copy with the same view as the record it copies.
    pub fn duplicate(&self) -> (r: User)
        ensures
            r@ == self@,
    {
        User {
            id: self.id,
            name: self.name.clone(),
            email: self.email.clone(),
            password: self.password.clone(),
            role: self.role,
            verified: self.verified,
            verification_token: match &self.verification_token {
                Some(t) => Some(t.clone()),
                None => None,
            },
            token_expires_at: self.token_expires_at,
            created_at: self.created_at,
            updated_at: self.updated_at,
        }
    }
}

/// Whether a string is an acceptable email address.
///
/// The acceptance set is the one the `validator` crate implements (the HTML5
/// form of a valid email address); this crate only names it.
pub uninterp spec fn email_ok(s: Seq<char>) -> bool;

/// Relies on validator's `ValidateEmail` for `&str`: acceptance depends on
/// the characters of the string alone.
#[verifier::external_body]
fn check_email(s: &str) -> (r: bool)
    ensures
        r == email_ok(s@),
{
    validator::ValidateEmail::validate_email(&s)
}

/// The message every failed shape validation reports.
pub open spec fn validation_failed_msg() -> Seq<char> {
    "Validation failed"@
}

/// Turns the outcome of a shape check into the reply the handlers expect.
fn validation_outcome(ok: bool) -> (r: Result<(), Error>)
    ensures
        ok <==> r is Ok,
        !ok ==> (r matches Err(e) && e matches Error::BadRequest(m) && m@ == validation_failed_msg()),
{
    if ok {
        Ok(())
    } else {
        Err(Error::BadRequest("Validation failed".to_owned()))
    }
}

/// Plain creation shape: no validation rules are attached to it.
pub struct CreateUserDto {
    pub name: String,
    pub email: String,
    pub password: String,
}

/// Inbound registration shape.
pub struct RegisterUserDto {
    pub name: String,
    pub email: String,
    pub password: String,
    pub password_confirm: String,
}

/// The registration shape is acceptable when the name has 3 to 50
/// characters, the email has 3 to 50 characters and is a valid address, the
/// password has at least 6 characters, and the non-empty confirmation
/// repeats the password.
pub open spec fn register_dto_valid(
    name: Seq<char>,
    email: Seq<char>,
    password: Seq<char>,
    password_confirm: Seq<char>,
) -> bool {
    &&& 3 <= name.len() <= 50
    &&& 3 <= email.len() <= 50
    &&& email_ok(email)
    &&& password.len() >= 6
    &&& password_confirm.len() >= 1
    &&& password_confirm == password
}

impl RegisterUserDto {
    pub fn validate(&self) -> (r: Result<(), Error>)
        ensures
            r is Ok <==> register_dto_valid(self.name@, self.email@, self.password@, self.password_confirm@),
            r matches Err(e) ==> (e matches Error::BadRequest(m) && m@ == validation_failed_msg()),
    {
        let name_len = self.name.as_str().unicode_len();
        let email_len = self.email.as_str().unicode_len();
        let ok = 3 <= name_len && name_len <= 50
            && 3 <= email_len && email_len <= 50
            && check_email(self.email.as_str())
            && self.password.as_str().unicode_len() >= 6
            && self.password_confirm.as_str().unicode_len() >= 1
            && self.password_confirm == self.password;
        validation_outcome(ok)
    }
}

/// Inbound login shape.
pub struct LoginUserDto {
    pub email: String,
    pub password: String,
}

/// The login shape is acceptable when the email is non-empty and a valid
/// address and the password has at least 6 characters.
pub open spec fn login_dto_valid(email: Seq<char>, password: Seq<char>) -> bool {
    &&& email.len() >= 1
    &&& email_ok(email)
    &&& password.len() >= 6
}

impl LoginUserDto {
    pub fn validate(&self) -> (r: Result<(), Error>)
        ensures
            r is Ok <==> login_dto_valid(self.email@, self.password@),
            r matches Err(e) ==> (e matches Error::BadRequest(m) && m@ == validation_failed_msg()),
    {
        let ok = self.email.as_str().unicode_len() >= 1
            && check_email(self.email.as_str())
            && self.password.as_str().unicode_len() >= 6;
        validation_outcome(ok)
    }
}

/// Outbound user shape: the stored record without its secrets (no password
/// hash, no pending token).
pub struct FilterUserDto {
    pub id: u64,
    pub name: String,
    pub email: String,
    pub role: String,
    pub verified: bool,
    pub created_at: u64,
    pub updated_at: u64,
}

/// How an outbound user shape relates to the record it was filtered from.
pub open spec fn is_filtered_user(f: FilterUserDto, u: UserView) -> bool {
    &&& f.id == u.id
    &&& f.name@ == u.name
    &&& f.email@ == u.email
    &&& f.role@ == spec_role_str(u.role)
    &&& f.verified == u.verified
    &&& f.created_at == u.created_at
    &&& f.updated_at == u.updated_at
}

impl FilterUserDto {
    pub fn filter_user(user: &User) -> (r: FilterUserDto)
        ensures
            is_filtered_user(r, user@),
    {
        FilterUserDto {
            id: user.id,
            name: user.name.clone(),
            email: user.email.clone(),
            verified: user.verified,
            role: user.role.to_str().to_owned(),
            created_at: user.created_at,
            updated_at: user.updated_at,
        }
    }

    pub fn filter_users(user: &[User]) -> (r: Vec<FilterUserDto>)
        ensures
            r@.len() == user@.len(),
            forall|i: int| 0 <= i < r@.len() ==> is_filtered_user(#[trigger] r@[i], user@[i]@),
    {
        let mut out: Vec<FilterUserDto> = Vec::new();
        let n = user.len();
        let mut i: usize = 0;
        while i < n
            invariant
                n == user@.len(),
                i <= n,
                out@.len() == i,
                forall|j: int| 0 <= j < i ==> is_filtered_user(#[trigger] out@[j], user@[j]@),
            decreases n - i,
        {
            out.push(FilterUserDto::filter_user(&user[i]));
            i = i + 1;
        }
        out
    }
}

/// Wrapper around the outbound user shape.
pub struct UserData {
    pub user: FilterUserDto,
}

/// Reply body carrying one outbound user.
pub struct UserResponseDto {
    pub status: String,
    pub data: UserData,
}

/// Reply body carrying a freshly issued session token.
pub struct UserLoginResponseDto {
    pub status: String,
    pub token: String,
}

/// Inbound forgot-password shape.
pub struct ForgotPasswordRequestDto {
    pub email: String,
}

/// The forgot-password shape is acceptable when the email is non-empty and a
/// valid address.
pub open spec fn forgot_password_dto_valid(email: Seq<char>) -> bool {
    &&& email.len() >= 1
    &&& email_ok(email)
}

impl ForgotPasswordRequestDto {
    pub fn validate(&self) -> (r: Result<(), Error>)
        ensures
            r is Ok <==> forgot_password_dto_valid(self.email@),
            r matches Err(e) ==> (e matches Error::BadRequest(m) && m@ == validation_failed_msg()),
    {
        let ok = self.email.as_str().unicode_len() >= 1 && check_email(self.email.as_str());
        validation_outcome(ok)
    }
}

/// Inbound reset-password shape.
pub struct ResetPasswordRequestDto {
    pub token: String,
    pub new_password: String,
    pub new_password_confirm: String,
}

/// The reset shape is acceptable when the token is non-empty, the new
/// password has at least 6 characters, and the confirmation repeats it.
pub open spec fn reset_password_dto_valid(
    token: Seq<char>,
    new_password: Seq<char>,
    new_password_confirm: Seq<char>,
) -> bool {
    &&& token.len() >= 1
    &&& new_password.len() >= 6
    &&& new_password_confirm.len() >= 6
    &&& new_password_confirm == new_password
}

impl ResetPasswordRequestDto {
    pub fn validate(&self) -> (r: Result<(), Error>)
        ensures
            r is Ok <==> reset_password_dto_valid(self.token@, self.new_password@, self.new_password_confirm@),
            r matches Err(e) ==> (e matches Error::BadRequest(m) && m@ == validation_failed_msg()),
    {
        let ok = self.token.as_str().unicode_len() >= 1
            && self.new_password.as_str().unicode_len() >= 6
            && self.new_password_confirm.as_str().unicode_len() >= 6
            && self.new_password_confirm == self.new_password;
        validation_outcome(ok)
    }
}

/// Inbound deletion shape.
pub struct DeleteUser {
    pub user_id: String,
    pub password: String,
}

/// Inbound password-change shape for an authenticated user.
pub struct UserPasswordUpdateDto {
    pub new_password: String,
    pub new_password_confirm: String,
    pub old_password: String,
}

/// The password-change shape is acceptable when old and new passwords have
/// at least 6 characters and the confirmation repeats the new password.
pub open spec fn password_update_dto_valid(
    new_password: Seq<char>,
    new_password_confirm: Seq<char>,
    old_password: Seq<char>,
) -> bool {
    &&& new_password.len() >= 6
    &&& new_password_confirm.len() >= 6
    &&& new_password_confirm == new_password
    &&& old_password.len() >= 6
}

impl UserPasswordUpdateDto {
    pub fn validate(&self) -> (r: Result<(), Error>)
        ensures
            r is Ok <==> password_update_dto_valid(self.new_password@, self.new_password_confirm@, self.old_password@),
            r matches Err(e) ==> (e matches Error::BadRequest(m) && m@ == validation_failed_msg()),
    {
        let ok = self.new_password.as_str().unicode_len() >= 6
            && self.new_password_confirm.as_str().unicode_len() >= 6
            && self.new_password_confirm == self.new_password
            && self.old_password.as_str().unicode_len() >= 6;
        validation_outcome(ok)
    }
}

/// Inbound username-change shape for an authenticated user.
pub struct NameUpdateDto {
    pub name: String,
    pub password: String,
}

/// The username-change shape is acceptable when name and password are
/// non-empty.
pub open spec fn name_update_dto_valid(name: Seq<char>, password: Seq<char>) -> bool {
    &&& name.len() >= 1
    &&& password.len() >= 1
}

impl NameUpdateDto {
    pub fn validate(&self) -> (r: Result<(), Error>)
        ensures
            r is Ok <==> name_update_dto_valid(self.name@, self.password@),
            r matches Err(e) ==> (e matches Error::BadRequest(m) && m@ == validation_failed_msg()),
    {
        let ok = self.name.as_str().unicode_len() >= 1
            && self.password.as_str().unicode_len() >= 1;
        validation_outcome(ok)
    }
}

/// Query shape of the email-verification endpoint.
pub struct VerifyEmailQueryDto {
    pub token: String,
}

impl VerifyEmailQueryDto {
    pub fn validate(&self) -> (r: Result<(), Error>)
        ensures
            r is Ok <==> self.token@.len() >= 1,
            r matches Err(e) ==> (e matches Error::BadRequest(m) && m@ == validation_failed_msg()),
    {
        validation_outcome(self.token.as_str().unicode_len() >= 1)
    }
}

} // verus!
