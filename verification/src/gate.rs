//! Identity extraction and role gating for authenticated requests.
//!
//! The HTTP layer hands in the raw material: the `token` cookie, if any,
//! and the authorization header, if any. `authenticate` picks the presented
//! session token (cookie first, else the bearer value), decodes it, and
//! loads the user it names; `role_check` then guards a route against a set
//! of allowed roles, keeping no state and causing no writes.
use vstd::prelude::*;

use crate::codec;
use crate::codec::decode_result;
use crate::errors::Error;
use crate::store::{find_by_id, opt_str_view, UserStore};
use crate::users::{User, UserRole};

verus! {

/// The identity attached to a request after authentication.
pub struct JWTAuthMiddeware {
    pub user: User,
}

/// The view of an optional owned string.
pub open spec fn opt_string_view(s: Option<String>) -> Option<Seq<char>> {
    match s {
        Some(x) => Some(x@),
        None => None,
    }
}

/// The marker that introduces a bearer credential in the authorization
/// header.
pub open spec fn bearer_prefix() -> Seq<char> {
    "Bearer "@
}

/// The bearer value of an authorization header: what follows the marker,
/// when the header starts with it.
pub open spec fn bearer_of(header: Seq<char>) -> Option<Seq<char>> {
    if header.len() >= 7 && header.subrange(0, 7) == bearer_prefix() {
        Some(header.skip(7))
    } else {
        None
    }
}

/// The session token a request presents: the `token` cookie when present,
/// else the bearer value of the authorization header.
pub open spec fn presented_token(
    cookie: Option<Seq<char>>,
    header: Option<Seq<char>>,
) -> Option<Seq<char>> {
    match cookie {
        Some(c) => Some(c),
        None => match header {
            Some(h) => bearer_of(h),
            None => None,
        },
    }
}

/// Strips the bearer marker off an authorization header value.
pub fn extract_bearer(header: &str) -> (r: Option<String>)
    ensures
        opt_string_view(r) == bearer_of(header@),
{
    proof {
        reveal_strlit("Bearer ");
    }
    let n = header.unicode_len();
    if n < 7 {
        return None;
    }
    if header.get_char(0) != 'B' || header.get_char(1) != 'e' || header.get_char(2) != 'a'
        || header.get_char(3) != 'r' || header.get_char(4) != 'e' || header.get_char(5) != 'r'
        || header.get_char(6) != ' ' {
        proof {
            assert(header@.subrange(0, 7) != bearer_prefix()) by {
                let sub = header@.subrange(0, 7);
                assert(sub[0] == header@[0]);
                assert(sub[1] == header@[1]);
                assert(sub[2] == header@[2]);
                assert(sub[3] == header@[3]);
                assert(sub[4] == header@[4]);
                assert(sub[5] == header@[5]);
                assert(sub[6] == header@[6]);
            }
        }
        return None;
    }
    let rest = header.substring_char(7, n);
    proof {
        assert(header@.subrange(0, 7) =~= bearer_prefix());
        assert(header@.subrange(7, header@.len() as int) =~= header@.skip(7));
    }
    Some(rest.to_owned())
}

/// The authentication step of the request pipeline: picks the presented
/// token, verifies and decodes it, and loads the user it names. A missing
/// or rejected token is a uniform unauthorized error; a token naming an
/// unknown user is not found.
pub fn authenticate(
    store: &UserStore,
    jwt_secret: &str,
    cookie_token: Option<String>,
    authorization_header: Option<&str>,
    now: u64,
) -> (r: Result<JWTAuthMiddeware, Error>)
    ensures
        match presented_token(opt_string_view(cookie_token), opt_str_view(authorization_header)) {
            None => r == Err::<JWTAuthMiddeware, Error>(Error::Unauthorized),
            Some(t) => match decode_result(t, jwt_secret@, now) {
                Err(_) => r == Err::<JWTAuthMiddeware, Error>(Error::Unauthorized),
                Ok(sub) => match find_by_id(store@, sub) {
                    None => r == Err::<JWTAuthMiddeware, Error>(Error::NotFound),
                    Some(v) => r matches Ok(m) && m.user@ == v,
                },
            },
        },
{
    let token_opt = match cookie_token {
        Some(c) => Some(c),
        None => match authorization_header {
            Some(h) => extract_bearer(h),
            None => None,
        },
    };
    let token = match token_opt {
        Some(t) => t,
        None => {
            return Err(Error::Unauthorized);
        },
    };
    let sub = match codec::decode(jwt_secret, token.as_str(), now) {
        Ok(s) => s,
        Err(_) => {
            return Err(Error::Unauthorized);
        },
    };
    match store.get_user(Some(sub), None, None, None) {
        Some(u) => Ok(JWTAuthMiddeware { user: u }),
        None => Err(Error::NotFound),
    }
}

/// Lets a request through exactly when the authenticated identity's role
/// is in the allowed set; otherwise the request is forbidden. No state, no
/// side effects, purely a guard.
pub fn role_check(user: &JWTAuthMiddeware, required_roles: &Vec<UserRole>) -> (r: Result<(), Error>)
    ensures
        r is Ok <==> required_roles@.contains(user.user.role),
        r matches Err(e) ==> e == Error::Forbidden,
{
    let n = required_roles.len();
    let mut i: usize = 0;
    while i < n
        invariant
            n == required_roles@.len(),
            i <= n,
            forall|j: int| 0 <= j < i ==> (#[trigger] required_roles@[j]) != user.user.role,
        decreases n - i,
    {
        if required_roles[i] == user.user.role {
            return Ok(());
        }
        i = i + 1;
    }
    Err(Error::Forbidden)
}

} // verus!
