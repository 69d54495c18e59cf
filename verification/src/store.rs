//! The credential store: persists user records and exposes lookup by any of
//! id, name, email or pending token, creation, the field updates the
//! services need, and consumption of pending tokens.
//!
//! This realization keeps the records in memory, in insertion order. Lookups
//! return the first matching record, mirroring a row store's behaviour. The
//! store enforces two uniqueness invariants: ids are drawn from a counter
//! and never reused, and no two accounts share an email. Pending-token and
//! expiry fields are set and cleared together.
use vstd::prelude::*;

use crate::users::{User, UserRole, UserView};

verus! {

/// The views of a sequence of stored records.
pub open spec fn views(us: Seq<User>) -> Seq<UserView> {
    us.map_values(|u: User| u@)
}

/// The view of an optionally found record.
pub open spec fn opt_view(r: Option<User>) -> Option<UserView> {
    match r {
        Some(u) => Some(u@),
        None => None,
    }
}

/// The view of an optional borrowed string.
pub open spec fn opt_str_view(s: Option<&str>) -> Option<Seq<char>> {
    match s {
        Some(x) => Some(x@),
        None => None,
    }
}

/// The first record with the given id, in storage order.
pub open spec fn find_by_id(s: Seq<UserView>, id: u64) -> Option<UserView>
    decreases s.len(),
{
    if s.len() <= 0 {
        None
    } else if s[0].id == id {
        Some(s[0])
    } else {
        find_by_id(s.drop_first(), id)
    }
}

/// The first record with the given name, in storage order.
pub open spec fn find_by_name(s: Seq<UserView>, name: Seq<char>) -> Option<UserView>
    decreases s.len(),
{
    if s.len() <= 0 {
        None
    } else if s[0].name == name {
        Some(s[0])
    } else {
        find_by_name(s.drop_first(), name)
    }
}

/// The first record with the given email, in storage order.
pub open spec fn find_by_email(s: Seq<UserView>, email: Seq<char>) -> Option<UserView>
    decreases s.len(),
{
    if s.len() <= 0 {
        None
    } else if s[0].email == email {
        Some(s[0])
    } else {
        find_by_email(s.drop_first(), email)
    }
}

/// The first record whose pending token is the given one, in storage order.
pub open spec fn find_token_holder(s: Seq<UserView>, token: Seq<char>) -> Option<UserView>
    decreases s.len(),
{
    if s.len() <= 0 {
        None
    } else if s[0].verification_token == Some(token) {
        Some(s[0])
    } else {
        find_token_holder(s.drop_first(), token)
    }
}

/// Whether some record has the given id.
pub open spec fn has_id(s: Seq<UserView>, id: u64) -> bool {
    find_by_id(s, id) is Some
}

/// Whether some record has the given email.
pub open spec fn has_email(s: Seq<UserView>, email: Seq<char>) -> bool {
    find_by_email(s, email) is Some
}

/// Whether some record holds the given pending token.
pub open spec fn has_token(s: Seq<UserView>, token: Seq<char>) -> bool {
    find_token_holder(s, token) is Some
}

/// No record is found for an id exactly when no record has it.
pub proof fn lemma_find_by_id_none(s: Seq<UserView>, id: u64)
    ensures
        (find_by_id(s, id) is None) <==> (forall|i: int| 0 <= i < s.len() ==> (#[trigger] s[i]).id != id),
    decreases s.len(),
{
    if s.len() > 0 {
        assert(forall|i: int| 0 <= i < s.drop_first().len() ==> #[trigger] s.drop_first()[i] == s[i + 1]);
        assert(forall|i: int| 1 <= i < s.len() ==> #[trigger] s[i] == s.drop_first()[i - 1]);
        lemma_find_by_id_none(s.drop_first(), id);
    }
}

/// The record at the first index carrying the id is the one found.
pub proof fn lemma_find_by_id_at(s: Seq<UserView>, id: u64, i: int)
    requires
        0 <= i < s.len(),
        s[i].id == id,
        forall|j: int| 0 <= j < i ==> (#[trigger] s[j]).id != id,
    ensures
        find_by_id(s, id) == Some(s[i]),
    decreases s.len(),
{
    if i > 0 {
        assert(forall|j: int| 0 <= j < s.drop_first().len() ==> #[trigger] s.drop_first()[j] == s[j + 1]);
        lemma_find_by_id_at(s.drop_first(), id, i - 1);
    }
}

/// No record is found for a name exactly when no record has it.
pub proof fn lemma_find_by_name_none(s: Seq<UserView>, name: Seq<char>)
    ensures
        (find_by_name(s, name) is None) <==> (forall|i: int| 0 <= i < s.len() ==> (#[trigger] s[i]).name != name),
    decreases s.len(),
{
    if s.len() > 0 {
        assert(forall|i: int| 0 <= i < s.drop_first().len() ==> #[trigger] s.drop_first()[i] == s[i + 1]);
        assert(forall|i: int| 1 <= i < s.len() ==> #[trigger] s[i] == s.drop_first()[i - 1]);
        lemma_find_by_name_none(s.drop_first(), name);
    }
}

/// The record at the first index carrying the name is the one found.
pub proof fn lemma_find_by_name_at(s: Seq<UserView>, name: Seq<char>, i: int)
    requires
        0 <= i < s.len(),
        s[i].name == name,
        forall|j: int| 0 <= j < i ==> (#[trigger] s[j]).name != name,
    ensures
        find_by_name(s, name) == Some(s[i]),
    decreases s.len(),
{
    if i > 0 {
        assert(forall|j: int| 0 <= j < s.drop_first().len() ==> #[trigger] s.drop_first()[j] == s[j + 1]);
        lemma_find_by_name_at(s.drop_first(), name, i - 1);
    }
}

/// No record is found for an email exactly when no record has it.
pub proof fn lemma_find_by_email_none(s: Seq<UserView>, email: Seq<char>)
    ensures
        (find_by_email(s, email) is None) <==> (forall|i: int| 0 <= i < s.len() ==> (#[trigger] s[i]).email != email),
    decreases s.len(),
{
    if s.len() > 0 {
        assert(forall|i: int| 0 <= i < s.drop_first().len() ==> #[trigger] s.drop_first()[i] == s[i + 1]);
        assert(forall|i: int| 1 <= i < s.len() ==> #[trigger] s[i] == s.drop_first()[i - 1]);
        lemma_find_by_email_none(s.drop_first(), email);
    }
}

/// The record at the first index carrying the email is the one found.
pub proof fn lemma_find_by_email_at(s: Seq<UserView>, email: Seq<char>, i: int)
    requires
        0 <= i < s.len(),
        s[i].email == email,
        forall|j: int| 0 <= j < i ==> (#[trigger] s[j]).email != email,
    ensures
        find_by_email(s, email) == Some(s[i]),
    decreases s.len(),
{
    if i > 0 {
        assert(forall|j: int| 0 <= j < s.drop_first().len() ==> #[trigger] s.drop_first()[j] == s[j + 1]);
        lemma_find_by_email_at(s.drop_first(), email, i - 1);
    }
}

/// No holder is found for a token exactly when no record holds it.
pub proof fn lemma_find_token_none(s: Seq<UserView>, token: Seq<char>)
    ensures
        (find_token_holder(s, token) is None) <==> (forall|i: int| 0 <= i < s.len() ==> (#[trigger] s[i]).verification_token != Some(token)),
    decreases s.len(),
{
    if s.len() > 0 {
        assert(forall|i: int| 0 <= i < s.drop_first().len() ==> #[trigger] s.drop_first()[i] == s[i + 1]);
        assert(forall|i: int| 1 <= i < s.len() ==> #[trigger] s[i] == s.drop_first()[i - 1]);
        lemma_find_token_none(s.drop_first(), token);
    }
}

/// The record at the first index holding the token is the one found.
pub proof fn lemma_find_token_at(s: Seq<UserView>, token: Seq<char>, i: int)
    requires
        0 <= i < s.len(),
        s[i].verification_token == Some(token),
        forall|j: int| 0 <= j < i ==> (#[trigger] s[j]).verification_token != Some(token),
    ensures
        find_token_holder(s, token) == Some(s[i]),
    decreases s.len(),
{
    if i > 0 {
        assert(forall|j: int| 0 <= j < s.drop_first().len() ==> #[trigger] s.drop_first()[j] == s[j + 1]);
        lemma_find_token_at(s.drop_first(), token, i - 1);
    }
}

/// What the store looks up for the given criteria: the first `Some`
/// criterion, in the order id, name, email, token, decides.
pub open spec fn get_user_spec(
    s: Seq<UserView>,
    user_id: Option<u64>,
    name: Option<Seq<char>>,
    email: Option<Seq<char>>,
    token: Option<Seq<char>>,
) -> Option<UserView> {
    match user_id {
        Some(id) => find_by_id(s, id),
        None => match name {
            Some(n) => find_by_name(s, n),
            None => match email {
                Some(e) => find_by_email(s, e),
                None => match token {
                    Some(t) => find_token_holder(s, t),
                    None => None,
                },
            },
        },
    }
}

/// The record `u` with its pending action consumed: token fields cleared,
/// and for the verification kind additionally marked verified with its
/// update time bumped.
pub open spec fn consumed_user(u: UserView, mark_verified: bool, now: u64) -> UserView {
    UserView {
        id: u.id,
        name: u.name,
        email: u.email,
        password: u.password,
        role: u.role,
        verified: if mark_verified { true } else { u.verified },
        verification_token: None,
        token_expires_at: None,
        created_at: u.created_at,
        updated_at: if mark_verified { now } else { u.updated_at },
    }
}

/// The store with every holder of `token` consumed.
pub open spec fn consume_token_effect(s: Seq<UserView>, token: Seq<char>, mark_verified: bool, now: u64) -> Seq<UserView> {
    Seq::new(s.len(), |i: int| if s[i].verification_token == Some(token) {
        consumed_user(s[i], mark_verified, now)
    } else {
        s[i]
    })
}

/// The record `u` with a fresh pending token and expiry horizon.
pub open spec fn pending_user(u: UserView, token: Seq<char>, expires_at: u64) -> UserView {
    UserView {
        id: u.id,
        name: u.name,
        email: u.email,
        password: u.password,
        role: u.role,
        verified: u.verified,
        verification_token: Some(token),
        token_expires_at: Some(expires_at),
        created_at: u.created_at,
        updated_at: u.updated_at,
    }
}

/// The store with a fresh pending token on the record with the given id.
pub open spec fn set_pending_effect(s: Seq<UserView>, id: u64, token: Seq<char>, expires_at: u64) -> Seq<UserView> {
    Seq::new(s.len(), |i: int| if s[i].id == id {
        pending_user(s[i], token, expires_at)
    } else {
        s[i]
    })
}

/// The record `u` with a new password hash and its update time bumped.
pub open spec fn password_updated_user(u: UserView, hash: Seq<char>, now: u64) -> UserView {
    UserView {
        id: u.id,
        name: u.name,
        email: u.email,
        password: hash,
        role: u.role,
        verified: u.verified,
        verification_token: u.verification_token,
        token_expires_at: u.token_expires_at,
        created_at: u.created_at,
        updated_at: now,
    }
}

/// The store with a new password hash on the record with the given id.
pub open spec fn update_password_effect(s: Seq<UserView>, id: u64, hash: Seq<char>, now: u64) -> Seq<UserView> {
    Seq::new(s.len(), |i: int| if s[i].id == id {
        password_updated_user(s[i], hash, now)
    } else {
        s[i]
    })
}

/// The record `u` renamed, with its update time bumped.
pub open spec fn renamed_user(u: UserView, name: Seq<char>, now: u64) -> UserView {
    UserView {
        id: u.id,
        name: name,
        email: u.email,
        password: u.password,
        role: u.role,
        verified: u.verified,
        verification_token: u.verification_token,
        token_expires_at: u.token_expires_at,
        created_at: u.created_at,
        updated_at: now,
    }
}

/// The store with the record of the given id renamed.
pub open spec fn update_name_effect(s: Seq<UserView>, id: u64, name: Seq<char>, now: u64) -> Seq<UserView> {
    Seq::new(s.len(), |i: int| if s[i].id == id {
        renamed_user(s[i], name, now)
    } else {
        s[i]
    })
}

/// Compares two borrowed strings by their characters.
pub(crate) fn str_eq(a: &str, b: &str) -> (r: bool)
    ensures
        r == (a@ == b@),
{
    let x: String = a.to_owned();
    let y: String = b.to_owned();
    x == y
}

/// The in-memory credential store. `next_id` is the id the next created
/// record will receive; ids of stored records are always below it, which
/// keeps them unique.
pub struct UserStore {
    pub users: Vec<User>,
    pub next_id: u64,
}

impl View for UserStore {
    type V = Seq<UserView>;

    open spec fn view(&self) -> Seq<UserView> {
        views(self.users@)
    }
}

impl UserStore {
    /// The store's invariant: ids unique and below the counter, emails
    /// unique, and pending token and expiry present together.
    pub open spec fn wf(self) -> bool {
        &&& forall|i: int, j: int| 0 <= i < j < self@.len() ==> (#[trigger] self@[i].id) != (#[trigger] self@[j].id)
        &&& forall|i: int, j: int| 0 <= i < j < self@.len() ==> (#[trigger] self@[i].email) != (#[trigger] self@[j].email)
        &&& forall|i: int| 0 <= i < self@.len() ==> ((#[trigger] self@[i].verification_token) is Some <==> self@[i].token_expires_at is Some)
        &&& forall|i: int| 0 <= i < self@.len() ==> (#[trigger] self@[i].id) < self.next_id
    }

    /// An empty store.
    pub fn new() -> (s: UserStore)
        ensures
            s@ =~= Seq::<UserView>::empty(),
            s.wf(),
            s.next_id == 0,
    {
        UserStore { users: Vec::new(), next_id: 0 }
    }

    /// Looks a record up by the first given criterion, in the order id,
    /// name, email, token; returns a copy of the first match in storage
    /// order.
    pub fn get_user(
        &self,
        user_id: Option<u64>,
        name: Option<&str>,
        email: Option<&str>,
        token: Option<&str>,
    ) -> (r: Option<User>)
        ensures
            opt_view(r) == get_user_spec(
                self@,
                user_id,
                opt_str_view(name),
                opt_str_view(email),
                opt_str_view(token),
            ),
    {
        if let Some(id) = user_id {
            self.find_id(id)
        } else if let Some(n) = name {
            self.find_name(n)
        } else if let Some(e) = email {
            self.find_email(e)
        } else if let Some(t) = token {
            self.find_token(t)
        } else {
            None
        }
    }

    /// The index of the record with the given id, if any.
    fn position_of_id(&self, id: u64) -> (r: Option<usize>)
        ensures
            r matches Some(i) ==> i < self@.len() && self@[i as int].id == id
                && (forall|j: int| 0 <= j < i ==> (#[trigger] self@[j]).id != id),
            r is None ==> (forall|j: int| 0 <= j < self@.len() ==> (#[trigger] self@[j]).id != id),
    {
        let n = self.users.len();
        let mut i: usize = 0;
        while i < n
            invariant
                n == self.users@.len(),
                i <= n,
                self@.len() == n,
                forall|j: int| 0 <= j < n ==> #[trigger] self@[j] == self.users@[j]@,
                forall|j: int| 0 <= j < i ==> (#[trigger] self@[j]).id != id,
            decreases n - i,
        {
            if self.users[i].id == id {
                return Some(i);
            }
            i = i + 1;
        }
        None
    }

    /// Creates a record with a fresh id: unverified, in the `User` role,
    /// with the given pending verification token and horizon. The caller
    /// guarantees that the email is not yet taken; the store keeps it
    /// unique.
    pub fn create_user(
        &mut self,
        name: &str,
        email: &str,
        password_hash: &str,
        verification_token: &str,
        token_expires_at: u64,
        now: u64,
    ) -> (u: User)
        requires
            old(self).wf(),
            !has_email(old(self)@, email@),
            old(self).next_id < u64::MAX,
        ensures
            final(self).wf(),
            final(self)@ == old(self)@.push(u@),
            final(self).next_id == old(self).next_id + 1,
            u@ == (UserView {
                id: old(self).next_id,
                name: name@,
                email: email@,
                password: password_hash@,
                role: UserRole::User,
                verified: false,
                verification_token: Some(verification_token@),
                token_expires_at: Some(token_expires_at),
                created_at: now,
                updated_at: now,
            }),
    {
        proof {
            lemma_find_by_email_none(self@, email@);
        }
        let u = User {
            id: self.next_id,
            name: name.to_owned(),
            email: email.to_owned(),
            password: password_hash.to_owned(),
            role: UserRole::User,
            verified: false,
            verification_token: Some(verification_token.to_owned()),
            token_expires_at: Some(token_expires_at),
            created_at: now,
            updated_at: now,
        };
        let r = u.duplicate();
        let ghost s0 = self@;
        self.users.push(u);
        self.next_id = self.next_id + 1;
        proof {
            assert(self@ =~= s0.push(r@));
        }
        r
    }

    /// Stores a fresh pending token and expiry on the record with the given
    /// id; a no-op when no record has it.
    pub fn set_pending_token(&mut self, user_id: u64, token: &str, expires_at: u64)
        requires
            old(self).wf(),
        ensures
            final(self).wf(),
            final(self).next_id == old(self).next_id,
            final(self)@ == set_pending_effect(old(self)@, user_id, token@, expires_at),
    {
        let ghost s0 = self@;
        let ghost eff = set_pending_effect(s0, user_id, token@, expires_at);
        match self.position_of_id(user_id) {
            None => {
                proof {
                    assert(self@ =~= eff);
                }
            },
            Some(i) => {
                let mut u = self.users[i].duplicate();
                u.verification_token = Some(token.to_owned());
                u.token_expires_at = Some(expires_at);
                self.users[i] = u;
                proof {
                    assert forall|j: int| 0 <= j < s0.len() && j != i implies #[trigger] s0[j].id != user_id by {}
                    assert(self@ =~= eff);
                }
            },
        }
    }

    /// Consumes every record holding the given pending token: clears the
    /// token fields and, for the verification kind (`mark_verified`), flips
    /// the record to verified and bumps its update time.
    pub fn consume_token(&mut self, token: &str, mark_verified: bool, now: u64)
        requires
            old(self).wf(),
        ensures
            final(self).wf(),
            final(self).next_id == old(self).next_id,
            final(self)@ == consume_token_effect(old(self)@, token@, mark_verified, now),
    {
        let ghost s0 = self@;
        let ghost eff = consume_token_effect(s0, token@, mark_verified, now);
        let ghost nid = self.next_id;
        let n = self.users.len();
        let mut i: usize = 0;
        while i < n
            invariant
                n == self.users@.len(),
                i <= n,
                self@.len() == n,
                s0.len() == n,
                eff == consume_token_effect(s0, token@, mark_verified, now),
                self.next_id == nid,
                forall|j: int| 0 <= j < n ==> #[trigger] self@[j] == self.users@[j]@,
                forall|j: int| 0 <= j < i ==> #[trigger] self@[j] == eff[j],
                forall|j: int| i <= j < n ==> #[trigger] self@[j] == s0[j],
            decreases n - i,
        {
            let ghost pre = self@;
            let ghost preu = self.users@;
            let held = match &self.users[i].verification_token {
                Some(t) => str_eq(t.as_str(), token),
                None => false,
            };
            if held {
                proof {
                    assert(self@[i as int] == self.users@[i as int]@);
                    assert(self@[i as int] == s0[i as int]);
                    assert(s0[i as int].verification_token == Some(token@));
                    assert(eff[i as int] == consumed_user(s0[i as int], mark_verified, now));
                }
                let mut u = self.users[i].duplicate();
                u.verification_token = None;
                u.token_expires_at = None;
                if mark_verified {
                    u.verified = true;
                    u.updated_at = now;
                }
                proof {
                    assert(u@ == consumed_user(s0[i as int], mark_verified, now));
                }
                self.users[i] = u;
                proof {
                    assert forall|j: int| 0 <= j < n && j != i as int implies self@[j] == pre[j] by {
                        assert(self@[j] == self.users@[j]@);
                        assert(self.users@[j] == preu[j]);
                        assert(pre[j] == preu[j]@);
                    }
                    assert(self@[i as int] == eff[i as int]);
                }
            } else {
                proof {
                    assert(self@[i as int] == self.users@[i as int]@);
                    assert(self@[i as int] == s0[i as int]);
                    assert(s0[i as int].verification_token != Some(token@));
                    assert(eff[i as int] == s0[i as int]);
                }
            }
            proof {
                assert forall|j: int| 0 <= j <= i as int implies self@[j] == eff[j] by {
                    if j != i as int {
                        assert(self@[j] == pre[j]);
                        assert(pre[j] == eff[j]);
                    }
                }
                assert forall|j: int| (i as int) < j < n implies self@[j] == s0[j] by {
                    assert(self@[j] == pre[j]);
                    assert(pre[j] == s0[j]);
                }
            }
            i = i + 1;
        }
        proof {
            assert(self@ =~= eff);
        }
    }

    /// Replaces the password hash of the record with the given id and bumps
    /// its update time; a no-op when no record has the id.
    pub fn update_password(&mut self, user_id: u64, new_hash: &str, now: u64)
        requires
            old(self).wf(),
        ensures
            final(self).wf(),
            final(self).next_id == old(self).next_id,
            final(self)@ == update_password_effect(old(self)@, user_id, new_hash@, now),
    {
        let ghost s0 = self@;
        let ghost eff = update_password_effect(s0, user_id, new_hash@, now);
        match self.position_of_id(user_id) {
            None => {
                proof {
                    assert(self@ =~= eff);
                }
            },
            Some(i) => {
                let mut u = self.users[i].duplicate();
                u.password = new_hash.to_owned();
                u.updated_at = now;
                self.users[i] = u;
                proof {
                    assert forall|j: int| 0 <= j < s0.len() && j != i implies #[trigger] s0[j].id != user_id by {}
                    assert(self@ =~= eff);
                }
            },
        }
    }

    /// Renames the record with the given id, bumps its update time, and
    /// returns a copy of the updated record; fails when no record has the
    /// id.
    pub fn update_username(&mut self, user_id: u64, new_name: &str, now: u64) -> (r: Option<User>)
        requires
            old(self).wf(),
        ensures
            final(self).wf(),
            final(self).next_id == old(self).next_id,
            final(self)@ == update_name_effect(old(self)@, user_id, new_name@, now),
            r is Some <==> has_id(old(self)@, user_id),
            r matches Some(u) ==> (find_by_id(old(self)@, user_id) matches Some(v)
                && u@ == renamed_user(v, new_name@, now)),
    {
        let ghost s0 = self@;
        let ghost eff = update_name_effect(s0, user_id, new_name@, now);
        match self.position_of_id(user_id) {
            None => {
                proof {
                    lemma_find_by_id_none(s0, user_id);
                    assert(self@ =~= eff);
                }
                None
            },
            Some(i) => {
                let mut u = self.users[i].duplicate();
                u.name = new_name.to_owned();
                u.updated_at = now;
                let r = u.duplicate();
                self.users[i] = u;
                proof {
                    lemma_find_by_id_at(s0, user_id, i as int);
                    assert forall|j: int| 0 <= j < s0.len() && j != i implies #[trigger] s0[j].id != user_id by {}
                    assert(self@ =~= eff);
                }
                Some(r)
            },
        }
    }

    /// Removes the record with the given id; a no-op when no record has it.
    pub fn delete_user(&mut self, user_id: u64)
        requires
            old(self).wf(),
        ensures
            final(self).wf(),
            final(self).next_id == old(self).next_id,
            !has_id(old(self)@, user_id) ==> final(self)@ == old(self)@,
            has_id(old(self)@, user_id) ==> (exists|i: int| 0 <= i < old(self)@.len()
                && (#[trigger] old(self)@[i]).id == user_id
                && final(self)@ == old(self)@.remove(i)),
    {
        let ghost s0 = self@;
        match self.position_of_id(user_id) {
            None => {
                proof {
                    lemma_find_by_id_none(s0, user_id);
                }
            },
            Some(i) => {
                self.users.remove(i);
                proof {
                    lemma_find_by_id_at(s0, user_id, i as int);
                    assert(self@ =~= s0.remove(i as int));
                }
            },
        }
    }

    fn find_id(&self, id: u64) -> (r: Option<User>)
        ensures
            opt_view(r) == find_by_id(self@, id),
    {
        let n = self.users.len();
        let mut i: usize = 0;
        while i < n
            invariant
                n == self.users@.len(),
                i <= n,
                self@.len() == n,
                forall|j: int| 0 <= j < n ==> #[trigger] self@[j] == self.users@[j]@,
                forall|j: int| 0 <= j < i ==> (#[trigger] self@[j]).id != id,
            decreases n - i,
        {
            if self.users[i].id == id {
                let u = self.users[i].duplicate();
                proof {
                    lemma_find_by_id_at(self@, id, i as int);
                }
                return Some(u);
            }
            i = i + 1;
        }
        proof {
            lemma_find_by_id_none(self@, id);
        }
        None
    }

    fn find_name(&self, name: &str) -> (r: Option<User>)
        ensures
            opt_view(r) == find_by_name(self@, name@),
    {
        let n = self.users.len();
        let mut i: usize = 0;
        while i < n
            invariant
                n == self.users@.len(),
                i <= n,
                self@.len() == n,
                forall|j: int| 0 <= j < n ==> #[trigger] self@[j] == self.users@[j]@,
                forall|j: int| 0 <= j < i ==> (#[trigger] self@[j]).name != name@,
            decreases n - i,
        {
            if str_eq(self.users[i].name.as_str(), name) {
                let u = self.users[i].duplicate();
                proof {
                    lemma_find_by_name_at(self@, name@, i as int);
                }
                return Some(u);
            }
            i = i + 1;
        }
        proof {
            lemma_find_by_name_none(self@, name@);
        }
        None
    }

    fn find_email(&self, email: &str) -> (r: Option<User>)
        ensures
            opt_view(r) == find_by_email(self@, email@),
    {
        let n = self.users.len();
        let mut i: usize = 0;
        while i < n
            invariant
                n == self.users@.len(),
                i <= n,
                self@.len() == n,
                forall|j: int| 0 <= j < n ==> #[trigger] self@[j] == self.users@[j]@,
                forall|j: int| 0 <= j < i ==> (#[trigger] self@[j]).email != email@,
            decreases n - i,
        {
            if str_eq(self.users[i].email.as_str(), email) {
                let u = self.users[i].duplicate();
                proof {
                    lemma_find_by_email_at(self@, email@, i as int);
                }
                return Some(u);
            }
            i = i + 1;
        }
        proof {
            lemma_find_by_email_none(self@, email@);
        }
        None
    }

    fn find_token(&self, token: &str) -> (r: Option<User>)
        ensures
            opt_view(r) == find_token_holder(self@, token@),
    {
        let n = self.users.len();
        let mut i: usize = 0;
        while i < n
            invariant
                n == self.users@.len(),
                i <= n,
                self@.len() == n,
                forall|j: int| 0 <= j < n ==> #[trigger] self@[j] == self.users@[j]@,
                forall|j: int| 0 <= j < i ==> (#[trigger] self@[j]).verification_token != Some(token@),
            decreases n - i,
        {
            let held = match &self.users[i].verification_token {
                Some(t) => str_eq(t.as_str(), token),
                None => false,
            };
            if held {
                let u = self.users[i].duplicate();
                proof {
                    lemma_find_token_at(self@, token@, i as int);
                }
                return Some(u);
            }
            i = i + 1;
        }
        proof {
            lemma_find_token_none(self@, token@);
        }
        None
    }
}

/// A verified account never reverts: none of the store's update effects
/// clears the verified flag of a record it keeps. Only consumption of a
/// verification token sets the flag, so it becomes true at most once.
pub proof fn lemma_verified_never_reverts(
    s: Seq<UserView>,
    id: u64,
    token: Seq<char>,
    hash: Seq<char>,
    name: Seq<char>,
    expires_at: u64,
    mark_verified: bool,
    now: u64,
)
    ensures
        forall|i: int| 0 <= i < s.len() && (#[trigger] s[i]).verified ==> consume_token_effect(
            s,
            token,
            mark_verified,
            now,
        )[i].verified,
        forall|i: int| 0 <= i < s.len() && (#[trigger] s[i]).verified ==> set_pending_effect(
            s,
            id,
            token,
            expires_at,
        )[i].verified,
        forall|i: int| 0 <= i < s.len() && (#[trigger] s[i]).verified ==> update_password_effect(
            s,
            id,
            hash,
            now,
        )[i].verified,
        forall|i: int| 0 <= i < s.len() && (#[trigger] s[i]).verified ==> update_name_effect(
            s,
            id,
            name,
            now,
        )[i].verified,
{
}

} // verus!
