//! The account store: accounts found by email or by id, with at most one
//! account per email. This store keeps its accounts in memory; it states what
//! any backing store has to do.

use crate::clock::unix_now;
use crate::ids::{fresh_id, FRESH_ID_LEN};
use crate::error::{AuthError, StoreStage};
use crate::models::{new_account, updated_account, UpdateProfileRequest, User, UserView};
use vstd::prelude::*;

verus! {

/// True when some account in `s` has the email.
pub open spec fn has_email(s: Seq<UserView>, email: Seq<char>) -> bool {
    exists|i: int| 0 <= i < s.len() && (#[trigger] s[i]).email == email
}

/// True when some account in `s` has the id.
pub open spec fn has_id(s: Seq<UserView>, id: Seq<char>) -> bool {
    exists|i: int| 0 <= i < s.len() && (#[trigger] s[i]).id == id
}

/// True when no two accounts in `s` share an email or an id.
pub open spec fn distinct_accounts(s: Seq<UserView>) -> bool {
    forall|i: int, j: int|
        0 <= i < s.len() && 0 <= j < s.len() && i != j ==> (#[trigger] s[i]).email != (
        #[trigger] s[j]).email && s[i].id != s[j].id
}

/// The place in `s` of an account with the email, where there is one.
pub open spec fn place_of_email(s: Seq<UserView>, email: Seq<char>) -> int {
    choose|i: int| 0 <= i < s.len() && (#[trigger] s[i]).email == email
}

/// The place in `s` of an account with the id, where there is one.
pub open spec fn place_of_id(s: Seq<UserView>, id: Seq<char>) -> int {
    choose|i: int| 0 <= i < s.len() && (#[trigger] s[i]).id == id
}

/// The account in `s` with the email, if any.
pub open spec fn account_by_email(s: Seq<UserView>, email: Seq<char>) -> Option<UserView> {
    if has_email(s, email) {
        Some(s[place_of_email(s, email)])
    } else {
        None
    }
}

/// The account in `s` with the id, if any.
pub open spec fn account_by_id(s: Seq<UserView>, id: Seq<char>) -> Option<UserView> {
    if has_id(s, id) {
        Some(s[place_of_id(s, id)])
    } else {
        None
    }
}

/// The view of an account that may be missing.
pub open spec fn opt_account(u: Option<User>) -> Option<UserView> {
    match u {
        Some(x) => Some(x@),
        None => None,
    }
}

/// Where accounts are distinct, the account at place `i` is the one that its
/// email and its id find.
pub proof fn lemma_place_is_unique(s: Seq<UserView>, i: int)
    requires
        distinct_accounts(s),
        0 <= i < s.len(),
    ensures
        account_by_email(s, s[i].email) == Some(s[i]),
        account_by_id(s, s[i].id) == Some(s[i]),
        place_of_email(s, s[i].email) == i,
        place_of_id(s, s[i].id) == i,
{
    let e = place_of_email(s, s[i].email);
    assert(0 <= e < s.len() && s[e].email == s[i].email);
    let d = place_of_id(s, s[i].id);
    assert(0 <= d < s.len() && s[d].id == s[i].id);
}

/// Distinct accounts stay distinct when an account is added whose email and
/// id are free.
pub proof fn lemma_push_keeps_distinct(s: Seq<UserView>, u: UserView)
    requires
        distinct_accounts(s),
        !has_email(s, u.email),
        !has_id(s, u.id),
    ensures
        distinct_accounts(s.push(u)),
{
    let t = s.push(u);
    assert forall|i: int, j: int| 0 <= i < t.len() && 0 <= j < t.len() && i != j implies (
    #[trigger] t[i]).email != (#[trigger] t[j]).email && t[i].id != t[j].id by {
        if i < s.len() {
            assert(s[i] == t[i]);
        }
        if j < s.len() {
            assert(s[j] == t[j]);
        }
    }
}

/// After an account is added, its email and its id find it, and every other
/// email and id finds what it found before.
pub proof fn lemma_lookup_after_push(
    s: Seq<UserView>,
    u: UserView,
    email: Seq<char>,
    id: Seq<char>,
)
    requires
        distinct_accounts(s.push(u)),
    ensures
        account_by_email(s.push(u), email) == (if email == u.email {
            Some(u)
        } else {
            account_by_email(s, email)
        }),
        account_by_id(s.push(u), id) == (if id == u.id {
            Some(u)
        } else {
            account_by_id(s, id)
        }),
{
    let t = s.push(u);
    let last = s.len() as int;
    assert(t[last] == u);
    assert forall|i: int, j: int| 0 <= i < s.len() && 0 <= j < s.len() && i != j implies (
    #[trigger] s[i]).email != (#[trigger] s[j]).email && s[i].id != s[j].id by {
        assert(t[i] == s[i] && t[j] == s[j]);
    }
    lemma_place_is_unique(t, last);
    if email != u.email {
        if has_email(s, email) {
            let k = place_of_email(s, email);
            assert(t[k] == s[k]);
            lemma_place_is_unique(t, k);
            lemma_place_is_unique(s, k);
        } else if has_email(t, email) {
            let k = place_of_email(t, email);
            assert(k < s.len() ==> s[k] == t[k]);
        }
    }
    if id != u.id {
        if has_id(s, id) {
            let k = place_of_id(s, id);
            assert(t[k] == s[k]);
            lemma_place_is_unique(t, k);
            lemma_place_is_unique(s, k);
        } else if has_id(t, id) {
            let k = place_of_id(t, id);
            assert(k < s.len() ==> s[k] == t[k]);
        }
    }
}

/// Distinct accounts stay distinct when one is replaced by an account with
/// the same email and id.
pub proof fn lemma_update_keeps_distinct(s: Seq<UserView>, i: int, u: UserView)
    requires
        distinct_accounts(s),
        0 <= i < s.len(),
        u.email == s[i].email,
        u.id == s[i].id,
    ensures
        distinct_accounts(s.update(i, u)),
{
    let t = s.update(i, u);
    assert forall|a: int, b: int| 0 <= a < t.len() && 0 <= b < t.len() && a != b implies (
    #[trigger] t[a]).email != (#[trigger] t[b]).email && t[a].id != t[b].id by {
        assert(s[a].email == t[a].email && s[a].id == t[a].id);
        assert(s[b].email == t[b].email && s[b].id == t[b].id);
    }
}

/// True when some account in `s` has an id as long as a fresh one. Only
/// such an account can stand in the way of a fresh id.
pub open spec fn fresh_id_may_be_taken(s: Seq<UserView>) -> bool {
    exists|i: int| 0 <= i < s.len() && (#[trigger] s[i]).id.len() == FRESH_ID_LEN
}

/// A new account for `email` with a fresh id and both timestamps set to the
/// current time: the record that a store is asked to insert.
pub fn fresh_account(email: &str, password_hash: &str) -> (u: User)
    ensures
        u@ == new_account(u@.id, email@, password_hash@, u@.created_at),
        u@.id.len() == FRESH_ID_LEN,
{
    let id = fresh_id();
    let now = unix_now();
    User::new(id, email.to_owned(), password_hash.to_owned(), now)
}

/// The accounts, in the order in which they were created.
pub struct UserRepository {
    users: Vec<User>,
}

impl View for UserRepository {
    type V = Seq<UserView>;

    closed spec fn view(&self) -> Seq<UserView> {
        Seq::new(self.users.len() as nat, |i: int| self.users[i]@)
    }
}

impl UserRepository {
    /// True of every store: no two accounts share an email or an id.
    pub open spec fn wf(&self) -> bool {
        distinct_accounts(self@)
    }

    /// The invariant of the type: every store is well formed, at all times.
    #[verifier::type_invariant]
    spec fn well_formed(&self) -> bool {
        self.wf()
    }

    /// An empty store.
    pub fn new() -> (s: Self)
        ensures
            s.wf(),
            s@ == Seq::<UserView>::empty(),
    {
        UserRepository { users: Vec::new() }
    }

    /// The number of accounts.
    pub fn len(&self) -> (n: usize)
        ensures
            self.wf(),
            n == self@.len(),
    {
        proof {
            use_type_invariant(self);
        }
        self.users.len()
    }

    fn position_by_email(&self, email: &str) -> (r: Option<usize>)
        ensures
            match r {
                Some(i) => i < self@.len() && self@[i as int].email == email@,
                None => !has_email(self@, email@),
            },
    {
        let key = email.to_owned();
        let mut i: usize = 0;
        while i < self.users.len()
            invariant
                i <= self.users.len(),
                key@ == email@,
                forall|j: int| 0 <= j < i ==> (#[trigger] self@[j]).email != email@,
            decreases self.users.len() - i,
        {
            if self.users[i].email == key {
                return Some(i);
            }
            i += 1;
        }
        None
    }

    fn position_by_id(&self, id: &str) -> (r: Option<usize>)
        ensures
            match r {
                Some(i) => i < self@.len() && self@[i as int].id == id@,
                None => !has_id(self@, id@),
            },
    {
        let key = id.to_owned();
        let mut i: usize = 0;
        while i < self.users.len()
            invariant
                i <= self.users.len(),
                key@ == id@,
                forall|j: int| 0 <= j < i ==> (#[trigger] self@[j]).id != id@,
            decreases self.users.len() - i,
        {
            if self.users[i].id == key {
                return Some(i);
            }
            i += 1;
        }
        None
    }

    /// The account with the email, if there is one.
    pub fn find_by_email(&self, email: &str) -> (r: Option<User>)
        ensures
            self.wf(),
            opt_account(r) == account_by_email(self@, email@),
    {
        proof {
            use_type_invariant(self);
        }
        match self.position_by_email(email) {
            Some(i) => {
                proof {
                    lemma_place_is_unique(self@, i as int);
                }
                Some(self.users[i].duplicate())
            },
            None => None,
        }
    }

    /// The account with the id, if there is one.
    pub fn find_by_id(&self, id: &str) -> (r: Option<User>)
        ensures
            self.wf(),
            opt_account(r) == account_by_id(self@, id@),
    {
        proof {
            use_type_invariant(self);
        }
        match self.position_by_id(id) {
            Some(i) => {
                proof {
                    lemma_place_is_unique(self@, i as int);
                }
                Some(self.users[i].duplicate())
            },
            None => None,
        }
    }

    /// Adds the account that creation yields for `id`, `email` and
    /// `password_hash` at time `now`. Fails with `EmailExists` where the
    /// email is taken, else with `StoreError` where the id is taken; the store
    /// is then unchanged.
    pub fn insert(&mut self, id: &str, email: &str, password_hash: &str, now: i64) -> (r: Result<
        User,
        AuthError,
    >)
        ensures
            final(self).wf(),
            match r {
                Ok(u) => {
                    &&& !has_email(old(self)@, email@)
                    &&& !has_id(old(self)@, id@)
                    &&& u@ == new_account(id@, email@, password_hash@, now as int)
                    &&& final(self)@ == old(self)@.push(u@)
                    &&& account_by_email(final(self)@, email@) == Some(u@)
                    &&& account_by_id(final(self)@, id@) == Some(u@)
                },
                Err(e) => {
                    &&& final(self)@ == old(self)@
                    &&& if has_email(old(self)@, email@) {
                        e == AuthError::EmailExists
                    } else {
                        has_id(old(self)@, id@) && e == AuthError::StoreError(StoreStage::Create)
                    }
                },
            },
    {
        proof {
            use_type_invariant(&*self);
        }
        if self.position_by_email(email).is_some() {
            return Err(AuthError::EmailExists);
        }
        if self.position_by_id(id).is_some() {
            return Err(AuthError::StoreError(StoreStage::Create));
        }
        let user = User::new(id.to_owned(), email.to_owned(), password_hash.to_owned(), now);
        let copy = user.duplicate();
        // The accounts are taken out while they change, so that the store is
        // well formed whenever it is whole.
        let mut users = Vec::new();
        core::mem::swap(&mut self.users, &mut users);
        users.push(user);
        proof {
            lemma_push_keeps_distinct(old(self)@, copy@);
            lemma_lookup_after_push(old(self)@, copy@, email@, id@);
            assert(Seq::new(users.len() as nat, |i: int| users[i]@) =~= old(self)@.push(copy@));
        }
        core::mem::swap(&mut self.users, &mut users);
        Ok(copy)
    }

    /// Creates an account for `email` with a fresh id, both timestamps set to
    /// the current time. Fails with `EmailExists` exactly where the email is
    /// taken. It can fail otherwise only where the fresh id is taken, and so
    /// never in a store without an id of that length. A failure leaves the
    /// store unchanged.
    pub fn create_user(&mut self, email: &str, password_hash: &str) -> (r: Result<User, AuthError>)
        ensures
            final(self).wf(),
            has_email(old(self)@, email@) ==> r == Err::<User, AuthError>(AuthError::EmailExists),
            !has_email(old(self)@, email@) && !fresh_id_may_be_taken(old(self)@) ==> r is Ok,
            match r {
                Ok(u) => {
                    &&& !has_email(old(self)@, email@)
                    &&& !has_id(old(self)@, u@.id)
                    &&& u@ == new_account(u@.id, email@, password_hash@, u@.created_at)
                    &&& u@.id.len() == FRESH_ID_LEN
                    &&& final(self)@ == old(self)@.push(u@)
                    &&& account_by_email(final(self)@, email@) == Some(u@)
                    &&& account_by_id(final(self)@, u@.id) == Some(u@)
                },
                Err(e) => {
                    &&& final(self)@ == old(self)@
                    &&& e == AuthError::EmailExists || e == AuthError::StoreError(StoreStage::Create)
                    &&& e == AuthError::EmailExists <==> has_email(old(self)@, email@)
                    &&& e == AuthError::StoreError(StoreStage::Create) ==> fresh_id_may_be_taken(
                        old(self)@,
                    )
                },
            },
    {
        let id = fresh_id();
        let now = unix_now();
        let r = self.insert(id.as_str(), email, password_hash, now);
        proof {
            if r is Err && !has_email(old(self)@, email@) {
                let i = place_of_id(old(self)@, id@);
                assert(old(self)@[i].id.len() == FRESH_ID_LEN);
            }
        }
        r
    }

    /// Writes the provided profile fields of the account `id` at time `now`:
    /// a field that is `None` stays, `updated_at` becomes `now`, and nothing
    /// else changes. Fails with `NotFound` exactly where no account has the
    /// id; the store is then unchanged.
    pub fn update_profile_at(&mut self, id: &str, fields: &UpdateProfileRequest, now: i64) -> (r:
        Result<User, AuthError>)
        ensures
            final(self).wf(),
            match r {
                Ok(u) => {
                    &&& account_by_id(old(self)@, id@) matches Some(before)
                    &&& u@ == updated_account(before, fields@, now as int)
                    &&& final(self)@ == old(self)@.update(place_of_id(old(self)@, id@), u@)
                    &&& account_by_id(final(self)@, id@) == Some(u@)
                },
                Err(e) => {
                    &&& e == AuthError::NotFound
                    &&& !has_id(old(self)@, id@)
                    &&& final(self)@ == old(self)@
                },
            },
    {
        proof {
            use_type_invariant(&*self);
        }
        match self.position_by_id(id) {
            None => Err(AuthError::NotFound),
            Some(i) => {
                proof {
                    lemma_place_is_unique(self@, i as int);
                }
                let updated = self.users[i].duplicate().apply_update(fields, now);
                let copy = updated.duplicate();
                let mut users = Vec::new();
                core::mem::swap(&mut self.users, &mut users);
                users.set(i, updated);
                proof {
                    lemma_update_keeps_distinct(old(self)@, i as int, copy@);
                    lemma_place_is_unique(old(self)@.update(i as int, copy@), i as int);
                    assert(Seq::new(users.len() as nat, |k: int| users[k]@) =~= old(self)@.update(
                        i as int,
                        copy@,
                    ));
                }
                core::mem::swap(&mut self.users, &mut users);
                Ok(copy)
            },
        }
    }

    /// Writes the provided profile fields of the account `id` and sets its
    /// `updated_at` to the current time.
    pub fn update_profile(&mut self, id: &str, fields: &UpdateProfileRequest) -> (r: Result<
        User,
        AuthError,
    >)
        ensures
            final(self).wf(),
            match r {
                Ok(u) => {
                    &&& account_by_id(old(self)@, id@) matches Some(before)
                    &&& u@ == updated_account(before, fields@, u@.updated_at)
                    &&& final(self)@ == old(self)@.update(place_of_id(old(self)@, id@), u@)
                    &&& account_by_id(final(self)@, id@) == Some(u@)
                },
                Err(e) => {
                    &&& e == AuthError::NotFound
                    &&& !has_id(old(self)@, id@)
                    &&& final(self)@ == old(self)@
                },
            },
    {
        let now = unix_now();
        self.update_profile_at(id, fields, now)
    }
}

} // verus!
