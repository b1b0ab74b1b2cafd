//! What holds of the service as a whole, proved from the contracts of its
//! parts.

use crate::error::{reports, AuthError};
use crate::flow::{
    byte_len, login_issue, login_start, next_state, register_start, registration_issue, run,
    AuthEventView, AuthStateView, MIN_PASSWORD_LEN,
};
use crate::handlers::{answered, logged_in, lookup_answer, registered};
use crate::hasher::{
    bcrypt_matches, check_result, describes_itself, is_hash_of, is_hash_string, HASH_HEAD_LEN,
    HASH_LEN,
};
use crate::ids::FRESH_ID_LEN;
use crate::jwt::{
    claims_at, issued_afresh_at, issued_at, issued_to, verified, TOKEN_LIFETIME_SECS,
};
use crate::models::{AuthResponseView, ErrorResponse, UserView};
use crate::repository::{
    account_by_email, account_by_id, distinct_accounts, fresh_id_may_be_taken, has_email,
    lemma_lookup_after_push, place_of_email,
};
use vstd::prelude::*;

verus! {

/// A token issued at time `t` is accepted, with the claims it was issued
/// with, at every time before `t` plus 24 hours, and rejected at that time
/// and at every later one.
pub proof fn law_token_lives_24_hours(
    secret: Seq<char>,
    token: Seq<char>,
    user_id: Seq<char>,
    email: Seq<char>,
    t: int,
    jti: Seq<char>,
    now: int,
)
    requires
        issued_at(secret, token, user_id, email, t, jti),
    ensures
        now < t + TOKEN_LIFETIME_SECS ==> verified(secret, token, now) == Some(
            claims_at(user_id, email, t, jti),
        ),
        now >= t + TOKEN_LIFETIME_SECS ==> verified(secret, token, now) is None,
{
}

/// Two tokens issued under one secret are different strings unless they
/// were issued to the same account at the same time with the same
/// identifier. So a token whose identifier no earlier token has is a new
/// token, also within the second in which another one was issued, and a
/// token issued at a later time is new whatever its identifier is.
pub proof fn law_tokens_differ(
    secret: Seq<char>,
    token1: Seq<char>,
    user_id1: Seq<char>,
    email1: Seq<char>,
    t1: int,
    jti1: Seq<char>,
    token2: Seq<char>,
    user_id2: Seq<char>,
    email2: Seq<char>,
    t2: int,
    jti2: Seq<char>,
)
    requires
        issued_at(secret, token1, user_id1, email1, t1, jti1),
        issued_at(secret, token2, user_id2, email2, t2, jti2),
        t1 != t2 || jti1 != jti2 || user_id1 != user_id2 || email1 != email2,
    ensures
        token1 != token2,
{
}

/// A hash made of a password matches that password: checking the password
/// against it yields `true`.
pub proof fn law_hash_then_verify(password: Seq<char>, hash: Seq<char>)
    requires
        is_hash_of(hash, password),
    ensures
        check_result(password, hash) == Ok::<bool, AuthError>(true),
{
}

/// A hash string has 60 characters and starts with the scheme `$2b$`, so a
/// password of another length is never its own hash: what is stored after a
/// registration is not that password.
pub proof fn law_hash_string_is_no_short_password(hash: Seq<char>, password: Seq<char>)
    requires
        is_hash_string(hash),
    ensures
        hash.len() == HASH_LEN,
        hash[0] == '$' && hash[1] == '2' && hash[2] == 'b' && hash[3] == '$' && hash[6] == '$',
        password.len() != HASH_LEN ==> hash != password,
        password.len() > 0 && password[0] != '$' ==> hash != password,
{
    let cost = choose|cost: int| #[trigger] describes_itself(hash, cost);
    let head = hash.subrange(0, HASH_HEAD_LEN as int);
    assert(head[0] == hash[0] && head[1] == hash[1] && head[2] == hash[2] && head[3] == hash[3]
        && head[6] == hash[6]);
}

/// The credential that a successful registration stores is a hash string
/// that matches the password.
pub proof fn law_registration_stores_a_hash(
    before: Seq<UserView>,
    after: Seq<UserView>,
    key: Seq<char>,
    email: Seq<char>,
    password: Seq<char>,
    r: Result<AuthResponseView, AuthError>,
)
    requires
        registered(before, after, key, email, password, r),
        r is Ok,
    ensures
        is_hash_string(after.last().password_hash),
        is_hash_of(after.last().password_hash, password),
        after.last().email == email,
{
}

/// A registration with a password shorter than six bytes is refused with a
/// validation error, whatever the email is, and leaves the store as it was.
pub proof fn law_short_password_is_refused(
    before: Seq<UserView>,
    after: Seq<UserView>,
    key: Seq<char>,
    email: Seq<char>,
    password: Seq<char>,
    r: Result<AuthResponseView, AuthError>,
)
    requires
        byte_len(password) < MIN_PASSWORD_LEN,
        registered(before, after, key, email, password, r),
    ensures
        registration_issue(email, password) is Some,
        r == Err::<AuthResponseView, AuthError>(
            AuthError::ValidationError(registration_issue(email, password)->0),
        ),
        register_start(email, password) == AuthStateView::Finished(r),
        after == before,
{
}

/// A valid registration for an email that is not taken succeeds whenever
/// the hasher, the store and the token service do: the store then has an
/// account with the email, the answer names that account and the email, and
/// at some time the token is accepted with the account's id as subject and
/// with the email.
pub proof fn law_register_succeeds(
    store: Seq<UserView>,
    key: Seq<char>,
    email: Seq<char>,
    password: Seq<char>,
    hash: Seq<char>,
    account: UserView,
    token: Seq<char>,
)
    requires
        registration_issue(email, password) is None,
        !has_email(store, email),
        answered(
            store,
            store,
            key,
            AuthStateView::RegisterHash { email, password },
            AuthEventView::Hashed(hash),
        ),
        answered(
            store,
            store.push(account),
            key,
            AuthStateView::RegisterCreate { email, password_hash: hash },
            AuthEventView::Created(account),
        ),
        answered(
            store.push(account),
            store.push(account),
            key,
            AuthStateView::IssueToken { user_id: account.id, email: account.email },
            AuthEventView::Issued(token),
        ),
    ensures
        run(
            register_start(email, password),
            seq![
                lookup_answer(store, email),
                AuthEventView::Hashed(hash),
                AuthEventView::Created(account),
                AuthEventView::Issued(token),
            ],
        ) == AuthStateView::Finished(
            Ok(AuthResponseView { token, user_id: account.id, email }),
        ),
        registered(
            store,
            store.push(account),
            key,
            email,
            password,
            Ok(AuthResponseView { token, user_id: account.id, email }),
        ),
        has_email(store.push(account), email),
        exists|now: int|
            (#[trigger] verified(key, token, now)) matches Some(c) && c.sub == account.id
                && c.email == email,
{
    let start = register_start(email, password);
    let events = seq![
        lookup_answer(store, email),
        AuthEventView::Hashed(hash),
        AuthEventView::Created(account),
        AuthEventView::Issued(token),
    ];
    let e3 = events.drop_last();
    let e2 = e3.drop_last();
    let e1 = e2.drop_last();
    let e0 = e1.drop_last();
    assert(e0.len() == 0);
    assert(run(start, e0) == start);
    assert(e1.last() == lookup_answer(store, email));
    assert(run(start, e1) == next_state(start, lookup_answer(store, email)));
    assert(e2.last() == AuthEventView::Hashed(hash));
    assert(run(start, e2) == next_state(run(start, e1), e2.last()));
    assert(e3.last() == AuthEventView::Created(account));
    assert(run(start, e3) == next_state(run(start, e2), e3.last()));
    assert(events.last() == AuthEventView::Issued(token));
    assert(run(start, events) == next_state(run(start, e3), events.last()));
    let after = store.push(account);
    assert(after.last() == account);
    assert(after[store.len() as int].email == email);
    let now = choose|now: int| #[trigger] issued_afresh_at(key, token, account.id, email, now);
    let jti = choose|jti: Seq<char>|
        jti.len() == FRESH_ID_LEN && #[trigger] issued_at(key, token, account.id, email, now, jti);
    assert(verified(key, token, now) == Some(claims_at(account.id, email, now, jti)));
}

/// What registration answers tells what became of the store: after a
/// successful registration the email is taken.
pub proof fn law_registered_email_is_taken(
    before: Seq<UserView>,
    after: Seq<UserView>,
    key: Seq<char>,
    email: Seq<char>,
    password: Seq<char>,
    r: Result<AuthResponseView, AuthError>,
)
    requires
        registered(before, after, key, email, password, r),
        r is Ok,
    ensures
        has_email(after, email),
        account_by_email(before, email) is None,
{
    assert(after[after.len() - 1].email == email);
}

/// In a store in which no account has an id as long as a fresh one, the
/// empty store among them, a valid registration for an email that is not
/// taken is never refused by the store: it succeeds unless the hasher or the
/// token service fails.
pub proof fn law_store_does_not_refuse_a_free_email(
    before: Seq<UserView>,
    after: Seq<UserView>,
    key: Seq<char>,
    email: Seq<char>,
    password: Seq<char>,
    r: Result<AuthResponseView, AuthError>,
)
    requires
        registration_issue(email, password) is None,
        !has_email(before, email),
        !fresh_id_may_be_taken(before),
        registered(before, after, key, email, password, r),
    ensures
        r is Ok || r == Err::<AuthResponseView, AuthError>(AuthError::HashError) || r == Err::<
            AuthResponseView,
            AuthError,
        >(AuthError::TokenIssueError),
        r != Err::<AuthResponseView, AuthError>(AuthError::HashError) ==> has_email(after, email),
{
    if r != Err::<AuthResponseView, AuthError>(AuthError::HashError) {
        assert(after[after.len() - 1].email == email);
    }
}

/// After a successful registration a lookup by the email finds the new
/// account, and the answer names it.
pub proof fn law_registered_account_is_found(
    before: Seq<UserView>,
    after: Seq<UserView>,
    key: Seq<char>,
    email: Seq<char>,
    password: Seq<char>,
    r: Result<AuthResponseView, AuthError>,
)
    requires
        distinct_accounts(after),
        registered(before, after, key, email, password, r),
        r is Ok,
    ensures
        account_by_email(after, email) == Some(after.last()),
        account_by_id(after, r->Ok_0.user_id) == Some(after.last()),
{
    lemma_lookup_after_push(before, after.last(), email, r->Ok_0.user_id);
}

/// A login with the email and the password of a registration that
/// succeeded succeeds too, whenever the token service does, and names the
/// same account.
pub proof fn law_login_after_registration(
    before: Seq<UserView>,
    after: Seq<UserView>,
    key: Seq<char>,
    email: Seq<char>,
    password: Seq<char>,
    r1: Result<AuthResponseView, AuthError>,
    r2: Result<AuthResponseView, AuthError>,
)
    requires
        distinct_accounts(after),
        registered(before, after, key, email, password, r1),
        r1 is Ok,
        logged_in(after, key, email, password, r2),
        r2 != Err::<AuthResponseView, AuthError>(AuthError::TokenIssueError),
    ensures
        r2 matches Ok(resp) && resp.user_id == r1->Ok_0.user_id && resp.email == email
            && issued_to(key, resp.token, resp.user_id, email),
{
    law_registered_account_is_found(before, after, key, email, password, r1);
}

/// Registering the same email a second time, after a first registration
/// that succeeded, is refused with `EmailExists` and leaves the store as the
/// first left it.
pub proof fn law_second_registration_is_refused(
    before: Seq<UserView>,
    between: Seq<UserView>,
    after: Seq<UserView>,
    key: Seq<char>,
    email: Seq<char>,
    password1: Seq<char>,
    password2: Seq<char>,
    r1: Result<AuthResponseView, AuthError>,
    r2: Result<AuthResponseView, AuthError>,
)
    requires
        registered(before, between, key, email, password1, r1),
        r1 is Ok,
        registration_issue(email, password2) is None,
        registered(between, after, key, email, password2, r2),
    ensures
        r2 == Err::<AuthResponseView, AuthError>(AuthError::EmailExists),
        after == between,
{
    law_registered_email_is_taken(before, between, key, email, password1, r1);
}

/// A login with an email that no account has and a login with the wrong
/// password for an account that exists get the same error, and so the same
/// status, code and message: nobody can tell from the answer whether an email
/// is registered.
pub proof fn law_login_failures_look_alike(
    store: Seq<UserView>,
    key: Seq<char>,
    unknown_email: Seq<char>,
    any_password: Seq<char>,
    known_email: Seq<char>,
    wrong_password: Seq<char>,
    r1: Result<AuthResponseView, AuthError>,
    r2: Result<AuthResponseView, AuthError>,
    reply1: (u16, ErrorResponse),
    reply2: (u16, ErrorResponse),
)
    requires
        login_issue(unknown_email, any_password) is None,
        login_issue(known_email, wrong_password) is None,
        account_by_email(store, unknown_email) is None,
        account_by_email(store, known_email) matches Some(u) && bcrypt_matches(
            wrong_password,
            u.password_hash,
        ) == Some(false),
        logged_in(store, key, unknown_email, any_password, r1),
        logged_in(store, key, known_email, wrong_password, r2),
        r1 matches Err(e) && reports(reply1, e),
        r2 matches Err(e) && reports(reply2, e),
    ensures
        r1 == Err::<AuthResponseView, AuthError>(AuthError::InvalidCredentials),
        r2 == r1,
        reply1.0 == reply2.0,
        reply1.1.error@ == reply2.1.error@,
        reply1.1.message@ == reply2.1.message@,
        run(login_start(unknown_email, any_password), seq![AuthEventView::Missing]) == run(
            login_start(known_email, wrong_password),
            seq![
                AuthEventView::Found(account_by_email(store, known_email)->0),
                AuthEventView::Checked(false),
            ],
        ),
{
    let u = account_by_email(store, known_email)->0;
    let a = seq![AuthEventView::Missing];
    assert(a.drop_last().len() == 0);
    assert(a.last() == AuthEventView::Missing);
    let s1 = login_start(unknown_email, any_password);
    assert(run(s1, a.drop_last()) == s1);
    assert(run(s1, a) == next_state(s1, AuthEventView::Missing));
    let b = seq![AuthEventView::Found(u), AuthEventView::Checked(false)];
    let b1 = b.drop_last();
    assert(b1.drop_last().len() == 0);
    assert(b1.last() == AuthEventView::Found(u));
    assert(b.last() == AuthEventView::Checked(false));
    let s2 = login_start(known_email, wrong_password);
    assert(run(s2, b1.drop_last()) == s2);
    assert(run(s2, b1) == next_state(s2, AuthEventView::Found(u)));
    assert(run(s2, b) == next_state(run(s2, b1), AuthEventView::Checked(false)));
}

/// A login with the right password for an account that exists succeeds
/// whenever the token service does, and names that account.
pub proof fn law_login_succeeds(
    store: Seq<UserView>,
    key: Seq<char>,
    email: Seq<char>,
    password: Seq<char>,
    r: Result<AuthResponseView, AuthError>,
)
    requires
        login_issue(email, password) is None,
        account_by_email(store, email) matches Some(u) && bcrypt_matches(password, u.password_hash)
            == Some(true),
        logged_in(store, key, email, password, r),
        r != Err::<AuthResponseView, AuthError>(AuthError::TokenIssueError),
    ensures
        r matches Ok(resp) && resp.email == email && resp.user_id == account_by_email(
            store,
            email,
        )->0.id && issued_to(key, resp.token, resp.user_id, email),
{
    let i = place_of_email(store, email);
    assert(0 <= i < store.len() && store[i].email == email);
}

} // verus!
