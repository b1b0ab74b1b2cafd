//! The operations of the account service: register, log in, read and update
//! a profile. Each drives the state machine of [`crate::flow`] against the
//! account store, the credential hasher and the token service, and reports
//! the outcome as an HTTP status with a body.

use crate::clock::unix_now;
use crate::error::{reports, AuthError, StoreStage};
use crate::flow::{
    answer_view, login_issue, registration_issue, start_login, start_register, step, AuthEvent,
    AuthEventView, AuthState, AuthStateView,
};
use crate::hasher::{
    bcrypt_matches, describes_itself, is_hash_string, CredentialHasher, DEFAULT_COST,
};
use crate::jwt::{issued_to, verified, JwtService};
use crate::models::{
    new_account, opt_text, profile_of, updated_account, AuthResponse, AuthResponseView,
    ErrorResponse, LoginRequest, RegisterRequest, UpdateProfileRequest, UpdateProfileView, User,
    UserProfile, UserProfileView, UserView,
};
use crate::ids::FRESH_ID_LEN;
use crate::repository::{
    account_by_email, account_by_id, fresh_id_may_be_taken, has_email, has_id, opt_account,
    place_of_id, UserRepository,
};
use vstd::prelude::*;

verus! {

/// Status of a successful registration.
pub const STATUS_CREATED: u16 = 201;

/// The collaborators that every request works with.
pub struct AppState {
    pub user_repo: UserRepository,
    pub jwt_service: JwtService,
    pub hasher: CredentialHasher,
}

/// What the store answers to a lookup by email.
pub open spec fn lookup_answer(store: Seq<UserView>, email: Seq<char>) -> AuthEventView {
    match account_by_email(store, email) {
        Some(u) => AuthEventView::Found(u),
        None => AuthEventView::Missing,
    }
}

/// What the hasher answers to a check of a password against a hash.
pub open spec fn check_answer(password: Seq<char>, password_hash: Seq<char>) -> AuthEventView {
    match bcrypt_matches(password, password_hash) {
        Some(b) => AuthEventView::Checked(b),
        None => AuthEventView::Failed,
    }
}

/// True when `after` is `before` with one account more, made for `email`
/// with an id that was free and a credential that is a hash string, not the
/// password, and matches `password`.
pub open spec fn account_added(
    before: Seq<UserView>,
    after: Seq<UserView>,
    email: Seq<char>,
    password: Seq<char>,
) -> bool {
    let u = after.last();
    &&& after.len() == before.len() + 1
    &&& after == before.push(u)
    &&& !has_id(before, u.id)
    &&& u.id.len() == FRESH_ID_LEN
    &&& u == new_account(u.id, email, u.password_hash, u.created_at)
    &&& is_hash_string(u.password_hash)
    &&& bcrypt_matches(password, u.password_hash) == Some(true)
}

/// True when `e` is an answer that the collaborators of a service with the
/// secret `key` can give in state `s`, the store going from `before` to
/// `after`. Lookups and checks have one possible answer. Hashing and
/// issuing may fail, and succeed in more than one way: a salt, an identifier
/// and the time are picked. Creating fails only where the email or the
/// fresh id is taken.
pub open spec fn answered(
    before: Seq<UserView>,
    after: Seq<UserView>,
    key: Seq<char>,
    s: AuthStateView,
    e: AuthEventView,
) -> bool {
    match s {
        AuthStateView::RegisterLookup { email, password } => after == before && e == lookup_answer(
            before,
            email,
        ),
        AuthStateView::LoginLookup { email, password } => after == before && e == lookup_answer(
            before,
            email,
        ),
        AuthStateView::RegisterHash { email, password } => after == before && (match e {
            AuthEventView::Hashed(h) => is_hash_string(h) && bcrypt_matches(password, h) == Some(
                true,
            ),
            AuthEventView::Failed => true,
            _ => false,
        }),
        AuthStateView::RegisterCreate { email, password_hash } => match e {
            AuthEventView::Created(u) => {
                &&& !has_email(before, email)
                &&& !has_id(before, u.id)
                &&& u.id.len() == FRESH_ID_LEN
                &&& u == new_account(u.id, email, password_hash, u.created_at)
                &&& after == before.push(u)
            },
            AuthEventView::Duplicate => has_email(before, email) && after == before,
            AuthEventView::Failed => {
                &&& !has_email(before, email)
                &&& fresh_id_may_be_taken(before)
                &&& after == before
            },
            _ => false,
        },
        AuthStateView::LoginVerify { user_id, email, password, password_hash } => after == before
            && e == check_answer(password, password_hash),
        AuthStateView::IssueToken { user_id, email } => after == before && (match e {
            AuthEventView::Issued(t) => issued_to(key, t, user_id, email),
            AuthEventView::Failed => true,
            _ => false,
        }),
        AuthStateView::Finished(_) => after == before && e == AuthEventView::Failed,
    }
}

/// True when `r` is an answer that registration of `email` with `password`
/// can give, the store going from `before` to `after`.
///
/// A request with an issue is refused with that issue. A valid one for an
/// email that is taken is refused with `EmailExists`. Any other succeeds
/// unless the hasher or the token service fails or the fresh id is taken,
/// which it cannot be in a store without an id of that length. On success the
/// store has one account more, and the token is one issued to that account.
/// Where only the token fails the account stays.
pub open spec fn registered(
    before: Seq<UserView>,
    after: Seq<UserView>,
    key: Seq<char>,
    email: Seq<char>,
    password: Seq<char>,
    r: Result<AuthResponseView, AuthError>,
) -> bool {
    match r {
        Ok(resp) => {
            &&& registration_issue(email, password) is None
            &&& !has_email(before, email)
            &&& account_added(before, after, email, password)
            &&& resp.user_id == after.last().id
            &&& resp.email == email
            &&& issued_to(key, resp.token, resp.user_id, email)
        },
        Err(AuthError::ValidationError(issue)) => {
            &&& registration_issue(email, password) == Some(issue)
            &&& after == before
        },
        Err(AuthError::EmailExists) => {
            &&& registration_issue(email, password) is None
            &&& has_email(before, email)
            &&& after == before
        },
        Err(AuthError::HashError) => {
            &&& registration_issue(email, password) is None
            &&& !has_email(before, email)
            &&& after == before
        },
        Err(AuthError::StoreError(StoreStage::Create)) => {
            &&& registration_issue(email, password) is None
            &&& !has_email(before, email)
            &&& fresh_id_may_be_taken(before)
            &&& after == before
        },
        Err(AuthError::TokenIssueError) => {
            &&& registration_issue(email, password) is None
            &&& !has_email(before, email)
            &&& account_added(before, after, email, password)
        },
        Err(_) => false,
    }
}

/// True when `r` is an answer that a login with `email` and `password` can
/// give against the accounts `store`.
///
/// Everything is decided by the request and the store but the token: its
/// issuing may fail, and the token depends on the time.
pub open spec fn logged_in(
    store: Seq<UserView>,
    key: Seq<char>,
    email: Seq<char>,
    password: Seq<char>,
    r: Result<AuthResponseView, AuthError>,
) -> bool {
    match login_issue(email, password) {
        Some(issue) => r == Err::<AuthResponseView, AuthError>(AuthError::ValidationError(issue)),
        None => match account_by_email(store, email) {
            None => r == Err::<AuthResponseView, AuthError>(AuthError::InvalidCredentials),
            Some(u) => match bcrypt_matches(password, u.password_hash) {
                None => r == Err::<AuthResponseView, AuthError>(AuthError::VerifyError),
                Some(false) => r == Err::<AuthResponseView, AuthError>(
                    AuthError::InvalidCredentials,
                ),
                Some(true) => match r {
                    Ok(resp) => {
                        &&& resp.user_id == u.id
                        &&& resp.email == u.email
                        &&& issued_to(key, resp.token, u.id, u.email)
                    },
                    Err(e) => e == AuthError::TokenIssueError,
                },
            },
        },
    }
}

/// What reading the profile with `token` at time `now` yields.
pub open spec fn profile_read(store: Seq<UserView>, key: Seq<char>, token: Seq<char>, now: int)
    -> Result<UserProfileView, AuthError> {
    match verified(key, token, now) {
        None => Err(AuthError::InvalidToken),
        Some(claims) => profile_found(account_by_id(store, claims.sub)),
    }
}

/// What updating the profile with `token` and `fields` at time `now` yields,
/// and the store after it.
pub open spec fn profile_written(
    store: Seq<UserView>,
    key: Seq<char>,
    token: Seq<char>,
    fields: UpdateProfileView,
    now: int,
) -> (Result<UserProfileView, AuthError>, Seq<UserView>) {
    match verified(key, token, now) {
        None => (Err(AuthError::InvalidToken), store),
        Some(claims) => match account_by_id(store, claims.sub) {
            None => (Err(AuthError::NotFound), store),
            Some(u) => {
                let v = updated_account(u, fields, now);
                (Ok(profile_of(v)), store.update(place_of_id(store, claims.sub), v))
            },
        },
    }
}

/// What a lookup by id is worth to a request for a profile.
pub open spec fn profile_found(found: Option<UserView>) -> Result<UserProfileView, AuthError> {
    match found {
        Some(u) => Ok(profile_of(u)),
        None => Err(AuthError::NotFound),
    }
}

/// Number of characters in [`bearer_prefix`].
pub const BEARER_PREFIX_LEN: usize = 7;

/// What stands before the token in an `Authorization` header.
pub open spec fn bearer_prefix() -> Seq<char> {
    "Bearer "@
}

/// The token in the value of an `Authorization` header: what follows the
/// prefix `Bearer` and one space, if the value starts with them.
pub open spec fn bearer_of(header: Seq<char>) -> Option<Seq<char>> {
    if header.len() >= BEARER_PREFIX_LEN && header.subrange(0, BEARER_PREFIX_LEN as int)
        == bearer_prefix() {
        Some(header.subrange(BEARER_PREFIX_LEN as int, header.len() as int))
    } else {
        None
    }
}

/// The view of a profile or the error in its place.
pub open spec fn profile_view(r: Result<UserProfile, AuthError>) -> Result<
    UserProfileView,
    AuthError,
> {
    match r {
        Ok(p) => Ok(p@),
        Err(e) => Err(e),
    }
}

impl AppState {
    /// A service with an empty store and the default work factor that signs
    /// its tokens with `secret`.
    pub fn new(secret: &str) -> (s: Self)
        ensures
            s.user_repo@ == Seq::<UserView>::empty(),
            s.jwt_service.key() == secret@,
            s.hasher.cost() == DEFAULT_COST,
    {
        AppState {
            user_repo: UserRepository::new(),
            jwt_service: JwtService::new(secret),
            hasher: CredentialHasher::new(),
        }
    }

    /// A service with an empty store that hashes with `hasher` and signs its
    /// tokens with `secret`.
    pub fn with_hasher(secret: &str, hasher: CredentialHasher) -> (s: Self)
        ensures
            s.user_repo@ == Seq::<UserView>::empty(),
            s.jwt_service.key() == secret@,
            s.hasher == hasher,
    {
        AppState {
            user_repo: UserRepository::new(),
            jwt_service: JwtService::new(secret),
            hasher,
        }
    }
}

/// Asks the collaborator that `st` names, where that leaves the store as it
/// is: every state but the one that creates the account.
fn query(state: &AppState, st: &AuthState) -> (e: AuthEvent)
    requires
        !(st@ is RegisterCreate),
    ensures
        answered(state.user_repo@, state.user_repo@, state.jwt_service.key(), st@, e@),
{
    match st {
        AuthState::RegisterLookup { email, password } => {
            match state.user_repo.find_by_email(email.as_str()) {
                Some(u) => AuthEvent::Found(u),
                None => AuthEvent::Missing,
            }
        },
        AuthState::LoginLookup { email, password } => {
            match state.user_repo.find_by_email(email.as_str()) {
                Some(u) => AuthEvent::Found(u),
                None => AuthEvent::Missing,
            }
        },
        AuthState::RegisterHash { email, password } => {
            match state.hasher.hash(password.as_str()) {
                Ok(h) => {
                    assert(describes_itself(h@, state.hasher.cost()));
                    AuthEvent::Hashed(h)
                },
                Err(_) => AuthEvent::Failed,
            }
        },
        AuthState::LoginVerify { user_id, email, password, password_hash } => {
            match state.hasher.verify(password.as_str(), password_hash.as_str()) {
                Ok(b) => AuthEvent::Checked(b),
                Err(_) => AuthEvent::Failed,
            }
        },
        AuthState::IssueToken { user_id, email } => {
            match state.jwt_service.create_token(user_id.as_str(), email.as_str()) {
                Ok(t) => AuthEvent::Issued(t),
                Err(_) => AuthEvent::Failed,
            }
        },
        _ => AuthEvent::Failed,
    }
}

/// Does what the state `st` asks for and hands back the answer as an event.
/// Nothing is asked for in a finished state: the event is then `Failed`,
/// which the next step ignores.
pub fn perform(state: &mut AppState, st: &AuthState) -> (e: AuthEvent)
    ensures
        final(state).jwt_service == old(state).jwt_service,
        final(state).hasher == old(state).hasher,
        answered(
            old(state).user_repo@,
            final(state).user_repo@,
            old(state).jwt_service.key(),
            st@,
            e@,
        ),
{
    match st {
        AuthState::RegisterCreate { email, password_hash } => {
            match state.user_repo.create_user(email.as_str(), password_hash.as_str()) {
                Ok(u) => AuthEvent::Created(u),
                Err(AuthError::EmailExists) => AuthEvent::Duplicate,
                Err(_) => AuthEvent::Failed,
            }
        },
        _ => query(state, st),
    }
}

/// Registers an account: validates the request, makes sure that the email is
/// free, hashes the password, creates the account and issues its first token.
pub fn register_user(state: &mut AppState, payload: RegisterRequest) -> (r: Result<
    AuthResponse,
    AuthError,
>)
    ensures
        final(state).jwt_service == old(state).jwt_service,
        final(state).hasher == old(state).hasher,
        registered(
            old(state).user_repo@,
            final(state).user_repo@,
            old(state).jwt_service.key(),
            payload.email@,
            payload.password@,
            answer_view(r),
        ),
{
    // A registration is answered after at most four steps: lookup, hash,
    // create, token. A step from a finished state changes nothing.
    let looking = start_register(payload);
    let found = perform(state, &looking);
    let hashing = step(looking, found);
    let hashed = perform(state, &hashing);
    let creating = step(hashing, hashed);
    let created = perform(state, &creating);
    let issuing = step(creating, created);
    let token = perform(state, &issuing);
    let done = step(issuing, token);
    assert(done@ is Finished);
    match done.into_answer() {
        Some(answer) => answer,
        None => Err(AuthError::TokenIssueError),
    }
}

/// Logs in: validates the request, finds the account, checks the password
/// and issues a fresh token. An unknown email and a wrong password give the
/// same error.
pub fn login_user(state: &AppState, payload: LoginRequest) -> (r: Result<AuthResponse, AuthError>)
    ensures
        logged_in(
            state.user_repo@,
            state.jwt_service.key(),
            payload.email@,
            payload.password@,
            answer_view(r),
        ),
{
    // A login is answered after at most three steps: lookup, check, token.
    let looking = start_login(payload);
    let found = query(state, &looking);
    let checking = step(looking, found);
    let checked = query(state, &checking);
    let issuing = step(checking, checked);
    let token = query(state, &issuing);
    let done = step(issuing, token);
    assert(done@ is Finished);
    match done.into_answer() {
        Some(answer) => answer,
        None => Err(AuthError::TokenIssueError),
    }
}

/// The reply that reports `e`, as the error of a handler.
fn report<T>(e: AuthError) -> (r: Result<T, (u16, ErrorResponse)>)
    ensures
        r matches Err(reply) && reports(reply, e),
{
    Err(e.to_response())
}

/// `POST /auth/register`: registers an account and answers with status 201
/// and the token, or with the status and body that report the failure.
pub fn register(state: &mut AppState, payload: RegisterRequest) -> (r: Result<
    (u16, AuthResponse),
    (u16, ErrorResponse),
>)
    ensures
        final(state).jwt_service == old(state).jwt_service,
        final(state).hasher == old(state).hasher,
        match r {
            Ok((status, resp)) => status == STATUS_CREATED && registered(
                old(state).user_repo@,
                final(state).user_repo@,
                old(state).jwt_service.key(),
                payload.email@,
                payload.password@,
                Ok(resp@),
            ),
            Err(reply) => exists|e: AuthError| #[trigger]
                reports(reply, e) && registered(
                    old(state).user_repo@,
                    final(state).user_repo@,
                    old(state).jwt_service.key(),
                    payload.email@,
                    payload.password@,
                    Err(e),
                ),
        },
{
    match register_user(state, payload) {
        Ok(resp) => Ok((STATUS_CREATED, resp)),
        Err(e) => report(e),
    }
}

/// `POST /auth/login`: logs in and answers with the token, or with the
/// status and body that report the failure.
pub fn login(state: &AppState, payload: LoginRequest) -> (r: Result<
    AuthResponse,
    (u16, ErrorResponse),
>)
    ensures
        match r {
            Ok(resp) => logged_in(
                state.user_repo@,
                state.jwt_service.key(),
                payload.email@,
                payload.password@,
                Ok(resp@),
            ),
            Err(reply) => exists|e: AuthError| #[trigger]
                reports(reply, e) && logged_in(
                    state.user_repo@,
                    state.jwt_service.key(),
                    payload.email@,
                    payload.password@,
                    Err(e),
                ),
        },
{
    match login_user(state, payload) {
        Ok(resp) => Ok(resp),
        Err(e) => report(e),
    }
}

/// Takes the bearer token out of the value of an `Authorization` header.
pub fn bearer_token(header: &str) -> (r: Option<String>)
    ensures
        opt_text(r) == bearer_of(header@),
{
    proof {
        reveal_strlit("Bearer ");
    }
    let prefix = "Bearer ";
    let n = header.unicode_len();
    if n < BEARER_PREFIX_LEN {
        return None;
    }
    let mut i: usize = 0;
    while i < BEARER_PREFIX_LEN
        invariant
            i <= BEARER_PREFIX_LEN,
            n == header@.len(),
            n >= BEARER_PREFIX_LEN,
            prefix@ == bearer_prefix(),
            prefix@.len() == BEARER_PREFIX_LEN,
            forall|j: int| 0 <= j < i ==> header@[j] == prefix@[j],
        decreases BEARER_PREFIX_LEN - i,
    {
        if header.get_char(i) != prefix.get_char(i) {
            assert(header@.subrange(0, BEARER_PREFIX_LEN as int)[i as int] != prefix@[i as int]);
            return None;
        }
        i += 1;
    }
    assert(header@.subrange(0, BEARER_PREFIX_LEN as int) =~= prefix@);
    Some(header.substring_char(BEARER_PREFIX_LEN, n).to_owned())
}

/// Decides what a lookup by id is worth to a request for a profile: the
/// profile of the account, or `NotFound`.
pub fn found_profile(found: Option<User>) -> (r: Result<UserProfile, AuthError>)
    ensures
        profile_view(r) == profile_found(opt_account(found)),
{
    match found {
        Some(u) => Ok(u.profile()),
        None => Err(AuthError::NotFound),
    }
}

/// Reads the profile of the account that `token` names, at time `now`.
/// Fails with `InvalidToken` where the token is not accepted at `now`, and
/// with `NotFound` where no account has the id it names.
pub fn profile_at(state: &AppState, token: &str, now: i64) -> (r: Result<UserProfile, AuthError>)
    ensures
        profile_view(r) == profile_read(
            state.user_repo@,
            state.jwt_service.key(),
            token@,
            now as int,
        ),
{
    match state.jwt_service.verify_token_at(token, now) {
        Err(_) => Err(AuthError::InvalidToken),
        Ok(claims) => found_profile(state.user_repo.find_by_id(claims.sub.as_str())),
    }
}

/// Writes the provided profile fields of the account that `token` names, at
/// time `now`, and hands back the new profile.
pub fn write_profile_at(
    state: &mut AppState,
    token: &str,
    fields: &UpdateProfileRequest,
    now: i64,
) -> (r: Result<UserProfile, AuthError>)
    ensures
        final(state).jwt_service == old(state).jwt_service,
        final(state).hasher == old(state).hasher,
        (profile_view(r), final(state).user_repo@) == profile_written(
            old(state).user_repo@,
            old(state).jwt_service.key(),
            token@,
            fields@,
            now as int,
        ),
{
    match state.jwt_service.verify_token_at(token, now) {
        Err(_) => Err(AuthError::InvalidToken),
        Ok(claims) => match state.user_repo.update_profile_at(claims.sub.as_str(), fields, now) {
            Err(_) => Err(AuthError::NotFound),
            Ok(u) => Ok(u.profile()),
        },
    }
}

/// `GET /profile`: reads the profile of the account that the bearer token
/// names, or answers with the status and body that report the failure.
pub fn get_profile(state: &AppState, token: &str) -> (r: Result<UserProfile, (u16, ErrorResponse)>)
    ensures
        match r {
            Ok(p) => exists|now: int| #[trigger]
                profile_read(state.user_repo@, state.jwt_service.key(), token@, now) == Ok::<
                    UserProfileView,
                    AuthError,
                >(p@),
            Err(reply) => exists|now: int, e: AuthError|
                #![trigger reports(reply, e), profile_read(state.user_repo@, state.jwt_service.key(), token@, now)]
                reports(reply, e) && profile_read(
                    state.user_repo@,
                    state.jwt_service.key(),
                    token@,
                    now,
                ) == Err::<UserProfileView, AuthError>(e),
        },
{
    let now = unix_now();
    match profile_at(state, token, now) {
        Ok(p) => Ok(p),
        Err(e) => report(e),
    }
}

/// `PUT /profile`: writes the provided profile fields of the account that
/// the bearer token names and hands back the new profile, or answers with the
/// status and body that report the failure.
pub fn update_profile(state: &mut AppState, token: &str, fields: &UpdateProfileRequest) -> (r:
    Result<UserProfile, (u16, ErrorResponse)>)
    ensures
        final(state).jwt_service == old(state).jwt_service,
        final(state).hasher == old(state).hasher,
        match r {
            Ok(p) => exists|now: int|
                (Ok::<UserProfileView, AuthError>(p@), final(state).user_repo@)
                    == #[trigger] profile_written(
                    old(state).user_repo@,
                    old(state).jwt_service.key(),
                    token@,
                    fields@,
                    now,
                ),
            Err(reply) => exists|now: int, e: AuthError|
                #![trigger reports(reply, e), profile_written(old(state).user_repo@, old(state).jwt_service.key(), token@, fields@, now)]
                reports(reply, e) && (
                    Err::<UserProfileView, AuthError>(e),
                    final(state).user_repo@,
                ) == profile_written(
                    old(state).user_repo@,
                    old(state).jwt_service.key(),
                    token@,
                    fields@,
                    now,
                ),
        },
{
    let now = unix_now();
    match write_profile_at(state, token, fields, now) {
        Ok(p) => Ok(p),
        Err(e) => report(e),
    }
}

} // verus!
