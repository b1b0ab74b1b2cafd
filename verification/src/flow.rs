//! Registration and login as a state machine. A state says what is to be
//! asked of a collaborator next; an event is the collaborator's answer; one
//! step takes a state and an event to the next state. The machine itself asks
//! nobody: whoever drives it does, be it against a store in memory or
//! against a database.

use crate::error::{AuthError, StoreStage, ValidationIssue};
use crate::models::{
    AuthResponse, AuthResponseView, LoginRequest, RegisterRequest, User, UserView,
};
use vstd::prelude::*;

verus! {

/// Shortest password, in bytes, that registration accepts.
pub const MIN_PASSWORD_LEN: usize = 6;

/// The length of a password in bytes of UTF-8.
pub open spec fn byte_len(text: Seq<char>) -> nat {
    vstd::utf8::encode_utf8(text).len()
}

/// What is wrong with a registration request, if anything: an empty field
/// comes before a password that is too short.
pub open spec fn registration_issue(email: Seq<char>, password: Seq<char>) -> Option<
    ValidationIssue,
> {
    if email.len() == 0 || password.len() == 0 {
        Some(ValidationIssue::MissingCredentials)
    } else if byte_len(password) < MIN_PASSWORD_LEN {
        Some(ValidationIssue::PasswordTooShort)
    } else {
        None
    }
}

/// What is wrong with a login request, if anything.
pub open spec fn login_issue(email: Seq<char>, password: Seq<char>) -> Option<ValidationIssue> {
    if email.len() == 0 || password.len() == 0 {
        Some(ValidationIssue::MissingCredentials)
    } else {
        None
    }
}

/// Where a request stands: what is to be done next, with what it takes.
pub enum AuthState {
    /// Registration: ask the store for an account with `email`.
    RegisterLookup { email: String, password: String },
    /// Registration: hash `password`.
    RegisterHash { email: String, password: String },
    /// Registration: create the account.
    RegisterCreate { email: String, password_hash: String },
    /// Login: ask the store for the account with `email`.
    LoginLookup { email: String, password: String },
    /// Login: check `password` against `password_hash`.
    LoginVerify { user_id: String, email: String, password: String, password_hash: String },
    /// Either flow: issue a token to the account.
    IssueToken { user_id: String, email: String },
    /// The request is answered.
    Finished(Result<AuthResponse, AuthError>),
}

/// A state as plain mathematical values.
pub ghost enum AuthStateView {
    RegisterLookup { email: Seq<char>, password: Seq<char> },
    RegisterHash { email: Seq<char>, password: Seq<char> },
    RegisterCreate { email: Seq<char>, password_hash: Seq<char> },
    LoginLookup { email: Seq<char>, password: Seq<char> },
    LoginVerify {
        user_id: Seq<char>,
        email: Seq<char>,
        password: Seq<char>,
        password_hash: Seq<char>,
    },
    IssueToken { user_id: Seq<char>, email: Seq<char> },
    Finished(Result<AuthResponseView, AuthError>),
}

/// The view of an answer to a request.
pub open spec fn answer_view(r: Result<AuthResponse, AuthError>) -> Result<
    AuthResponseView,
    AuthError,
> {
    match r {
        Ok(resp) => Ok(resp@),
        Err(e) => Err(e),
    }
}

impl View for AuthState {
    type V = AuthStateView;

    open spec fn view(&self) -> AuthStateView {
        match *self {
            AuthState::RegisterLookup { email, password } => AuthStateView::RegisterLookup {
                email: email@,
                password: password@,
            },
            AuthState::RegisterHash { email, password } => AuthStateView::RegisterHash {
                email: email@,
                password: password@,
            },
            AuthState::RegisterCreate { email, password_hash } => AuthStateView::RegisterCreate {
                email: email@,
                password_hash: password_hash@,
            },
            AuthState::LoginLookup { email, password } => AuthStateView::LoginLookup {
                email: email@,
                password: password@,
            },
            AuthState::LoginVerify { user_id, email, password, password_hash } =>
                AuthStateView::LoginVerify {
                user_id: user_id@,
                email: email@,
                password: password@,
                password_hash: password_hash@,
            },
            AuthState::IssueToken { user_id, email } => AuthStateView::IssueToken {
                user_id: user_id@,
                email: email@,
            },
            AuthState::Finished(r) => AuthStateView::Finished(answer_view(r)),
        }
    }
}

/// What a collaborator answered.
pub enum AuthEvent {
    /// The store has this account.
    Found(User),
    /// The store has no such account.
    Missing,
    /// The password was hashed to this string.
    Hashed(String),
    /// The store created this account.
    Created(User),
    /// The store refused to create the account: the email is taken.
    Duplicate,
    /// The password was checked against the hash, with this result.
    Checked(bool),
    /// This token was issued.
    Issued(String),
    /// The collaborator failed.
    Failed,
}

/// An event as plain mathematical values.
pub ghost enum AuthEventView {
    Found(UserView),
    Missing,
    Hashed(Seq<char>),
    Created(UserView),
    Duplicate,
    Checked(bool),
    Issued(Seq<char>),
    Failed,
}

impl View for AuthEvent {
    type V = AuthEventView;

    open spec fn view(&self) -> AuthEventView {
        match *self {
            AuthEvent::Found(u) => AuthEventView::Found(u@),
            AuthEvent::Missing => AuthEventView::Missing,
            AuthEvent::Hashed(h) => AuthEventView::Hashed(h@),
            AuthEvent::Created(u) => AuthEventView::Created(u@),
            AuthEvent::Duplicate => AuthEventView::Duplicate,
            AuthEvent::Checked(b) => AuthEventView::Checked(b),
            AuthEvent::Issued(t) => AuthEventView::Issued(t@),
            AuthEvent::Failed => AuthEventView::Failed,
        }
    }
}

/// The state in which a registration request starts.
pub open spec fn register_start(email: Seq<char>, password: Seq<char>) -> AuthStateView {
    match registration_issue(email, password) {
        Some(issue) => AuthStateView::Finished(Err(AuthError::ValidationError(issue))),
        None => AuthStateView::RegisterLookup { email, password },
    }
}

/// The state in which a login request starts.
pub open spec fn login_start(email: Seq<char>, password: Seq<char>) -> AuthStateView {
    match login_issue(email, password) {
        Some(issue) => AuthStateView::Finished(Err(AuthError::ValidationError(issue))),
        None => AuthStateView::LoginLookup { email, password },
    }
}

/// The state that follows `s` on the event `e`. An event that is not an
/// answer to what `s` asks for counts as a failure of the collaborator asked.
/// A finished request stays as it is.
pub open spec fn next_state(s: AuthStateView, e: AuthEventView) -> AuthStateView {
    match s {
        AuthStateView::RegisterLookup { email, password } => match e {
            AuthEventView::Found(_) => AuthStateView::Finished(Err(AuthError::EmailExists)),
            AuthEventView::Missing => AuthStateView::RegisterHash { email, password },
            _ => AuthStateView::Finished(
                Err(AuthError::StoreError(StoreStage::CheckExisting)),
            ),
        },
        AuthStateView::RegisterHash { email, password } => match e {
            AuthEventView::Hashed(h) => AuthStateView::RegisterCreate { email, password_hash: h },
            _ => AuthStateView::Finished(Err(AuthError::HashError)),
        },
        AuthStateView::RegisterCreate { email, password_hash } => match e {
            AuthEventView::Created(u) => AuthStateView::IssueToken { user_id: u.id, email: u.email },
            AuthEventView::Duplicate => AuthStateView::Finished(Err(AuthError::EmailExists)),
            _ => AuthStateView::Finished(Err(AuthError::StoreError(StoreStage::Create))),
        },
        AuthStateView::LoginLookup { email, password } => match e {
            AuthEventView::Found(u) => AuthStateView::LoginVerify {
                user_id: u.id,
                email: u.email,
                password,
                password_hash: u.password_hash,
            },
            AuthEventView::Missing => AuthStateView::Finished(Err(AuthError::InvalidCredentials)),
            _ => AuthStateView::Finished(Err(AuthError::StoreError(StoreStage::Find))),
        },
        AuthStateView::LoginVerify { user_id, email, password, password_hash } => match e {
            AuthEventView::Checked(true) => AuthStateView::IssueToken { user_id, email },
            AuthEventView::Checked(false) => AuthStateView::Finished(
                Err(AuthError::InvalidCredentials),
            ),
            _ => AuthStateView::Finished(Err(AuthError::VerifyError)),
        },
        AuthStateView::IssueToken { user_id, email } => match e {
            AuthEventView::Issued(token) => AuthStateView::Finished(
                Ok(AuthResponseView { token, user_id, email }),
            ),
            _ => AuthStateView::Finished(Err(AuthError::TokenIssueError)),
        },
        AuthStateView::Finished(r) => AuthStateView::Finished(r),
    }
}

/// The state after the events `events`, taken in order from the state `s`.
pub open spec fn run(s: AuthStateView, events: Seq<AuthEventView>) -> AuthStateView
    decreases events.len(),
{
    if events.len() == 0 {
        s
    } else {
        next_state(run(s, events.drop_last()), events.last())
    }
}

/// Starts a registration: validates the request.
pub fn start_register(payload: RegisterRequest) -> (s: AuthState)
    ensures
        s@ == register_start(payload.email@, payload.password@),
{
    if payload.email.as_str().is_empty() || payload.password.as_str().is_empty() {
        return AuthState::Finished(
            Err(AuthError::ValidationError(ValidationIssue::MissingCredentials)),
        );
    }
    if payload.password.as_str().as_bytes().len() < MIN_PASSWORD_LEN {
        return AuthState::Finished(
            Err(AuthError::ValidationError(ValidationIssue::PasswordTooShort)),
        );
    }
    AuthState::RegisterLookup { email: payload.email, password: payload.password }
}

/// Starts a login: validates the request.
pub fn start_login(payload: LoginRequest) -> (s: AuthState)
    ensures
        s@ == login_start(payload.email@, payload.password@),
{
    if payload.email.as_str().is_empty() || payload.password.as_str().is_empty() {
        return AuthState::Finished(
            Err(AuthError::ValidationError(ValidationIssue::MissingCredentials)),
        );
    }
    AuthState::LoginLookup { email: payload.email, password: payload.password }
}

/// Takes one step: the state that follows `state` on `event`.
pub fn step(state: AuthState, event: AuthEvent) -> (next: AuthState)
    ensures
        next@ == next_state(state@, event@),
{
    match state {
        AuthState::RegisterLookup { email, password } => match event {
            AuthEvent::Found(_) => AuthState::Finished(Err(AuthError::EmailExists)),
            AuthEvent::Missing => AuthState::RegisterHash { email, password },
            _ => AuthState::Finished(Err(AuthError::StoreError(StoreStage::CheckExisting))),
        },
        AuthState::RegisterHash { email, password } => match event {
            AuthEvent::Hashed(h) => AuthState::RegisterCreate { email, password_hash: h },
            _ => AuthState::Finished(Err(AuthError::HashError)),
        },
        AuthState::RegisterCreate { email, password_hash } => match event {
            AuthEvent::Created(u) => AuthState::IssueToken { user_id: u.id, email: u.email },
            AuthEvent::Duplicate => AuthState::Finished(Err(AuthError::EmailExists)),
            _ => AuthState::Finished(Err(AuthError::StoreError(StoreStage::Create))),
        },
        AuthState::LoginLookup { email, password } => match event {
            AuthEvent::Found(u) => AuthState::LoginVerify {
                user_id: u.id,
                email: u.email,
                password,
                password_hash: u.password_hash,
            },
            AuthEvent::Missing => AuthState::Finished(Err(AuthError::InvalidCredentials)),
            _ => AuthState::Finished(Err(AuthError::StoreError(StoreStage::Find))),
        },
        AuthState::LoginVerify { user_id, email, password, password_hash } => match event {
            AuthEvent::Checked(true) => AuthState::IssueToken { user_id, email },
            AuthEvent::Checked(false) => AuthState::Finished(Err(AuthError::InvalidCredentials)),
            _ => AuthState::Finished(Err(AuthError::VerifyError)),
        },
        AuthState::IssueToken { user_id, email } => match event {
            AuthEvent::Issued(token) => AuthState::Finished(
                Ok(AuthResponse { token, user_id, email }),
            ),
            _ => AuthState::Finished(Err(AuthError::TokenIssueError)),
        },
        AuthState::Finished(r) => AuthState::Finished(r),
    }
}

impl AuthState {
    /// The answer, once the request is finished.
    pub fn into_answer(self) -> (r: Option<Result<AuthResponse, AuthError>>)
        ensures
            match r {
                Some(a) => self@ == AuthStateView::Finished(answer_view(a)),
                None => !(self@ is Finished),
            },
    {
        match self {
            AuthState::Finished(r) => Some(r),
            _ => None,
        }
    }
}

} // verus!
