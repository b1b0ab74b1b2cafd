//! The failures of the account service and how each is reported.

use crate::models::ErrorResponse;
use vstd::prelude::*;

verus! {

/// Why a request was refused before any collaborator was asked.
#[derive(Clone, Copy, Debug, PartialEq, Eq, Structural)]
pub enum ValidationIssue {
    /// The email or the password is empty.
    MissingCredentials,
    /// The password is shorter than the minimum.
    PasswordTooShort,
}

/// The store operation during which the store failed.
#[derive(Clone, Copy, Debug, PartialEq, Eq, Structural)]
pub enum StoreStage {
    /// Looking for an account with the email being registered.
    CheckExisting,
    /// Inserting a new account.
    Create,
    /// Looking for the account that logs in or that a token names.
    Find,
    /// Writing profile fields.
    Update,
}

/// Every way in which a request can fail.
#[derive(Clone, Copy, Debug, PartialEq, Eq, Structural)]
pub enum AuthError {
    /// Malformed input that the user can correct.
    ValidationError(ValidationIssue),
    /// An account with this email exists already.
    EmailExists,
    /// No such email, or the password is wrong: deliberately one error.
    InvalidCredentials,
    /// The token is malformed, forged or expired: deliberately one error.
    InvalidToken,
    /// No account has the id.
    NotFound,
    /// The store failed in a way that is not the user's doing.
    StoreError(StoreStage),
    /// The password could not be hashed.
    HashError,
    /// The stored hash could not be checked against the password.
    VerifyError,
    /// The token could not be issued.
    TokenIssueError,
}

/// The HTTP status that reports `e`.
pub open spec fn status_of(e: AuthError) -> int {
    match e {
        AuthError::ValidationError(_) => 400,
        AuthError::EmailExists => 409,
        AuthError::InvalidCredentials => 401,
        AuthError::InvalidToken => 401,
        AuthError::NotFound => 404,
        AuthError::StoreError(_) => 500,
        AuthError::HashError => 500,
        AuthError::VerifyError => 500,
        AuthError::TokenIssueError => 500,
    }
}

/// The short code that reports `e`.
pub open spec fn code_of(e: AuthError) -> Seq<char> {
    match e {
        AuthError::ValidationError(_) => "validation_error"@,
        AuthError::EmailExists => "email_exists"@,
        AuthError::InvalidCredentials => "invalid_credentials"@,
        AuthError::InvalidToken => "invalid_token"@,
        AuthError::NotFound => "not_found"@,
        AuthError::StoreError(_) => "database_error"@,
        AuthError::HashError => "hash_error"@,
        AuthError::VerifyError => "verification_error"@,
        AuthError::TokenIssueError => "token_error"@,
    }
}

/// The text for people that reports `e`.
pub open spec fn message_of(e: AuthError) -> Seq<char> {
    match e {
        AuthError::ValidationError(ValidationIssue::MissingCredentials) =>
            "Email and password are required"@,
        AuthError::ValidationError(ValidationIssue::PasswordTooShort) =>
            "Password must be at least 6 characters long"@,
        AuthError::EmailExists => "Email already exists"@,
        AuthError::InvalidCredentials => "Invalid email or password"@,
        AuthError::InvalidToken => "Invalid or expired token"@,
        AuthError::NotFound => "User not found"@,
        AuthError::StoreError(StoreStage::CheckExisting) => "Failed to check existing user"@,
        AuthError::StoreError(StoreStage::Create) => "Failed to create user"@,
        AuthError::StoreError(StoreStage::Find) => "Failed to find user"@,
        AuthError::StoreError(StoreStage::Update) => "Failed to update user"@,
        AuthError::HashError => "Failed to hash password"@,
        AuthError::VerifyError => "Failed to verify password"@,
        AuthError::TokenIssueError => "Failed to generate token"@,
    }
}

impl AuthError {
    /// The HTTP status that reports this error.
    pub fn status_code(&self) -> (s: u16)
        ensures
            s as int == status_of(*self),
    {
        match self {
            AuthError::ValidationError(_) => 400,
            AuthError::EmailExists => 409,
            AuthError::InvalidCredentials => 401,
            AuthError::InvalidToken => 401,
            AuthError::NotFound => 404,
            AuthError::StoreError(_) => 500,
            AuthError::HashError => 500,
            AuthError::VerifyError => 500,
            AuthError::TokenIssueError => 500,
        }
    }

    /// The short code that reports this error.
    pub fn code(&self) -> (s: String)
        ensures
            s@ == code_of(*self),
    {
        match self {
            AuthError::ValidationError(_) => "validation_error".to_owned(),
            AuthError::EmailExists => "email_exists".to_owned(),
            AuthError::InvalidCredentials => "invalid_credentials".to_owned(),
            AuthError::InvalidToken => "invalid_token".to_owned(),
            AuthError::NotFound => "not_found".to_owned(),
            AuthError::StoreError(_) => "database_error".to_owned(),
            AuthError::HashError => "hash_error".to_owned(),
            AuthError::VerifyError => "verification_error".to_owned(),
            AuthError::TokenIssueError => "token_error".to_owned(),
        }
    }

    /// The text for people that reports this error.
    pub fn message(&self) -> (s: String)
        ensures
            s@ == message_of(*self),
    {
        match self {
            AuthError::ValidationError(ValidationIssue::MissingCredentials) =>
                "Email and password are required".to_owned(),
            AuthError::ValidationError(ValidationIssue::PasswordTooShort) =>
                "Password must be at least 6 characters long".to_owned(),
            AuthError::EmailExists => "Email already exists".to_owned(),
            AuthError::InvalidCredentials => "Invalid email or password".to_owned(),
            AuthError::InvalidToken => "Invalid or expired token".to_owned(),
            AuthError::NotFound => "User not found".to_owned(),
            AuthError::StoreError(StoreStage::CheckExisting) =>
                "Failed to check existing user".to_owned(),
            AuthError::StoreError(StoreStage::Create) => "Failed to create user".to_owned(),
            AuthError::StoreError(StoreStage::Find) => "Failed to find user".to_owned(),
            AuthError::StoreError(StoreStage::Update) => "Failed to update user".to_owned(),
            AuthError::HashError => "Failed to hash password".to_owned(),
            AuthError::VerifyError => "Failed to verify password".to_owned(),
            AuthError::TokenIssueError => "Failed to generate token".to_owned(),
        }
    }

    /// The status and the body that report this error to the caller.
    pub fn to_response(&self) -> (r: (u16, ErrorResponse))
        ensures
            reports(r, *self),
    {
        (self.status_code(), ErrorResponse { error: self.code(), message: self.message() })
    }
}

/// True when the reply `r` is the one that reports `e`.
pub open spec fn reports(r: (u16, ErrorResponse), e: AuthError) -> bool {
    &&& r.0 as int == status_of(e)
    &&& r.1.error@ == code_of(e)
    &&& r.1.message@ == message_of(e)
}

} // verus!
