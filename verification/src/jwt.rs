//! The token service: issues signed bearer tokens that carry identity claims
//! and live for a fixed time, and verifies them.
//!
//! Signing and signature checking are done by the `jsonwebtoken` crate with
//! HMAC-SHA256. Which claims a token gets, and when a token is accepted, is
//! decided here.
//!
//! Besides subject, email and the two times, a token carries an identifier of
//! its own, drawn afresh for each token, so that two tokens issued to one
//! account within one second are still two different tokens.

use crate::clock::unix_now;
use crate::error::AuthError;
use crate::ids::{fresh_id, FRESH_ID_LEN};
use crate::models::{opt_text, Claims, ClaimsView};
use jsonwebtoken::{decode, encode, Algorithm, DecodingKey, EncodingKey, Header, Validation};
use serde_json::Value;
use vstd::prelude::*;

verus! {

/// Seconds that a token lives from the moment it is issued: 24 hours.
pub const TOKEN_LIFETIME_SECS: u64 = 86_400;

/// Declares `jsonwebtoken::errors::Error`, the error of `encode` and
/// `decode`, so that a wrapper can hand it over. Nothing is known of a value.
#[verifier::external_type_specification]
#[verifier::external_body]
pub struct ExJwtError(jsonwebtoken::errors::Error);

/// What the payload of a token holds under the five claim names. A field is
/// `None` where the payload has no such claim or one of another JSON type
/// (`sub`, `email` and `jti` are strings, `exp` and `iat` non-negative
/// integers).
#[derive(Debug, Clone)]
pub struct TokenPayload {
    pub sub: Option<String>,
    pub email: Option<String>,
    pub exp: Option<u64>,
    pub iat: Option<u64>,
    pub jti: Option<String>,
}

/// A payload as plain mathematical values.
pub ghost struct TokenPayloadView {
    pub sub: Option<Seq<char>>,
    pub email: Option<Seq<char>>,
    pub exp: Option<int>,
    pub iat: Option<int>,
    pub jti: Option<Seq<char>>,
}

impl View for TokenPayload {
    type V = TokenPayloadView;

    open spec fn view(&self) -> TokenPayloadView {
        TokenPayloadView {
            sub: opt_text(self.sub),
            email: opt_text(self.email),
            exp: match self.exp {
                Some(x) => Some(x as int),
                None => None,
            },
            iat: match self.iat {
                Some(x) => Some(x as int),
                None => None,
            },
            jti: opt_text(self.jti),
        }
    }
}

/// The view of a payload that may be missing.
pub open spec fn opt_payload(p: Option<TokenPayload>) -> Option<TokenPayloadView> {
    match p {
        Some(q) => Some(q@),
        None => None,
    }
}

/// The payload that holds exactly the claims `c`.
pub open spec fn payload_of(c: ClaimsView) -> TokenPayloadView {
    TokenPayloadView {
        sub: Some(c.sub),
        email: Some(c.email),
        exp: Some(c.exp),
        iat: Some(c.iat),
        jti: c.jti,
    }
}

/// The token that `jsonwebtoken::encode` makes of the claims `sub`, `email`,
/// `exp`, `iat`, `jti` (in this order; a missing `jti` is written as JSON
/// `null`) with the default header and `secret` as the HMAC key, or `None`
/// where it fails.
pub uninterp spec fn signed_token(
    secret: Seq<char>,
    sub: Seq<char>,
    email: Seq<char>,
    exp: int,
    iat: int,
    jti: Option<Seq<char>>,
) -> Option<Seq<char>>;

/// What `jsonwebtoken::decode` finds in `token` when it checks the HS256
/// signature against `secret` and does not look at the clock, or `None` where
/// it rejects the token.
pub uninterp spec fn signed_payload(secret: Seq<char>, token: Seq<char>) -> Option<
    TokenPayloadView,
>;

/// Calls `jsonwebtoken::encode` with `Header::default()` (HS256), a JSON
/// object of the five claims and `EncodingKey::from_secret` of the secret's
/// bytes.
///
/// Trusted: the result is a function of the secret and the claims alone; a
/// token that comes out is not empty (it is three parts joined by dots) and
/// decodes under the same secret to the same claims. All hold with the
/// crate's built-in HMAC provider, which is the one in use unless a program
/// installs another.
#[verifier::external_body]
fn sign_claims(secret: &str, claims: &Claims) -> (r: Result<String, jsonwebtoken::errors::Error>)
    ensures
        signed_token(
            secret@,
            claims.sub@,
            claims.email@,
            claims.exp as int,
            claims.iat as int,
            opt_text(claims.jti),
        ) == (match r {
            Ok(t) => Some(t@),
            Err(_) => None,
        }),
        r matches Ok(t) ==> t@.len() > 0,
        r matches Ok(t) ==> signed_payload(secret@, t@) == Some(payload_of(claims@)),
{
    let mut body = serde_json::Map::new();
    body.insert("sub".to_owned(), Value::from(claims.sub.as_str()));
    body.insert("email".to_owned(), Value::from(claims.email.as_str()));
    body.insert("exp".to_owned(), Value::from(claims.exp));
    body.insert("iat".to_owned(), Value::from(claims.iat));
    body.insert("jti".to_owned(), Value::from(claims.jti.as_deref()));
    encode(&Header::default(), &body, &EncodingKey::from_secret(secret.as_bytes()))
}

/// Calls `jsonwebtoken::decode` with `DecodingKey::from_secret` of the
/// secret's bytes and `Validation::new(Algorithm::HS256)` in which the expiry
/// check is switched off, so that the call does not read the clock; then
/// picks the five claims out of the JSON payload.
///
/// Trusted: the result is a function of the secret and the token alone.
#[verifier::external_body]
fn read_token(secret: &str, token: &str) -> (r: Result<TokenPayload, jsonwebtoken::errors::Error>)
    ensures
        signed_payload(secret@, token@) == (match r {
            Ok(p) => Some(p@),
            Err(_) => None,
        }),
{
    let mut rules = Validation::new(Algorithm::HS256);
    rules.validate_exp = false;
    let data = decode::<Value>(token, &DecodingKey::from_secret(secret.as_bytes()), &rules)?;
    Ok(TokenPayload {
        sub: data.claims.get("sub").and_then(Value::as_str).map(str::to_owned),
        email: data.claims.get("email").and_then(Value::as_str).map(str::to_owned),
        exp: data.claims.get("exp").and_then(Value::as_u64),
        iat: data.claims.get("iat").and_then(Value::as_u64),
        jti: data.claims.get("jti").and_then(Value::as_str).map(str::to_owned),
    })
}

/// True when a token can be issued at time `now`: the clock is not before the
/// epoch and the expiry fits the claim's type.
pub open spec fn issuable(now: int) -> bool {
    0 <= now && now + TOKEN_LIFETIME_SECS <= usize::MAX
}

/// The claims of the token with the identifier `jti` issued to `user_id` and
/// `email` at time `now`.
pub open spec fn claims_at(user_id: Seq<char>, email: Seq<char>, now: int, jti: Seq<char>)
    -> ClaimsView {
    ClaimsView { sub: user_id, email, exp: now + TOKEN_LIFETIME_SECS, iat: now, jti: Some(jti) }
}

/// The claims that the payload `p` yields at time `now`: subject, email and
/// the two times are there and fit their type, and the token has not
/// expired. The token's identifier is taken along if there is one.
pub open spec fn accepted(p: Option<TokenPayloadView>, now: int) -> Option<ClaimsView> {
    match p {
        Some(
            TokenPayloadView {
                sub: Some(sub),
                email: Some(email),
                exp: Some(exp),
                iat: Some(iat),
                jti,
            },
        ) => {
            if exp <= usize::MAX && iat <= usize::MAX && now < exp {
                Some(ClaimsView { sub, email, exp, iat, jti })
            } else {
                None
            }
        },
        _ => None,
    }
}

/// The token with the identifier `jti` issued under `secret` to `user_id`
/// and `email` at time `now`, or `None` where none can be issued.
pub open spec fn issued(
    secret: Seq<char>,
    user_id: Seq<char>,
    email: Seq<char>,
    now: int,
    jti: Seq<char>,
) -> Option<Seq<char>> {
    if issuable(now) {
        signed_token(secret, user_id, email, now + TOKEN_LIFETIME_SECS, now, Some(jti))
    } else {
        None
    }
}

/// The claims that verification under `secret` yields for `token` at time
/// `now`, or `None` where the token is rejected.
pub open spec fn verified(secret: Seq<char>, token: Seq<char>, now: int) -> Option<ClaimsView> {
    accepted(signed_payload(secret, token), now)
}

/// True when `token` is the token with the identifier `jti` issued under
/// `secret` to `user_id` and `email` at time `now`: it is not empty, and
/// verification at that time yields the claims it was issued with.
pub open spec fn issued_at(
    secret: Seq<char>,
    token: Seq<char>,
    user_id: Seq<char>,
    email: Seq<char>,
    now: int,
    jti: Seq<char>,
) -> bool {
    &&& issued(secret, user_id, email, now, jti) == Some(token)
    &&& token.len() > 0
    &&& verified(secret, token, now) == Some(claims_at(user_id, email, now, jti))
}

/// True when `token` was issued under `secret` to `user_id` and `email` at
/// time `now`, with an identifier as long as a fresh one.
pub open spec fn issued_afresh_at(
    secret: Seq<char>,
    token: Seq<char>,
    user_id: Seq<char>,
    email: Seq<char>,
    now: int,
) -> bool {
    exists|jti: Seq<char>|
        jti.len() == FRESH_ID_LEN && #[trigger] issued_at(secret, token, user_id, email, now, jti)
}

/// True when, for some identifier as long as a fresh one, no token can be
/// issued under `secret` to `user_id` and `email` at time `now`: the time is
/// one at which none is issuable, or the signing fails for that identifier.
pub open spec fn not_issued_afresh_at(
    secret: Seq<char>,
    user_id: Seq<char>,
    email: Seq<char>,
    now: int,
) -> bool {
    exists|jti: Seq<char>|
        jti.len() == FRESH_ID_LEN && #[trigger] issued(secret, user_id, email, now, jti) is None
}

/// True when `token` was issued under `secret` to `user_id` and `email` at
/// some time.
pub open spec fn issued_to(
    secret: Seq<char>,
    token: Seq<char>,
    user_id: Seq<char>,
    email: Seq<char>,
) -> bool {
    exists|now: int| #[trigger] issued_afresh_at(secret, token, user_id, email, now)
}

/// Builds the claims of the token with the identifier `jti` issued at time
/// `now`, if one can be issued.
pub fn claims_for(user_id: &str, email: &str, now: i64, jti: &str) -> (r: Option<Claims>)
    ensures
        r is Some <==> issuable(now as int),
        r matches Some(c) ==> c@ == claims_at(user_id@, email@, now as int, jti@),
{
    if now < 0 {
        return None;
    }
    let iat: u64 = now as u64;
    match iat.checked_add(TOKEN_LIFETIME_SECS) {
        None => None,
        Some(exp) => {
            if exp > usize::MAX as u64 {
                None
            } else {
                Some(
                    Claims {
                        sub: user_id.to_owned(),
                        email: email.to_owned(),
                        exp: exp as usize,
                        iat: iat as usize,
                        jti: Some(jti.to_owned()),
                    },
                )
            }
        },
    }
}

/// Decides what a decoded payload is worth at time `now`: its claims where
/// subject, email and both times are there and `now` is before the expiry,
/// `InvalidToken` otherwise, and also where there is no payload because the
/// token was malformed or its signature did not match.
pub fn accept_payload(payload: Option<TokenPayload>, now: i64) -> (r: Result<Claims, AuthError>)
    ensures
        match r {
            Ok(c) => accepted(opt_payload(payload), now as int) == Some(c@),
            Err(e) => e == AuthError::InvalidToken && accepted(opt_payload(payload), now as int)
                is None,
        },
{
    match payload {
        Some(
            TokenPayload { sub: Some(sub), email: Some(email), exp: Some(exp), iat: Some(iat), jti },
        ) => {
            if exp > usize::MAX as u64 || iat > usize::MAX as u64 {
                return Err(AuthError::InvalidToken);
            }
            if now >= 0 && now as u64 >= exp {
                return Err(AuthError::InvalidToken);
            }
            Ok(Claims { sub, email, exp: exp as usize, iat: iat as usize, jti })
        },
        _ => Err(AuthError::InvalidToken),
    }
}

/// Issues and verifies bearer tokens under one shared secret.
pub struct JwtService {
    secret: String,
}

impl JwtService {
    /// The shared secret.
    pub closed spec fn key(&self) -> Seq<char> {
        self.secret@
    }

    /// A token service that signs and verifies with `secret`.
    pub fn new(secret: &str) -> (s: Self)
        ensures
            s.key() == secret@,
    {
        JwtService { secret: secret.to_owned() }
    }

    /// Issues the token with the identifier `jti` to `user_id` and `email`
    /// at time `now`, valid for 24 hours. Fails with `TokenIssueError` where
    /// no token can be issued at `now` or the signing fails.
    pub fn issue_token(&self, user_id: &str, email: &str, now: i64, jti: &str) -> (r: Result<
        String,
        AuthError,
    >)
        ensures
            match r {
                Ok(t) => issued_at(self.key(), t@, user_id@, email@, now as int, jti@),
                Err(e) => e == AuthError::TokenIssueError && issued(
                    self.key(),
                    user_id@,
                    email@,
                    now as int,
                    jti@,
                ) is None,
            },
    {
        match claims_for(user_id, email, now, jti) {
            None => Err(AuthError::TokenIssueError),
            Some(claims) => match sign_claims(self.secret.as_str(), &claims) {
                Ok(token) => Ok(token),
                Err(_) => Err(AuthError::TokenIssueError),
            },
        }
    }

    /// Issues a token with a fresh identifier to `user_id` and `email` at
    /// time `now`, valid for 24 hours. Fails with `TokenIssueError`, and only
    /// where no token can be issued at `now` or the signing fails for the
    /// identifier drawn: where signing fails for no identifier, a token comes
    /// out.
    pub fn create_token_at(&self, user_id: &str, email: &str, now: i64) -> (r: Result<
        String,
        AuthError,
    >)
        ensures
            match r {
                Ok(t) => issued_afresh_at(self.key(), t@, user_id@, email@, now as int),
                Err(e) => e == AuthError::TokenIssueError && not_issued_afresh_at(
                    self.key(),
                    user_id@,
                    email@,
                    now as int,
                ),
            },
    {
        let jti = fresh_id();
        let r = self.issue_token(user_id, email, now, jti.as_str());
        proof {
            if r is Ok {
                assert(issued_at(self.key(), r->Ok_0@, user_id@, email@, now as int, jti@));
            } else {
                assert(issued(self.key(), user_id@, email@, now as int, jti@) is None);
            }
        }
        r
    }

    /// Issues a token to `user_id` and `email` now, valid for 24 hours.
    pub fn create_token(&self, user_id: &str, email: &str) -> (r: Result<String, AuthError>)
        ensures
            match r {
                Ok(t) => issued_to(self.key(), t@, user_id@, email@),
                Err(e) => e == AuthError::TokenIssueError,
            },
    {
        let now = unix_now();
        let r = self.create_token_at(user_id, email, now);
        proof {
            if r is Ok {
                assert(issued_afresh_at(self.key(), r->Ok_0@, user_id@, email@, now as int));
            }
        }
        r
    }

    /// Verifies `token` at time `now`. Yields its claims where the signature
    /// matches the secret, the claims are there and `now` is before the
    /// expiry. Every other token fails with the one error `InvalidToken`.
    pub fn verify_token_at(&self, token: &str, now: i64) -> (r: Result<Claims, AuthError>)
        ensures
            match r {
                Ok(c) => verified(self.key(), token@, now as int) == Some(c@),
                Err(e) => e == AuthError::InvalidToken && verified(self.key(), token@, now as int)
                    is None,
            },
    {
        match read_token(self.secret.as_str(), token) {
            Ok(payload) => accept_payload(Some(payload), now),
            Err(_) => accept_payload(None, now),
        }
    }

    /// Verifies `token` now.
    pub fn verify_token(&self, token: &str) -> (r: Result<Claims, AuthError>)
        ensures
            match r {
                Ok(c) => exists|now: int| #[trigger]
                    verified(self.key(), token@, now) == Some(c@),
                Err(e) => e == AuthError::InvalidToken && exists|now: int| #[trigger]
                    verified(self.key(), token@, now) is None,
            },
    {
        let now = unix_now();
        self.verify_token_at(token, now)
    }
}

} // verus!
