//! Plain data carried between the account store, the token service and the
//! authentication flow, each with the mathematical view its contracts use.

use vstd::prelude::*;

verus! {

/// Membership tier that every freshly created account starts in.
pub open spec fn default_membership_level() -> Seq<char> {
    "Bronze"@
}

/// The view of an optional string: the view of its content, if there is one.
pub open spec fn opt_text(s: Option<String>) -> Option<Seq<char>> {
    match s {
        Some(t) => Some(t@),
        None => None,
    }
}

/// A persisted account. Timestamps are seconds since the Unix epoch.
#[derive(Debug, Clone)]
pub struct User {
    pub id: String,
    pub email: String,
    pub password_hash: String,
    pub first_name: Option<String>,
    pub last_name: Option<String>,
    pub phone: Option<String>,
    pub membership_id: Option<String>,
    pub membership_level: String,
    pub points: i32,
    pub created_at: i64,
    pub updated_at: i64,
}

/// What an account is, as plain mathematical values.
pub ghost struct UserView {
    pub id: Seq<char>,
    pub email: Seq<char>,
    pub password_hash: Seq<char>,
    pub first_name: Option<Seq<char>>,
    pub last_name: Option<Seq<char>>,
    pub phone: Option<Seq<char>>,
    pub membership_id: Option<Seq<char>>,
    pub membership_level: Seq<char>,
    pub points: int,
    pub created_at: int,
    pub updated_at: int,
}

impl View for User {
    type V = UserView;

    open spec fn view(&self) -> UserView {
        UserView {
            id: self.id@,
            email: self.email@,
            password_hash: self.password_hash@,
            first_name: opt_text(self.first_name),
            last_name: opt_text(self.last_name),
            phone: opt_text(self.phone),
            membership_id: opt_text(self.membership_id),
            membership_level: self.membership_level@,
            points: self.points as int,
            created_at: self.created_at as int,
            updated_at: self.updated_at as int,
        }
    }
}

/// The account that creation yields for the given identity and credential at
/// time `now`: no profile fields, the default tier, no points, and both
/// timestamps equal to `now`.
pub open spec fn new_account(
    id: Seq<char>,
    email: Seq<char>,
    password_hash: Seq<char>,
    now: int,
) -> UserView {
    UserView {
        id,
        email,
        password_hash,
        first_name: None,
        last_name: None,
        phone: None,
        membership_id: None,
        membership_level: default_membership_level(),
        points: 0,
        created_at: now,
        updated_at: now,
    }
}

/// Body of a registration request.
#[derive(Debug, Clone)]
pub struct RegisterRequest {
    pub email: String,
    pub password: String,
}

/// Body of a login request.
#[derive(Debug, Clone)]
pub struct LoginRequest {
    pub email: String,
    pub password: String,
}

/// What a successful registration or login hands back.
#[derive(Debug, Clone)]
pub struct AuthResponse {
    pub token: String,
    pub user_id: String,
    pub email: String,
}

/// An answer as plain mathematical values.
pub ghost struct AuthResponseView {
    pub token: Seq<char>,
    pub user_id: Seq<char>,
    pub email: Seq<char>,
}

impl View for AuthResponse {
    type V = AuthResponseView;

    open spec fn view(&self) -> AuthResponseView {
        AuthResponseView { token: self.token@, user_id: self.user_id@, email: self.email@ }
    }
}

/// The part of an account that is shown to its owner. It has no credential.
#[derive(Debug, Clone)]
pub struct UserProfile {
    pub id: String,
    pub email: String,
    pub first_name: Option<String>,
    pub last_name: Option<String>,
    pub phone: Option<String>,
    pub membership_id: Option<String>,
    pub membership_level: String,
    pub points: i32,
    pub created_at: i64,
}

/// A profile as plain mathematical values.
pub ghost struct UserProfileView {
    pub id: Seq<char>,
    pub email: Seq<char>,
    pub first_name: Option<Seq<char>>,
    pub last_name: Option<Seq<char>>,
    pub phone: Option<Seq<char>>,
    pub membership_id: Option<Seq<char>>,
    pub membership_level: Seq<char>,
    pub points: int,
    pub created_at: int,
}

impl View for UserProfile {
    type V = UserProfileView;

    open spec fn view(&self) -> UserProfileView {
        UserProfileView {
            id: self.id@,
            email: self.email@,
            first_name: opt_text(self.first_name),
            last_name: opt_text(self.last_name),
            phone: opt_text(self.phone),
            membership_id: opt_text(self.membership_id),
            membership_level: self.membership_level@,
            points: self.points as int,
            created_at: self.created_at as int,
        }
    }
}

/// The profile of an account: every field but the credential and `updated_at`.
pub open spec fn profile_of(u: UserView) -> UserProfileView {
    UserProfileView {
        id: u.id,
        email: u.email,
        first_name: u.first_name,
        last_name: u.last_name,
        phone: u.phone,
        membership_id: u.membership_id,
        membership_level: u.membership_level,
        points: u.points,
        created_at: u.created_at,
    }
}

/// Body of a profile update. A field that is `None` is left as it is.
#[derive(Debug, Clone)]
pub struct UpdateProfileRequest {
    pub first_name: Option<String>,
    pub last_name: Option<String>,
    pub phone: Option<String>,
}

/// A profile update as plain mathematical values.
pub ghost struct UpdateProfileView {
    pub first_name: Option<Seq<char>>,
    pub last_name: Option<Seq<char>>,
    pub phone: Option<Seq<char>>,
}

impl View for UpdateProfileRequest {
    type V = UpdateProfileView;

    open spec fn view(&self) -> UpdateProfileView {
        UpdateProfileView {
            first_name: opt_text(self.first_name),
            last_name: opt_text(self.last_name),
            phone: opt_text(self.phone),
        }
    }
}

/// The new value of an optional profile field: the provided one, else the old.
pub open spec fn merged(old_value: Option<Seq<char>>, provided: Option<Seq<char>>) -> Option<
    Seq<char>,
> {
    match provided {
        Some(v) => Some(v),
        None => old_value,
    }
}

/// The account `u` after the update `fields` made at time `now`.
pub open spec fn updated_account(u: UserView, fields: UpdateProfileView, now: int) -> UserView {
    UserView {
        first_name: merged(u.first_name, fields.first_name),
        last_name: merged(u.last_name, fields.last_name),
        phone: merged(u.phone, fields.phone),
        updated_at: now,
        ..u
    }
}

/// Body of every error reply: a short code and a text for people.
#[derive(Debug, Clone)]
pub struct ErrorResponse {
    pub error: String,
    pub message: String,
}

/// Identity claims carried by a bearer token. Times are seconds since the
/// Unix epoch. `jti` is the token's own identifier, which sets it apart from
/// every other token of the account; a token issued here always has one.
#[derive(Debug, Clone)]
pub struct Claims {
    pub sub: String,
    pub email: String,
    pub exp: usize,
    pub iat: usize,
    pub jti: Option<String>,
}

/// Claims as plain mathematical values.
pub ghost struct ClaimsView {
    pub sub: Seq<char>,
    pub email: Seq<char>,
    pub exp: int,
    pub iat: int,
    pub jti: Option<Seq<char>>,
}

impl View for Claims {
    type V = ClaimsView;

    open spec fn view(&self) -> ClaimsView {
        ClaimsView {
            sub: self.sub@,
            email: self.email@,
            exp: self.exp as int,
            iat: self.iat as int,
            jti: opt_text(self.jti),
        }
    }
}

/// Copies an optional string.
pub fn clone_opt_text(s: &Option<String>) -> (r: Option<String>)
    ensures
        opt_text(r) == opt_text(*s),
{
    match s {
        Some(t) => Some(t.clone()),
        None => None,
    }
}

impl User {
    /// Builds the account that creation yields: see [`new_account`].
    pub fn new(id: String, email: String, password_hash: String, now: i64) -> (u: User)
        ensures
            u@ == new_account(id@, email@, password_hash@, now as int),
    {
        User {
            id,
            email,
            password_hash,
            first_name: None,
            last_name: None,
            phone: None,
            membership_id: None,
            membership_level: "Bronze".to_owned(),
            points: 0,
            created_at: now,
            updated_at: now,
        }
    }

    /// Copies the account.
    pub fn duplicate(&self) -> (u: User)
        ensures
            u@ == self@,
    {
        User {
            id: self.id.clone(),
            email: self.email.clone(),
            password_hash: self.password_hash.clone(),
            first_name: clone_opt_text(&self.first_name),
            last_name: clone_opt_text(&self.last_name),
            phone: clone_opt_text(&self.phone),
            membership_id: clone_opt_text(&self.membership_id),
            membership_level: self.membership_level.clone(),
            points: self.points,
            created_at: self.created_at,
            updated_at: self.updated_at,
        }
    }

    /// This account after the update `fields` made at time `now`: a field
    /// that is provided replaces the old one, `updated_at` becomes `now`, and
    /// everything else stays.
    pub fn apply_update(self, fields: &UpdateProfileRequest, now: i64) -> (u: User)
        ensures
            u@ == updated_account(self@, fields@, now as int),
    {
        User {
            first_name: match &fields.first_name {
                Some(v) => Some(v.clone()),
                None => self.first_name,
            },
            last_name: match &fields.last_name {
                Some(v) => Some(v.clone()),
                None => self.last_name,
            },
            phone: match &fields.phone {
                Some(v) => Some(v.clone()),
                None => self.phone,
            },
            updated_at: now,
            id: self.id,
            email: self.email,
            password_hash: self.password_hash,
            membership_id: self.membership_id,
            membership_level: self.membership_level,
            points: self.points,
            created_at: self.created_at,
        }
    }

    /// The profile of this account, without its credential.
    pub fn profile(&self) -> (p: UserProfile)
        ensures
            p@ == profile_of(self@),
    {
        UserProfile {
            id: self.id.clone(),
            email: self.email.clone(),
            first_name: clone_opt_text(&self.first_name),
            last_name: clone_opt_text(&self.last_name),
            phone: clone_opt_text(&self.phone),
            membership_id: clone_opt_text(&self.membership_id),
            membership_level: self.membership_level.clone(),
            points: self.points,
            created_at: self.created_at,
        }
    }
}

} // verus!
