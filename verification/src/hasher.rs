//! The credential hasher: a salted one-way hash of a password, and the check
//! of a password against such a hash. The hashing itself is bcrypt, done by
//! the `bcrypt` crate.

use crate::error::AuthError;
use vstd::prelude::*;

verus! {

/// Smallest work factor that bcrypt takes.
pub const MIN_COST: u32 = 4;

/// Largest work factor that bcrypt takes.
pub const MAX_COST: u32 = 31;

/// Work factor used where none is chosen.
pub const DEFAULT_COST: u32 = 12;

/// Number of characters of a hash string.
pub const HASH_LEN: usize = 60;

/// Number of characters of the head of a hash string.
pub const HASH_HEAD_LEN: usize = 7;

/// The decimal digit `d` as a character.
pub open spec fn digit(d: int) -> char {
    if d == 0 {
        '0'
    } else if d == 1 {
        '1'
    } else if d == 2 {
        '2'
    } else if d == 3 {
        '3'
    } else if d == 4 {
        '4'
    } else if d == 5 {
        '5'
    } else if d == 6 {
        '6'
    } else if d == 7 {
        '7'
    } else if d == 8 {
        '8'
    } else {
        '9'
    }
}

/// How a hash made with the work factor `cost` starts: the scheme `2b` and
/// the work factor in two digits, each between dollar signs.
pub open spec fn hash_head(cost: int) -> Seq<char> {
    seq!['$', '2', 'b', '$', digit(cost / 10), digit(cost % 10), '$']
}

/// True when `hash` has the form of a hash made with the work factor `cost`:
/// 60 characters, of which the first seven name scheme and work factor. The
/// salt and the digest follow.
pub open spec fn describes_itself(hash: Seq<char>, cost: int) -> bool {
    hash.len() == HASH_LEN && hash.subrange(0, HASH_HEAD_LEN as int) == hash_head(cost)
}

/// Declares `bcrypt::BcryptError`, the error of `hash` and `verify`, so that
/// a wrapper can hand it over. Nothing is known of a value.
#[verifier::external_type_specification]
#[verifier::external_body]
pub struct ExBcryptError(bcrypt::BcryptError);

/// What `bcrypt::verify` says of a password and a hash string: whether they
/// match, or `None` where the string is not a well-formed bcrypt hash.
pub uninterp spec fn bcrypt_matches(password: Seq<char>, hash: Seq<char>) -> Option<bool>;

/// Calls `bcrypt::hash` on the password's bytes with the work factor `cost`.
///
/// Trusted: a hash that comes out matches the password it was made of, in the
/// sense of `bcrypt::verify`, and is written as `$2b$`, the work factor in
/// two digits, `$`, and 53 characters of salt and digest. The salt is random,
/// so nothing is said of those characters, and two calls on one password
/// differ.
#[verifier::external_body]
fn bcrypt_hash(password: &str, cost: u32) -> (r: Result<String, bcrypt::BcryptError>)
    ensures
        r matches Ok(h) ==> bcrypt_matches(password@, h@) == Some(true),
        r matches Ok(h) ==> describes_itself(h@, cost as int),
{
    bcrypt::hash(password, cost)
}

/// Calls `bcrypt::verify` on the password's bytes and the hash string.
///
/// Trusted: the result is a function of the two strings alone.
#[verifier::external_body]
fn bcrypt_verify(password: &str, hash: &str) -> (r: Result<bool, bcrypt::BcryptError>)
    ensures
        bcrypt_matches(password@, hash@) == (match r {
            Ok(b) => Some(b),
            Err(_) => None,
        }),
{
    bcrypt::verify(password, hash)
}

/// True when `hash` has the form of a hash made with some work factor.
pub open spec fn is_hash_string(hash: Seq<char>) -> bool {
    exists|cost: int| #[trigger] describes_itself(hash, cost)
}

/// True when `hash` is a hash of `password`: the two match.
pub open spec fn is_hash_of(hash: Seq<char>, password: Seq<char>) -> bool {
    bcrypt_matches(password, hash) == Some(true)
}

/// What checking a password against a hash string yields.
pub open spec fn check_result(password: Seq<char>, hash: Seq<char>) -> Result<bool, AuthError> {
    match bcrypt_matches(password, hash) {
        Some(b) => Ok(b),
        None => Err(AuthError::VerifyError),
    }
}

/// What a hashing attempt is worth: the hash, or `HashError`.
pub fn hash_outcome(hashed: Option<String>) -> (r: Result<String, AuthError>)
    ensures
        match r {
            Ok(h) => hashed == Some(h),
            Err(e) => e == AuthError::HashError && hashed is None,
        },
{
    match hashed {
        Some(h) => Ok(h),
        None => Err(AuthError::HashError),
    }
}

/// What a check of a password against a hash is worth: the answer where the
/// hash could be read, `VerifyError` where it is not a well-formed hash.
pub fn verify_outcome(answer: Option<bool>) -> (r: Result<bool, AuthError>)
    ensures
        match r {
            Ok(b) => answer == Some(b),
            Err(e) => e == AuthError::VerifyError && answer is None,
        },
{
    match answer {
        Some(b) => Ok(b),
        None => Err(AuthError::VerifyError),
    }
}

/// Hashes and checks passwords with one work factor.
#[derive(Debug, Clone, Copy)]
pub struct CredentialHasher {
    cost: u32,
}

impl CredentialHasher {
    /// The work factor.
    pub closed spec fn cost(&self) -> int {
        self.cost as int
    }

    /// True of every hasher: the work factor is one that bcrypt takes.
    pub closed spec fn wf(&self) -> bool {
        MIN_COST <= self.cost <= MAX_COST
    }

    /// A hasher with the default work factor.
    pub fn new() -> (h: Self)
        ensures
            h.wf(),
            h.cost() == DEFAULT_COST,
    {
        CredentialHasher { cost: DEFAULT_COST }
    }

    /// A hasher with the work factor `cost`, where bcrypt takes it.
    pub fn with_cost(cost: u32) -> (h: Option<Self>)
        ensures
            h is Some <==> MIN_COST <= cost <= MAX_COST,
            h matches Some(x) ==> x.wf() && x.cost() == cost,
    {
        if MIN_COST <= cost && cost <= MAX_COST {
            Some(CredentialHasher { cost })
        } else {
            None
        }
    }

    /// The work factor.
    pub fn work_factor(&self) -> (c: u32)
        ensures
            c as int == self.cost(),
    {
        self.cost
    }

    /// Hashes `plaintext` with a fresh random salt. A hash that comes out
    /// matches `plaintext` and names its scheme and this hasher's work
    /// factor. Fails with `HashError` on an internal failure.
    pub fn hash(&self, plaintext: &str) -> (r: Result<String, AuthError>)
        ensures
            match r {
                Ok(h) => is_hash_of(h@, plaintext@) && describes_itself(h@, self.cost()),
                Err(e) => e == AuthError::HashError,
            },
    {
        match bcrypt_hash(plaintext, self.cost) {
            Ok(h) => hash_outcome(Some(h)),
            Err(_) => hash_outcome(None),
        }
    }

    /// Checks `plaintext` against `hash`. Fails with `VerifyError` exactly
    /// where `hash` is not a well-formed hash of this scheme.
    pub fn verify(&self, plaintext: &str, hash: &str) -> (r: Result<bool, AuthError>)
        ensures
            r == check_result(plaintext@, hash@),
    {
        match bcrypt_verify(plaintext, hash) {
            Ok(b) => verify_outcome(Some(b)),
            Err(_) => verify_outcome(None),
        }
    }
}

} // verus!
