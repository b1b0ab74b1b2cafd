//! An account service: registration, login, bearer tokens and profiles.
//!
//! - [`hasher`]: the credential hasher, a salted one-way hash of a password.
//! - [`repository`]: the account store, with at most one account per email.
//! - [`jwt`]: the token service, which issues and verifies signed tokens that
//!   live for 24 hours.
//! - [`flow`]: registration and login as a state machine that asks nobody.
//! - [`handlers`]: the operations, which drive the machine against the store,
//!   the hasher and the token service.
//! - [`laws`]: what holds of the service as a whole.
//! - [`models`], [`error`]: the data and the failures.
//! - [`ids`]: fresh random identifiers, for accounts and for tokens.
//!
//! Hashing, signing, fresh ids and the clock come from outside crates; every
//! function that calls one says what is taken on trust.

mod clock;
pub mod error;
pub mod flow;
pub mod handlers;
pub mod hasher;
pub mod ids;
pub mod jwt;
pub mod laws;
pub mod models;
pub mod repository;
