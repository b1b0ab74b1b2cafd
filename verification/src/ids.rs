//! Fresh random identifiers.

use vstd::prelude::*;

verus! {

/// Number of characters of a fresh identifier.
pub const FRESH_ID_LEN: usize = 36;

/// Makes a fresh version 4 UUID with `uuid::Uuid::new_v4()` and writes it in
/// the hyphenated form, which is 36 characters long. The id is random: two
/// calls differ, and nothing else is claimed of it. `uuid` panics instead of
/// returning when the operating system gives no random bytes.
#[verifier::external_body]
pub(crate) fn fresh_id() -> (id: String)
    ensures
        id@.len() == FRESH_ID_LEN,
{
    uuid::Uuid::new_v4().to_string()
}

} // verus!
