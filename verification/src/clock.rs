//! The wall clock, as seconds since the Unix epoch.

use vstd::prelude::*;

verus! {

/// Reads the wall clock through `chrono::Utc::now().timestamp()`: whole
/// seconds since the Unix epoch. Nothing is claimed of the value: two reads
/// need not agree, and the clock may be set wrongly. `chrono` panics instead
/// of returning when the system clock stands before 1970.
#[verifier::external_body]
pub(crate) fn unix_now() -> i64 {
    chrono::Utc::now().timestamp()
}

} // verus!
