//! The wall clock.

use vstd::prelude::*;

verus! {

/// `OffsetDateTime::now_utc().unix_timestamp()` of `time`: the current time
/// in seconds since the Unix epoch. Nothing is claimed of its value.
#[verifier::external_body]
pub(crate) fn unix_now() -> i64 {
    time::OffsetDateTime::now_utc().unix_timestamp()
}

} // verus!
