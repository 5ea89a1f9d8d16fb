//! The system clock.

use vstd::prelude::*;

verus! {

/// `chrono::Utc::now` and its `timestamp`: the seconds since the Unix epoch
/// on the system clock. Nothing is promised of it.
#[verifier::external_body]
pub(crate) fn unix_now() -> i64 {
    chrono::Utc::now().timestamp()
}

} // verus!
