//! The one clock read the library makes: the current time in epoch seconds.

use vstd::prelude::*;

verus! {

/// Relies on chrono::Utc::now and chrono::DateTime::timestamp: the current
/// wall-clock time as whole seconds since the Unix epoch. The value depends
/// on the machine's clock, so nothing is assumed of it.
#[verifier::external_body]
pub(crate) fn now_epoch_seconds() -> i64 {
    chrono::Utc::now().timestamp()
}

} // verus!
