//! The wall clock, read through chrono.

use vstd::prelude::*;

verus! {

/// Relies on chrono::Local::now and DateTime::timestamp: the current instant as
/// whole seconds since the Unix epoch. Nothing is promised of the value.
#[verifier::external_body]
pub(crate) fn now_seconds() -> (r: i64) {
    chrono::Local::now().timestamp()
}

} // verus!
