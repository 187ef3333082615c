//! Trusted shims around the few std facilities the pool leans on: string
//! slice comparison, `Arc` handle cloning, and the wall clock.
use vstd::prelude::*;

verus! {

use std::sync::Arc;

/// Relies on `<str as PartialEq>::eq`: two string slices compare equal
/// exactly when their character sequences are equal.
#[verifier::external_body]
pub(crate) fn str_eq(a: &str, b: &str) -> (r: bool)
    ensures
        r == (a@ == b@),
{
    a == b
}

/// Relies on `Arc::clone`: the clone is a new handle to the same
/// allocation, so it carries the same value.
#[verifier::external_body]
pub(crate) fn arc_clone<T>(a: &Arc<T>) -> (r: Arc<T>)
    ensures
        r == *a,
{
    Arc::clone(a)
}

/// Relies on `std::time::SystemTime::now`, read as whole milliseconds since
/// the UNIX epoch (zero if the clock reports a time before the epoch).
/// Nothing is promised of the value: the wall clock may move arbitrarily,
/// so every caller must be correct for every reading.
#[verifier::external_body]
pub(crate) fn now_millis() -> u64 {
    match std::time::SystemTime::now().duration_since(std::time::UNIX_EPOCH) {
        Ok(d) => u64::try_from(d.as_millis()).unwrap_or(u64::MAX),
        Err(_) => 0,
    }
}

/// Relies on `std::time::Duration::as_millis`: the duration's length in
/// whole milliseconds, clamped to `u64`. The `Duration` type is opaque
/// here, so nothing is promised of the value.
#[verifier::external_body]
pub(crate) fn duration_millis(d: &std::time::Duration) -> u64 {
    u64::try_from(d.as_millis()).unwrap_or(u64::MAX)
}

} // verus!
