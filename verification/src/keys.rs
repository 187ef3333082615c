//! The lookup capability required of pool keys.
use vstd::prelude::*;

verus! {

/// Capability required of key types: an equality test that decides
/// equality of the keys' abstract values, usable for registry lookup.
pub trait PoolKey: View + Sized {
    /// Decide whether two keys denote the same sub-pool.
    fn key_eq(&self, other: &Self) -> (r: bool)
        ensures
            r == (self@ == other@),
    ;
}

impl<'a> PoolKey for &'a str {
    fn key_eq(&self, other: &Self) -> (r: bool)
        ensures
            r == (self@ == other@),
    {
        crate::ext::str_eq(*self, *other)
    }
}

impl PoolKey for String {
    fn key_eq(&self, other: &Self) -> (r: bool)
        ensures
            r == (self@ == other@),
    {
        crate::ext::str_eq(self.as_str(), other.as_str())
    }
}

} // verus!
