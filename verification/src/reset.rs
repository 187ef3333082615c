//! The reset capability required of pooled object types.
use vstd::prelude::*;

verus! {

/// Capability required of pooled object types: restoring a reused object to
/// a clean baseline state. `reset` is invoked exactly once per
/// return-to-pool; the trait's specification pins what "clean" means for
/// the implementing type.
///
/// An implementation must not panic: the return path runs `reset` inside
/// the checkout guard's destructor, which must not unwind. Verus holds
/// every implementation it checks to that (a verified `reset` cannot
/// panic); an unverified implementation is on its own honour here.
pub trait DynamicReset: Sized {
    /// The clean, reusable baseline state that `reset` must restore.
    spec fn is_reset(&self) -> bool;

    /// Restore the object to its baseline state.
    fn reset(&mut self)
        ensures
            final(self).is_reset(),
    ;
}

/// A wrapper for object types that need no reset at all: returning it to
/// the pool leaves the wrapped value untouched.
#[derive(Debug)]
pub struct NoopDynamicReset<T>(pub T);

impl<T> DynamicReset for NoopDynamicReset<T> {
    open spec fn is_reset(&self) -> bool {
        true
    }

    fn reset(&mut self)
        ensures
            final(self).is_reset(),
    {
    }
}

/// A small sample record, used by the test suite: its baseline state is an
/// empty name and age zero.
#[derive(Debug, Default)]
pub struct Person {
    pub name: String,
    pub age: u16,
}

impl DynamicReset for Person {
    open spec fn is_reset(&self) -> bool {
        self.name@ == Seq::<char>::empty() && self.age == 0
    }

    fn reset(&mut self)
        ensures
            final(self).is_reset(),
    {
        self.name = String::new();
        self.age = 0;
    }
}

} // verus!
