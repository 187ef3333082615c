//! The verified sequential heart of the pool: per-key state (a bounded
//! queue of expiring slots plus the in-use counter) and the registry that
//! maps keys to per-key state.
//!
//! Every function here carries a full functional contract; the concurrent
//! handles in [`crate::pool`] run these under the pool's locks.
use vstd::prelude::*;

verus! {

use std::sync::Arc;
use vstd::rwlock::{RwLock, RwLockPredicate};
use crate::expiration::{take_from, live_only, ExpiringItem};
use crate::keys::PoolKey;

/// The state of one key's sub-pool: the queue of idle slots, in insertion
/// order, and the count of objects currently checked out.
///
/// The in-use count is kept as an explicit counter, incremented on a
/// successful take and decremented when a guard returns or detaches its
/// object; it saturates rather than wrapping at the ends of `usize`.
pub struct KeyState<T> {
    slots: Vec<ExpiringItem<T>>,
    used: usize,
}

/// One more checked-out object, saturating at `usize::MAX`.
pub open spec fn sat_inc(n: nat) -> nat {
    if n < usize::MAX as nat {
        n + 1
    } else {
        n
    }
}

/// One checked-out object fewer, saturating at zero.
pub open spec fn sat_dec(n: nat) -> nat {
    if n > 0 {
        (n - 1) as nat
    } else {
        0
    }
}

impl<T> KeyState<T> {
    /// The queue of idle slots, front first.
    pub closed spec fn slots_seq(&self) -> Seq<ExpiringItem<T>> {
        self.slots@
    }

    /// How many objects are currently checked out of this sub-pool.
    pub closed spec fn used_count(&self) -> nat {
        self.used as nat
    }

    /// The queue never exceeds the pool's configured capacity.
    pub open spec fn wf(&self, cap: int) -> bool {
        self.slots_seq().len() <= cap
    }

    pub fn empty() -> (s: Self)
        ensures
            s.slots_seq() == Seq::<ExpiringItem<T>>::empty(),
            s.used_count() == 0,
    {
        KeyState { slots: Vec::new(), used: 0 }
    }

    /// Push a freshly filled slot onto the queue. Succeeds exactly when
    /// the queue is below capacity; a full queue rejects the push and the
    /// slot's object comes back to the caller unchanged.
    pub fn insert_slot(&mut self, slot: ExpiringItem<T>, cap: usize) -> (r: Result<(), T>)
        requires
            old(self).wf(cap as int),
            slot.object() is Some,
        ensures
            final(self).wf(cap as int),
            final(self).used_count() == old(self).used_count(),
            (r is Ok) <==> old(self).slots_seq().len() < cap,
            r is Ok ==> final(self).slots_seq() == old(self).slots_seq().push(slot),
            (r matches Err(t) ==> {
                &&& Some(t) == slot.object()
                &&& final(self).slots_seq() == old(self).slots_seq()
            }),
    {
        if self.slots.len() < cap {
            self.slots.push(slot);
            Ok(())
        } else {
            match slot.into_object() {
                Some(t) => Err(t),
                None => vstd::pervasive::unreached(),
            }
        }
    }

    /// Pop slots, front first, until one yields a live object; dead slots
    /// in front are discarded on the way. On success the in-use counter
    /// goes up by one. When no live slot remains the queue is left
    /// drained and the counter untouched.
    pub fn take_at(&mut self, now: u64) -> (r: Option<T>)
        ensures
            final(self).slots_seq().len() <= old(self).slots_seq().len(),
            match take_from(old(self).slots_seq(), now) {
                Some((t, rest)) => {
                    &&& r == Some(t)
                    &&& final(self).slots_seq() == rest
                    &&& final(self).used_count() == sat_inc(old(self).used_count())
                },
                None => {
                    &&& r is None
                    &&& final(self).slots_seq() == Seq::<ExpiringItem<T>>::empty()
                    &&& final(self).used_count() == old(self).used_count()
                },
            },
    {
        while self.slots.len() > 0
            invariant
                take_from(old(self).slots_seq(), now) == take_from(self.slots@, now),
                self.slots@.len() <= old(self).slots_seq().len(),
                self.used == old(self).used,
            decreases self.slots@.len(),
        {
            let ghost prev = self.slots@;
            let mut slot = self.slots.remove(0);
            proof {
                assert(self.slots@ =~= prev.skip(1));
            }
            match slot.take(now) {
                Some(t) => {
                    self.used = if self.used < usize::MAX {
                        self.used + 1
                    } else {
                        self.used
                    };
                    return Some(t);
                },
                None => {},
            }
        }
        None
    }

    /// A guard hands its (already reset) object back: the in-use counter
    /// goes down by one, and the slot rejoins the queue unless the queue
    /// is full, in which case the object is discarded.
    pub fn return_slot(&mut self, slot: ExpiringItem<T>, cap: usize)
        requires
            old(self).wf(cap as int),
        ensures
            final(self).wf(cap as int),
            final(self).used_count() == sat_dec(old(self).used_count()),
            old(self).slots_seq().len() < cap ==> final(self).slots_seq() == old(
                self,
            ).slots_seq().push(slot),
            old(self).slots_seq().len() >= cap ==> final(self).slots_seq() == old(
                self,
            ).slots_seq(),
    {
        self.used = if self.used > 0 {
            self.used - 1
        } else {
            0
        };
        if self.slots.len() < cap {
            self.slots.push(slot);
        }
    }

    /// A guard detaches its object: the object leaves pool management for
    /// good, so only the in-use counter goes down; the queue is untouched.
    pub fn detach_mark(&mut self)
        ensures
            final(self).slots_seq() == old(self).slots_seq(),
            final(self).used_count() == sat_dec(old(self).used_count()),
    {
        self.used = if self.used > 0 {
            self.used - 1
        } else {
            0
        };
    }

    /// The in-use counter, as an executable value.
    pub fn used_value(&self) -> (r: usize)
        ensures
            r as nat == self.used_count(),
    {
        self.used
    }

    /// Drop every slot that is dead at time `now`, keeping the order of
    /// the live ones. The in-use counter is untouched: an expired object
    /// was never checked out.
    pub fn sweep(&mut self, now: u64)
        ensures
            final(self).slots_seq() == live_only(old(self).slots_seq(), now),
            final(self).slots_seq().len() <= old(self).slots_seq().len(),
            final(self).used_count() == old(self).used_count(),
    {
        let mut kept: Vec<ExpiringItem<T>> = Vec::new();
        while self.slots.len() > 0
            invariant
                live_only(old(self).slots_seq(), now) =~= kept@ + live_only(self.slots@, now),
                kept@.len() + self.slots@.len() <= old(self).slots_seq().len(),
                self.used == old(self).used,
            decreases self.slots@.len(),
        {
            let ghost prev = self.slots@;
            let ghost acc = kept@;
            let slot = self.slots.remove(0);
            proof {
                assert(self.slots@ =~= prev.skip(1));
            }
            let keep = match slot.deadline_value() {
                Some(d) => d > now,
                None => true,
            };
            let has_object = slot.has_object();
            if keep && has_object {
                proof {
                    assert(prev[0].is_live(now));
                    assert(live_only(prev, now) == seq![prev[0]] + live_only(prev.skip(1), now));
                }
                kept.push(slot);
                proof {
                    assert(acc + (seq![prev[0]] + live_only(prev.skip(1), now)) =~= kept@
                        + live_only(self.slots@, now));
                }
            } else {
                proof {
                    assert(!prev[0].is_live(now));
                    assert(live_only(prev, now) == live_only(prev.skip(1), now));
                }
            }
        }
        proof {
            assert(live_only(self.slots@, now) =~= Seq::<ExpiringItem<T>>::empty());
            assert(kept@ + live_only(self.slots@, now) =~= kept@);
            assert(live_only(old(self).slots_seq(), now) =~= kept@);
        }
        self.slots = kept;
    }
}

/// The lock invariant of one key's sub-pool: its state respects the
/// configured capacity.
pub struct KeyPred {
    pub cap: int,
}

impl<T> RwLockPredicate<KeyState<T>> for KeyPred {
    open spec fn inv(self, s: KeyState<T>) -> bool {
        s.wf(self.cap)
    }
}

/// The lock invariant of the registry itself, under a configured capacity.
pub struct RegPred {
    pub cap: int,
}

impl<K: PoolKey, T> RwLockPredicate<Registry<K, T>> for RegPred {
    open spec fn inv(self, r: Registry<K, T>) -> bool {
        r.wf(self.cap)
    }
}

/// One registry entry: a key and the shared handle to its sub-pool.
pub struct RegEntry<K, T> {
    key: K,
    data: Arc<RwLock<KeyState<T>, KeyPred>>,
}

impl<K, T> RegEntry<K, T> {
    /// The entry's key.
    pub closed spec fn key_spec(&self) -> K {
        self.key
    }

    /// The entry's shared sub-pool handle.
    pub closed spec fn data_spec(&self) -> Arc<RwLock<KeyState<T>, KeyPred>> {
        self.data
    }
}

/// The pool registry: a mapping from key to per-key sub-pool, lazily
/// extended on first insert and never shrunk.
pub struct Registry<K, T> {
    entries: Vec<RegEntry<K, T>>,
}

impl<K: PoolKey, T> Registry<K, T> {
    /// The registry's entries, in creation order.
    pub closed spec fn entries_seq(&self) -> Seq<RegEntry<K, T>> {
        self.entries@
    }

    /// Whether some entry's key has the abstract value `kv`.
    pub open spec fn has_key(&self, kv: K::V) -> bool {
        exists|i: int|
            0 <= i < self.entries_seq().len() && (#[trigger] self.entries_seq()[i]).key_spec()@
                == kv
    }

    /// The index of the entry whose key has the abstract value `kv`.
    pub open spec fn index_of(&self, kv: K::V) -> int {
        choose|i: int|
            0 <= i < self.entries_seq().len() && (#[trigger] self.entries_seq()[i]).key_spec()@
                == kv
    }

    /// The sub-pool handle registered for `kv`.
    pub open spec fn data_of(&self, kv: K::V) -> Arc<RwLock<KeyState<T>, KeyPred>> {
        self.entries_seq()[self.index_of(kv)].data_spec()
    }

    /// No two entries share a key.
    pub open spec fn keys_unique(&self) -> bool {
        forall|i: int, j: int|
            #![trigger self.entries_seq()[i], self.entries_seq()[j]]
            0 <= i < j < self.entries_seq().len() ==> self.entries_seq()[i].key_spec()@
                != self.entries_seq()[j].key_spec()@
    }

    /// The registry's invariant under a configured capacity: keys are
    /// unique and every sub-pool lock carries that capacity's invariant.
    pub open spec fn wf(&self, cap: int) -> bool {
        &&& self.keys_unique()
        &&& forall|i: int|
            0 <= i < self.entries_seq().len() ==> (#[trigger] self.entries_seq()[i]).data_spec().pred()
                == (KeyPred { cap })
    }

    /// An entry with key value `kv` sits only at `index_of(kv)`.
    pub proof fn lemma_index_unique(&self, kv: K::V)
        requires
            self.keys_unique(),
            self.has_key(kv),
        ensures
            0 <= self.index_of(kv) < self.entries_seq().len(),
            self.entries_seq()[self.index_of(kv)].key_spec()@ == kv,
            forall|i: int|
                0 <= i < self.entries_seq().len() && (#[trigger] self.entries_seq()[i]).key_spec()@
                    == kv ==> i == self.index_of(kv),
    {
    }

    pub fn new() -> (r: Self)
        ensures
            r.entries_seq() == Seq::<RegEntry<K, T>>::empty(),
    {
        Registry { entries: Vec::new() }
    }

    /// Look a key up by comparing key values in creation order.
    fn find(&self, k: &K) -> (r: Option<usize>)
        ensures
            match r {
                Some(i) => {
                    &&& 0 <= i < self.entries_seq().len()
                    &&& self.entries_seq()[i as int].key_spec()@ == k@
                    &&& self.has_key(k@)
                },
                None => !self.has_key(k@),
            },
    {
        let n = self.entries.len();
        let mut i: usize = 0;
        while i < n
            invariant
                n == self.entries_seq().len(),
                i <= n,
                forall|j: int|
                    0 <= j < i ==> (#[trigger] self.entries_seq()[j]).key_spec()@ != k@,
            decreases n - i,
        {
            if self.entries[i].key.key_eq(k) {
                return Some(i);
            }
            i += 1;
        }
        None
    }

    /// Fetch the sub-pool handle for a key, if the key is known.
    pub fn data_for(&self, k: &K) -> (r: Option<Arc<RwLock<KeyState<T>, KeyPred>>>)
        requires
            self.keys_unique(),
        ensures
            match r {
                Some(d) => self.has_key(k@) && d == self.data_of(k@),
                None => !self.has_key(k@),
            },
    {
        match self.find(k) {
            Some(i) => {
                let d = crate::ext::arc_clone(&self.entries[i].data);
                proof {
                    self.lemma_index_unique(k@);
                }
                Some(d)
            },
            None => None,
        }
    }

    /// How many keys the registry knows.
    pub fn entry_count(&self) -> (r: usize)
        ensures
            r as nat == self.entries_seq().len(),
    {
        self.entries.len()
    }

    /// The sub-pool handle of the entry at position `i`.
    pub fn data_at(&self, i: usize) -> (d: Arc<RwLock<KeyState<T>, KeyPred>>)
        requires
            i < self.entries_seq().len(),
        ensures
            d == self.entries_seq()[i as int].data_spec(),
    {
        crate::ext::arc_clone(&self.entries[i].data)
    }

    /// Locate the sub-pool for a key, creating an empty one (under the
    /// capacity's lock invariant) on first use. Existing entries, and
    /// every other key, are left exactly as they were.
    pub fn find_or_create(&mut self, key: K, cap: usize) -> (d: Arc<RwLock<KeyState<T>, KeyPred>>)
        requires
            old(self).wf(cap as int),
        ensures
            final(self).wf(cap as int),
            final(self).has_key(key@),
            d == final(self).data_of(key@),
            d.pred() == (KeyPred { cap: cap as int }),
            old(self).has_key(key@) ==> *final(self) == *old(self),
            forall|kv: K::V| #[trigger]
                final(self).has_key(kv) == (old(self).has_key(kv) || kv == key@),
            forall|kv: K::V|
                kv != key@ && old(self).has_key(kv) ==> #[trigger] final(self).data_of(kv) == old(
                    self,
                ).data_of(kv),
    {
        match self.find(&key) {
            Some(i) => {
                let d = crate::ext::arc_clone(&self.entries[i].data);
                proof {
                    self.lemma_index_unique(key@);
                }
                d
            },
            None => {
                let ghost prev = *self;
                let st = KeyState::<T>::empty();
                let lock = RwLock::new(st, Ghost(KeyPred { cap: cap as int }));
                let data = Arc::new(lock);
                let d = crate::ext::arc_clone(&data);
                let entry = RegEntry { key, data };
                self.entries.push(entry);
                proof {
                    let es = self.entries_seq();
                    let n = es.len() - 1;
                    assert(es[n].key_spec()@ == entry.key_spec()@);
                    assert forall|kv: K::V| #[trigger]
                        self.has_key(kv) == (prev.has_key(kv) || kv == entry.key_spec()@) by {
                        if self.has_key(kv) {
                            let i = choose|i: int|
                                0 <= i < es.len() && (#[trigger] es[i]).key_spec()@ == kv;
                            if i < n {
                                assert(prev.entries_seq()[i].key_spec()@ == kv);
                            }
                        }
                        if prev.has_key(kv) {
                            let i = choose|i: int|
                                0 <= i < prev.entries_seq().len() && (#[trigger] prev.entries_seq()[i]).key_spec()@
                                    == kv;
                            assert(es[i].key_spec()@ == kv);
                        }
                        if kv == entry.key_spec()@ {
                            assert(es[n].key_spec()@ == kv);
                        }
                    }
                    assert(self.keys_unique()) by {
                        assert forall|i: int, j: int|
                            #![trigger es[i], es[j]]
                            0 <= i < j < es.len() implies es[i].key_spec()@ != es[j].key_spec()@ by {
                            if j < n {
                                assert(prev.entries_seq()[i].key_spec()@ != prev.entries_seq()[j].key_spec()@);
                            } else {
                                if es[i].key_spec()@ == es[n].key_spec()@ {
                                    assert(prev.has_key(entry.key_spec()@));
                                }
                            }
                        }
                    }
                    assert(es[n].data_spec() == data);
                    assert forall|i: int|
                        0 <= i < es.len() implies (#[trigger] es[i]).data_spec().pred() == (KeyPred {
                        cap: cap as int,
                    }) by {
                        if i < n {
                            assert(es[i] == prev.entries_seq()[i]);
                        }
                    }
                    self.lemma_index_unique(entry.key_spec()@);
                    assert(self.index_of(entry.key_spec()@) == n);
                    assert forall|kv: K::V|
                        kv != entry.key_spec()@ && prev.has_key(kv) implies #[trigger] self.data_of(
                        kv,
                    ) == prev.data_of(kv) by {
                        prev.lemma_index_unique(kv);
                        self.lemma_index_unique(kv);
                        let i0 = prev.index_of(kv);
                        assert(es[i0].key_spec()@ == kv);
                        assert(self.index_of(kv) == i0);
                    }
                }
                d
            },
        }
    }
}

} // verus!
