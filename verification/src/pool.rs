//! The public pool handles: configuration, the shared pool handle, and the
//! checkout guard.
//!
//! A handle's methods only take one of the pool's locks, run the verified
//! core from [`crate::state`], and put the lock back; the functional
//! contracts of those core operations say exactly how each call transforms
//! the locked state it found. A handle itself cannot promise what a later
//! observation returns — another thread may run between any two calls —
//! so the contracts here speak of the returned values and of the lock
//! invariants that every reachable state satisfies.
use vstd::prelude::*;

verus! {

use std::sync::Arc;
use std::time::Duration;
use vstd::rwlock::RwLock;
use crate::expiration::ExpiringItem;
use crate::keys::PoolKey;
use crate::reset::DynamicReset;
use crate::state::{KeyPred, KeyState, RegPred, Registry};

/// Pool configuration: the per-key capacity bound (required, positive) and
/// the optional idle time-to-live. With no time-to-live, pooled objects
/// never expire. Expiration deadlines are checked against the wall clock
/// whenever a slot is observed (and by [`DynamicPool::sweep_expired`]), so
/// a configured time-to-live never needs a separate timer facility and is
/// never silently ignored.
#[derive(Clone, Copy, Debug)]
pub struct DynamicPoolConfig {
    pub max_capacity: usize,
    pub time_to_live: Option<Duration>,
}

impl Default for DynamicPoolConfig {
    /// The empty starting point for the builder methods: a capacity of
    /// zero (no usable pool yet) and no time-to-live.
    fn default() -> (d: Self)
        ensures
            d.max_capacity == 0,
            d.time_to_live is None,
    {
        DynamicPoolConfig { max_capacity: 0, time_to_live: None }
    }
}

impl DynamicPoolConfig {
    pub fn with_max_capacity(self, max_capacity: usize) -> (c: Self)
        ensures
            c.max_capacity == max_capacity,
            c.time_to_live == self.time_to_live,
    {
        DynamicPoolConfig { max_capacity, ..self }
    }

    pub fn with_ttl(self, ttl: Duration) -> (c: Self)
        ensures
            c.max_capacity == self.max_capacity,
            c.time_to_live == Some(ttl),
    {
        DynamicPoolConfig { time_to_live: Some(ttl), ..self }
    }
}

/// The deadline for a slot filled now: the current wall-clock reading plus
/// the configured time-to-live (saturating), or none when no time-to-live
/// is configured.
fn deadline_from(config: &DynamicPoolConfig) -> (d: Option<u64>)
    ensures
        (d is Some) == (config.time_to_live is Some),
{
    match config.time_to_live {
        Some(ttl) => {
            let now = crate::ext::now_millis();
            let ms = crate::ext::duration_millis(&ttl);
            if now <= u64::MAX - ms {
                Some(now + ms)
            } else {
                Some(u64::MAX)
            }
        },
        None => None,
    }
}

/// A shared handle to one pool: the registry behind its lock, plus the
/// immutable configuration. Cloning the handle shares the same registry.
pub struct DynamicPool<K: PoolKey, T: DynamicReset> {
    inner: Arc<RwLock<Registry<K, T>, RegPred>>,
    config: DynamicPoolConfig,
}

impl<K: PoolKey, T: DynamicReset> DynamicPool<K, T> {
    #[verifier::type_invariant]
    spec fn type_inv(&self) -> bool {
        &&& self.config.max_capacity >= 1
        &&& self.inner.pred() == (RegPred { cap: self.config.max_capacity as int })
    }

    /// The pool's configuration.
    pub closed spec fn config_spec(&self) -> DynamicPoolConfig {
        self.config
    }

    /// Whether two handles lead to the same underlying registry.
    pub closed spec fn shares_registry_with(&self, other: &Self) -> bool {
        self.inner == other.inner && self.config == other.config
    }

    /// Create a pool from its configuration. The capacity bound must be
    /// positive and applies uniformly to every key.
    pub fn new(config: DynamicPoolConfig) -> (p: Self)
        requires
            config.max_capacity >= 1,
        ensures
            p.config_spec() == config,
    {
        let reg = Registry::<K, T>::new();
        proof {
            assert(reg.wf(config.max_capacity as int));
        }
        let lock = RwLock::new(reg, Ghost(RegPred { cap: config.max_capacity as int }));
        DynamicPool { inner: Arc::new(lock), config }
    }

    /// Wrap `item` in a fresh expiring slot (deadline computed from the
    /// configuration) and push it onto `k`'s queue, creating the sub-pool
    /// on first use. By `KeyState::insert_slot`'s contract the push
    /// succeeds exactly when the queue is below `max_capacity`; a full
    /// queue rejects it and the original object comes back unchanged.
    pub fn insert(&self, k: K, item: T) -> (r: Result<(), T>)
        ensures
            (r matches Err(t) ==> t == item),
    {
        proof {
            use_type_invariant(self);
        }
        let deadline = deadline_from(&self.config);
        let slot = ExpiringItem::new(item, deadline);
        let (mut reg, wh) = self.inner.acquire_write();
        let data = reg.find_or_create(k, self.config.max_capacity);
        wh.release_write(reg);
        let (mut st, wh2) = data.acquire_write();
        let r = st.insert_slot(slot, self.config.max_capacity);
        wh2.release_write(st);
        r
    }

    /// Pop `k`'s queue until a live object turns up, skipping slots that
    /// raced an expiration; wrap that object in a checkout guard. Returns
    /// nothing when the key is unknown or no live slot remains, without
    /// blocking. By `KeyState::take_at`'s contract a successful take
    /// raises the key's in-use count by one.
    pub fn try_take(&self, k: &K) -> (r: Option<DynamicPoolItem<T>>)
        ensures
            (r matches Some(g) ==> g.wf() && g.is_attached()),
    {
        proof {
            use_type_invariant(self);
        }
        let now = crate::ext::now_millis();
        let rh = self.inner.acquire_read();
        let found = rh.borrow().data_for(k);
        proof {
            let reg = rh.view();
            if found is Some {
                reg.lemma_index_unique(k@);
            }
        }
        rh.release_read();
        match found {
            Some(data) => {
                let (mut st, wh) = data.acquire_write();
                let got = st.take_at(now);
                wh.release_write(st);
                match got {
                    Some(obj) => Some(
                        DynamicPoolItem {
                            object: Some(obj),
                            data,
                            config: self.config,
                        },
                    ),
                    None => None,
                }
            },
            None => None,
        }
    }

    /// The number of objects currently checked out for `k` (zero for an
    /// unknown key): the explicit in-use counter that `take_at` raises and
    /// that a guard's return or detach lowers. Under concurrent churn the
    /// value is a snapshot, good for observability only.
    pub fn used(&self, k: &K) -> (r: usize) {
        proof {
            use_type_invariant(self);
        }
        let rh = self.inner.acquire_read();
        let found = rh.borrow().data_for(k);
        rh.release_read();
        match found {
            Some(data) => {
                let rh2 = data.acquire_read();
                let u = rh2.borrow().used_value();
                rh2.release_read();
                u
            },
            None => 0,
        }
    }

    /// The configured capacity bound for `k`'s queue, or zero when the
    /// key's sub-pool has never been created.
    pub fn capacity(&self, k: &K) -> (r: usize)
        ensures
            r == self.config_spec().max_capacity || r == 0,
    {
        proof {
            use_type_invariant(self);
        }
        let rh = self.inner.acquire_read();
        let found = rh.borrow().data_for(k);
        rh.release_read();
        match found {
            Some(_) => self.config.max_capacity,
            None => 0,
        }
    }

    /// Drop every slot whose deadline has passed `now` from every key's
    /// queue, in queue order, leaving in-use counts untouched (an expired
    /// object was never checked out). By `KeyState::sweep`'s contract each
    /// queue is left holding exactly its live slots.
    pub fn sweep_expired_at(&self, now: u64) {
        proof {
            use_type_invariant(self);
        }
        let ghost cap = self.config.max_capacity as int;
        let rh = self.inner.acquire_read();
        let n = rh.borrow().entry_count();
        let mut handles: Vec<Arc<RwLock<KeyState<T>, KeyPred>>> = Vec::new();
        let mut i: usize = 0;
        while i < n
            invariant
                n as nat == rh.view().entries_seq().len(),
                rh.view().wf(cap),
                i <= n,
                forall|j: int|
                    0 <= j < handles@.len() ==> (#[trigger] handles@[j]).pred() == (KeyPred {
                        cap,
                    }),
            decreases n - i,
        {
            let d = rh.borrow().data_at(i);
            handles.push(d);
            i += 1;
        }
        rh.release_read();
        let mut j: usize = 0;
        while j < handles.len()
            invariant
                forall|m: int|
                    0 <= m < handles@.len() ==> (#[trigger] handles@[m]).pred() == (KeyPred {
                        cap,
                    }),
            decreases handles@.len() - j,
        {
            let (mut st, wh) = handles[j].acquire_write();
            st.sweep(now);
            wh.release_write(st);
            j += 1;
        }
    }

    /// Sweep against the current wall clock.
    pub fn sweep_expired(&self) {
        let now = crate::ext::now_millis();
        self.sweep_expired_at(now);
    }
}

impl<K: PoolKey, T: DynamicReset> Clone for DynamicPool<K, T> {
    /// Another handle to the same underlying registry and configuration —
    /// a shallow, reference-counted share, not a copy of the contents.
    fn clone(&self) -> (c: Self)
        ensures
            c.shares_registry_with(self),
            c.config_spec() == self.config_spec(),
    {
        proof {
            use_type_invariant(self);
        }
        DynamicPool { inner: crate::ext::arc_clone(&self.inner), config: self.config }
    }
}

/// An object checked out from a pool: the guard owns the object for its
/// lifetime, shares the originating sub-pool's handle so the object can
/// only ever return where it came from, and carries the configuration for
/// computing the fresh deadline on return.
pub struct DynamicPoolItem<T: DynamicReset> {
    object: Option<T>,
    data: Arc<RwLock<KeyState<T>, KeyPred>>,
    config: DynamicPoolConfig,
}

impl<T: DynamicReset> DynamicPoolItem<T> {
    /// The guard's construction invariant: its sub-pool lock carries the
    /// invariant of the configuration the guard was checked out under.
    pub closed spec fn wf(&self) -> bool {
        self.data.pred() == (KeyPred { cap: self.config.max_capacity as int })
    }

    /// The owned object, while the guard is attached.
    pub closed spec fn object_spec(&self) -> Option<T> {
        self.object
    }

    /// Whether the guard still owns its object (it does until `detach`
    /// consumes the guard or drop returns the object).
    pub open spec fn is_attached(&self) -> bool {
        self.object_spec() is Some
    }

    /// Detach the object from the pool for good: the guard is consumed,
    /// the object is handed out, the key's in-use count goes down by one,
    /// and no return to the pool will happen. Calling it twice is
    /// prevented structurally, by consumption.
    pub fn detach(self) -> (r: T)
        requires
            self.wf(),
            self.is_attached(),
        ensures
            Some(r) == self.object_spec(),
    {
        let mut this = self;
        match this.object.take() {
            Some(t) => {
                let (mut st, wh) = this.data.acquire_write();
                st.detach_mark();
                wh.release_write(st);
                t
            },
            None => vstd::pervasive::unreached(),
        }
    }

    /// The return path run from the guard's destructor, and from nowhere
    /// else — a guard that is still reachable always holds its object.
    /// Reset the object, wrap it in a fresh slot with a fresh deadline,
    /// and push it back onto the originating sub-pool — which by
    /// `KeyState::return_slot`'s contract lowers the in-use count by one
    /// and discards the object if the queue is full. A detached guard has
    /// nothing left to return.
    fn give_back(&mut self)
        requires
            old(self).wf(),
        ensures
            final(self).wf(),
            !final(self).is_attached(),
    {
        match self.object.take() {
            Some(mut obj) => {
                obj.reset();
                let deadline = deadline_from(&self.config);
                let slot = ExpiringItem::new(obj, deadline);
                let (mut st, wh) = self.data.acquire_write();
                st.return_slot(slot, self.config.max_capacity);
                wh.release_write(st);
            },
            None => {},
        }
    }
}

impl<T: DynamicReset> Drop for DynamicPoolItem<T> {
    /// On every exit path the guard returns its object through the
    /// verified `give_back`. Relies on the destructor doing nothing but
    /// that delegation: Verus restricts verified `Drop` bodies to
    /// `opens_invariants none`, and the return path must take the
    /// sub-pool's lock, so the one-line dispatch is trusted;
    /// `give_back`'s precondition is the guard's construction invariant,
    /// established by `try_take` and never broken afterwards.
    #[verifier::external_body]
    fn drop(&mut self)
        opens_invariants none
        no_unwind
    {
        self.give_back();
    }
}

impl<T: DynamicReset> std::ops::Deref for DynamicPoolItem<T> {
    type Target = T;

    /// Read access to the owned object. Relies on the guard's structural
    /// invariant: the object is present for the guard's whole lifetime,
    /// since `detach` consumes the guard and only drop empties it.
    #[verifier::external_body]
    fn deref(&self) -> &T {
        self.object.as_ref().expect("invariant: object is always present")
    }
}

impl<T: DynamicReset> std::ops::DerefMut for DynamicPoolItem<T> {
    /// Write access to the owned object; trusted for the same structural
    /// reason as `deref`.
    #[verifier::external_body]
    fn deref_mut(&mut self) -> &mut T {
        self.object.as_mut().expect("invariant: object is always present")
    }
}

impl<T: DynamicReset> AsRef<T> for DynamicPoolItem<T> {
    /// Read access to the owned object; trusted for the same structural
    /// reason as `deref`.
    #[verifier::external_body]
    fn as_ref(&self) -> &T {
        self.object.as_ref().expect("invariant: object is always present")
    }
}

} // verus!
