//! A concurrency-safe object pool keyed by an arbitrary identity, with
//! bounded per-key capacity, checkout/return semantics, reset-on-return and
//! optional time-to-live expiration of idle pooled objects.
//!
//! The registry maps each key to its own bounded queue of expiring slots;
//! both levels sit behind reader/writer locks whose invariants tie every
//! state the locks can hold to the pool's configuration. The sequential
//! heart of every operation lives in [`state`] with a full functional
//! contract; the handles in [`pool`] only take a lock, run that verified
//! core, and put the lock back.
mod expiration;
mod ext;
mod keys;
mod laws;
mod pool;
mod reset;
mod state;

pub use expiration::{
    lemma_live_count_decays, lemma_liveness_decays, lemma_take_from_none, lemma_take_from_some,
    live_count, live_only, take_from, ExpiringItem,
};
pub use keys::PoolKey;
pub use laws::{
    checkouts, law_empty_registry, law_empty_take, law_expired_take, law_returned_object_available,
    law_round_trip, law_take_exclusive, law_used_balanced, law_used_counts_live_guards, releases,
    used_after, UsedEvent,
};
pub use pool::{DynamicPool, DynamicPoolConfig, DynamicPoolItem};
pub use reset::{DynamicReset, NoopDynamicReset, Person};
pub use state::{sat_dec, sat_inc, KeyPred, KeyState, RegEntry, RegPred, Registry};
