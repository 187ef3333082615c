//! The pool's laws, stated and proved over the spec-level semantics that
//! the executable contracts use: `take_from` (what popping a queue of
//! slots yields), `live_count`, and the saturating in-use counter.
use vstd::prelude::*;

verus! {

use crate::expiration::{
    take_from,
    live_count,
    ExpiringItem,
    lemma_take_from_none,
    lemma_take_from_some,
    lemma_live_count_decays,
};
use crate::keys::PoolKey;
use crate::reset::DynamicReset;
use crate::state::{sat_dec, sat_inc, Registry};

/// Emptiness: a queue holding no slots yields nothing, at any time.
pub proof fn law_empty_take<T>(now: u64)
    ensures
        take_from(Seq::<ExpiringItem<T>>::empty(), now) is None,
{
}

/// Emptiness: a freshly created registry knows no key at all, so lookups
/// for every key miss (and the pool reports zero in-use and zero capacity
/// for it).
pub proof fn law_empty_registry<K: PoolKey, T>(reg: Registry<K, T>, kv: K::V)
    requires
        reg.entries_seq().len() == 0,
    ensures
        !reg.has_key(kv),
{
}

/// Exclusivity: taking the only live object of a queue succeeds, and the
/// queue left behind yields nothing — at the same time and at every later
/// time — until something is pushed back.
pub proof fn law_take_exclusive<T>(slots: Seq<ExpiringItem<T>>, now1: u64, now2: u64)
    requires
        live_count(slots, now1) == 1,
        now1 <= now2,
    ensures
        take_from(slots, now1) is Some,
        (take_from(slots, now1) matches Some((t, rest)) ==> take_from(rest, now2) is None),
{
    lemma_take_from_none(slots, now1);
    lemma_take_from_some(slots, now1);
    match take_from(slots, now1) {
        Some((t, rest)) => {
            lemma_live_count_decays(rest, now1, now2);
            lemma_take_from_none(rest, now2);
        },
        None => {},
    }
}

/// Round trip: a queue holding one live slot yields exactly that slot's
/// object; once the mutated object has been reset and pushed back as a
/// fresh slot, a later take yields an object in the reset baseline state,
/// not the caller's mutated one.
pub proof fn law_round_trip<T: DynamicReset>(
    slot: ExpiringItem<T>,
    ret: ExpiringItem<T>,
    now1: u64,
    now2: u64,
)
    requires
        slot.object() is Some,
        !slot.is_expired_at(now1),
        ret.object() is Some,
        (ret.object() matches Some(o) ==> o.is_reset()),
        !ret.is_expired_at(now2),
    ensures
        (take_from(seq![slot], now1) matches Some((t, rest)) ==> Some(t) == slot.object() && rest
            =~= Seq::<ExpiringItem<T>>::empty()),
        take_from(seq![slot], now1) is Some,
        (take_from(seq![ret], now2) matches Some((t, rest)) ==> Some(t) == ret.object()
            && t.is_reset()),
        take_from(seq![ret], now2) is Some,
{
    assert(seq![slot][0] == slot);
    assert(seq![slot].skip(1) =~= Seq::<ExpiringItem<T>>::empty());
    assert(seq![ret][0] == ret);
    assert(seq![ret].skip(1) =~= Seq::<ExpiringItem<T>>::empty());
}

/// Expiration: a queue whose slots have all passed their deadline yields
/// nothing, even though none of its objects was ever taken.
pub proof fn law_expired_take<T>(slots: Seq<ExpiringItem<T>>, now: u64)
    requires
        forall|i: int| 0 <= i < slots.len() ==> (#[trigger] slots[i]).is_expired_at(now),
    ensures
        take_from(slots, now) is None,
    decreases slots.len(),
{
    if slots.len() > 0 {
        assert(!slots[0].is_live(now));
        assert forall|i: int| 0 <= i < slots.skip(1).len() implies (#[trigger] slots.skip(1)[i]).is_expired_at(
            now,
        ) by {
            assert(slots.skip(1)[i] == slots[i + 1]);
        }
        law_expired_take(slots.skip(1), now);
    }
}

/// In-use accounting: checking one object out and returning (or
/// detaching) it brings the in-use counter back to where it started, for
/// every starting value the counter can actually reach.
pub proof fn law_used_balanced(u: nat)
    requires
        u < usize::MAX as nat,
    ensures
        sat_dec(sat_inc(u)) == u,
{
}


/// Exclusivity, second half: once a live slot is pushed back onto a queue
/// that holds no live slot, a take succeeds again and yields exactly the
/// returned object.
pub proof fn law_returned_object_available<T>(
    slots: Seq<ExpiringItem<T>>,
    s: ExpiringItem<T>,
    now: u64,
)
    requires
        live_count(slots, now) == 0,
        s.is_live(now),
    ensures
        take_from(slots.push(s), now) is Some,
        (take_from(slots.push(s), now) matches Some((t, rest)) ==> Some(t) == s.object() && rest
            =~= Seq::<ExpiringItem<T>>::empty()),
    decreases slots.len(),
{
    if slots.len() == 0 {
        assert(slots.push(s) =~= seq![s]);
        assert(seq![s][0] == s);
        assert(seq![s].skip(1) =~= Seq::<ExpiringItem<T>>::empty());
    } else {
        assert(!slots[0].is_live(now));
        assert(slots.push(s)[0] == slots[0]);
        assert(slots.push(s).skip(1) =~= slots.skip(1).push(s));
        law_returned_object_available(slots.skip(1), s, now);
    }
}

/// One event in the life of a single key's checkout guards: a successful
/// checkout (`KeyState::take_at` handing an object out), or a release (the
/// guard returning its object on drop via `KeyState::return_slot`, or
/// forfeiting it via `KeyState::detach_mark`). Both release paths lower
/// the counter the same way.
pub enum UsedEvent {
    Checkout,
    Release,
}

/// The in-use counter after a sequence of guard events, starting from a
/// fresh sub-pool: exactly how the contracts of `take_at`, `return_slot`
/// and `detach_mark` move `used_count`.
pub open spec fn used_after(events: Seq<UsedEvent>) -> nat
    decreases events.len(),
{
    if events.len() == 0 {
        0
    } else {
        match events.last() {
            UsedEvent::Checkout => sat_inc(used_after(events.drop_last())),
            UsedEvent::Release => sat_dec(used_after(events.drop_last())),
        }
    }
}

/// How many of the events are checkouts.
pub open spec fn checkouts(events: Seq<UsedEvent>) -> nat
    decreases events.len(),
{
    if events.len() == 0 {
        0
    } else {
        checkouts(events.drop_last()) + (match events.last() {
            UsedEvent::Checkout => 1nat,
            UsedEvent::Release => 0nat,
        })
    }
}

/// How many of the events are releases.
pub open spec fn releases(events: Seq<UsedEvent>) -> nat
    decreases events.len(),
{
    if events.len() == 0 {
        0
    } else {
        releases(events.drop_last()) + (match events.last() {
            UsedEvent::Checkout => 0nat,
            UsedEvent::Release => 1nat,
        })
    }
}

/// In-use accounting: for any interleaving of checkouts and releases in
/// which no guard is released before it was checked out, and the number of
/// checkouts stays below `usize::MAX`, the in-use counter equals exactly
/// the number of currently live guards: checkouts minus releases.
pub proof fn law_used_counts_live_guards(events: Seq<UsedEvent>)
    requires
        forall|i: int|
            0 <= i <= events.len() ==> releases(#[trigger] events.take(i)) <= checkouts(
                events.take(i),
            ),
        checkouts(events) < usize::MAX as nat,
    ensures
        used_after(events) == checkouts(events) - releases(events),
    decreases events.len(),
{
    if events.len() > 0 {
        let p = events.drop_last();
        assert(events.take(events.len() as int) =~= events);
        assert(events.take(events.len() - 1) =~= p);
        assert forall|i: int| 0 <= i <= p.len() implies releases(#[trigger] p.take(i))
            <= checkouts(p.take(i)) by {
            assert(p.take(i) =~= events.take(i));
        }
        law_used_counts_live_guards(p);
    }
}

} // verus!
