//! Expiring slots: one storage cell per pooled object, with take-once
//! semantics and an optional expiration deadline.
//!
//! A slot's cell goes from present to empty exactly once and is never
//! refilled. Emptying happens either by an explicit `take` or because the
//! deadline has passed; whichever comes first wins, and the loser observes
//! an empty cell. The deadline is a wall-clock instant in milliseconds;
//! every observation of a slot is made at an explicit `now`, so the race
//! between a consumer and the passage of time is resolved at the moment of
//! observation.
use vstd::prelude::*;

verus! {

/// One storage cell for a single pooled object awaiting reuse, together
/// with its optional expiration deadline.
pub struct ExpiringItem<T> {
    cell: Option<T>,
    deadline: Option<u64>,
}

impl<T> ExpiringItem<T> {
    /// The object held by the slot, if it has not been taken or expired.
    pub closed spec fn object(&self) -> Option<T> {
        self.cell
    }

    /// The slot's expiration deadline; `None` means it never expires.
    pub closed spec fn deadline_spec(&self) -> Option<u64> {
        self.deadline
    }

    /// Whether the slot's deadline has passed at time `now`.
    pub open spec fn is_expired_at(&self, now: u64) -> bool {
        match self.deadline_spec() {
            Some(d) => d <= now,
            None => false,
        }
    }

    /// Whether the slot still yields its object when observed at `now`.
    pub open spec fn is_live(&self, now: u64) -> bool {
        self.object() is Some && !self.is_expired_at(now)
    }

    pub fn new(object: T, deadline: Option<u64>) -> (s: Self)
        ensures
            s.object() == Some(object),
            s.deadline_spec() == deadline,
    {
        ExpiringItem { cell: Some(object), deadline }
    }

    /// Attempt the present-to-empty transition at time `now`: the object
    /// comes out exactly when the slot is still live; an expired or
    /// already-emptied slot yields nothing. Either way the cell is empty
    /// afterwards, and it can never become present again.
    pub fn take(&mut self, now: u64) -> (r: Option<T>)
        ensures
            final(self).object() is None,
            final(self).deadline_spec() == old(self).deadline_spec(),
            old(self).is_live(now) ==> r == old(self).object(),
            !old(self).is_live(now) ==> r is None,
    {
        let taken = self.cell.take();
        match self.deadline {
            Some(d) => {
                if d <= now {
                    None
                } else {
                    taken
                }
            },
            None => taken,
        }
    }

    /// The slot's deadline, as an executable value.
    pub fn deadline_value(&self) -> (r: Option<u64>)
        ensures
            r == self.deadline_spec(),
    {
        self.deadline
    }

    /// Whether the cell still holds its object.
    pub fn has_object(&self) -> (r: bool)
        ensures
            r == (self.object() is Some),
    {
        self.cell.is_some()
    }

    /// Consume the slot, handing back whatever the cell still holds.
    pub fn into_object(self) -> (r: Option<T>)
        ensures
            r == self.object(),
    {
        self.cell
    }
}

/// What popping a queue of slots at time `now` yields: the first live
/// slot's object together with the slots behind it; dead slots in front
/// are discarded on the way. `None` when no live slot remains.
pub open spec fn take_from<T>(slots: Seq<ExpiringItem<T>>, now: u64) -> Option<
    (T, Seq<ExpiringItem<T>>),
>
    decreases slots.len(),
{
    if slots.len() == 0 {
        None
    } else if slots[0].is_live(now) {
        match slots[0].object() {
            Some(t) => Some((t, slots.skip(1))),
            None => None,
        }
    } else {
        take_from(slots.skip(1), now)
    }
}

/// How many slots of the queue are live at time `now`.
pub open spec fn live_count<T>(slots: Seq<ExpiringItem<T>>, now: u64) -> nat
    decreases slots.len(),
{
    if slots.len() == 0 {
        0
    } else {
        (if slots[0].is_live(now) {
            1nat
        } else {
            0nat
        }) + live_count(slots.skip(1), now)
    }
}

/// The queue with every slot that is dead at time `now` removed, in order.
pub open spec fn live_only<T>(slots: Seq<ExpiringItem<T>>, now: u64) -> Seq<ExpiringItem<T>>
    decreases slots.len(),
{
    if slots.len() == 0 {
        Seq::empty()
    } else if slots[0].is_live(now) {
        seq![slots[0]] + live_only(slots.skip(1), now)
    } else {
        live_only(slots.skip(1), now)
    }
}

/// A slot that is dead never becomes live again: liveness only decays as
/// the clock moves forward.
pub proof fn lemma_liveness_decays<T>(slot: ExpiringItem<T>, now1: u64, now2: u64)
    requires
        now1 <= now2,
        !slot.is_live(now1),
    ensures
        !slot.is_live(now2),
{
}

/// A queue yields nothing exactly when it holds no live slot.
pub proof fn lemma_take_from_none<T>(slots: Seq<ExpiringItem<T>>, now: u64)
    ensures
        (take_from(slots, now) is None) <==> live_count(slots, now) == 0,
    decreases slots.len(),
{
    if slots.len() > 0 {
        lemma_take_from_none(slots.skip(1), now);
    }
}

/// A successful pop removes exactly one live slot from the queue.
pub proof fn lemma_take_from_some<T>(slots: Seq<ExpiringItem<T>>, now: u64)
    requires
        take_from(slots, now) is Some,
    ensures
        (take_from(slots, now) matches Some((t, rest)) ==> {
            &&& live_count(rest, now) + 1 == live_count(slots, now)
            &&& rest.len() < slots.len()
        }),
    decreases slots.len(),
{
    if slots.len() > 0 && !slots[0].is_live(now) {
        lemma_take_from_some(slots.skip(1), now);
    }
}

/// The number of live slots only shrinks as the clock moves forward.
pub proof fn lemma_live_count_decays<T>(slots: Seq<ExpiringItem<T>>, now1: u64, now2: u64)
    requires
        now1 <= now2,
    ensures
        live_count(slots, now2) <= live_count(slots, now1),
    decreases slots.len(),
{
    if slots.len() > 0 {
        if !slots[0].is_live(now1) {
            lemma_liveness_decays(slots[0], now1, now2);
        }
        lemma_live_count_decays(slots.skip(1), now1, now2);
    }
}

} // verus!
