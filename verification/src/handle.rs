//! What a loop records of its handles, and the arithmetic of liveness.
//!
//! The loop keeps one slot for each handle that was ever registered with it.
//! A slot holds the handle's state while the handle is attached and is empty
//! once the handle has left. A handle keeps its loop alive while it is both
//! active and referenced.
use vstd::prelude::*;

verus! {

/// The state of one attached handle, as its owner last reported it.
#[derive(Debug, Clone, Copy)]
pub struct HandleState {
    /// The handle is waiting for events or has work in flight.
    pub active: bool,
    /// The handle is being closed.
    pub closing: bool,
    /// The handle's activity counts towards the liveness of its loop.
    pub referenced: bool,
    /// The time at which the handle next needs service, if it asked for one.
    pub due: Option<u64>,
}

impl HandleState {
    /// The state of a handle that has just been registered: referenced, not
    /// active, not closing, with no service time.
    pub open spec fn initial() -> HandleState {
        HandleState { active: false, closing: false, referenced: true, due: None }
    }

    /// Whether a handle in this state keeps its loop alive.
    pub open spec fn keeps_alive(self) -> bool {
        self.active && self.referenced
    }
}

/// Whether the handle in `slot`, if there is one, keeps its loop alive.
pub open spec fn slot_live(slot: Option<HandleState>) -> bool {
    slot matches Some(state) && state.keeps_alive()
}

/// The service time that the handle in `slot` asks for. Only an active handle
/// asks for one.
pub open spec fn slot_due(slot: Option<HandleState>) -> Option<u64> {
    match slot {
        Some(state) => if state.active {
            state.due
        } else {
            None
        },
        None => None,
    }
}

/// Whether some handle in `slots` keeps the loop alive.
pub open spec fn some_live(slots: Seq<Option<HandleState>>) -> bool {
    exists|i: int| 0 <= i < slots.len() && slot_live(#[trigger] slots[i])
}

/// The number of handles in `slots` that keep the loop alive.
pub open spec fn live_count(slots: Seq<Option<HandleState>>) -> nat
    decreases slots.len(),
{
    if slots.len() == 0 {
        0
    } else {
        live_count(slots.drop_last()) + if slot_live(slots.last()) {
            1nat
        } else {
            0nat
        }
    }
}

/// The earlier of two optional times; a missing time is later than any other.
pub open spec fn earlier(a: Option<u64>, b: Option<u64>) -> Option<u64> {
    match (a, b) {
        (Some(x), Some(y)) => if x <= y {
            a
        } else {
            b
        },
        (Some(_), None) => a,
        (None, _) => b,
    }
}

/// The earliest service time that a handle in `slots` asks for.
pub open spec fn earliest_due(slots: Seq<Option<HandleState>>) -> Option<u64>
    decreases slots.len(),
{
    if slots.len() == 0 {
        None
    } else {
        earlier(earliest_due(slots.drop_last()), slot_due(slots.last()))
    }
}

/// No more handles keep the loop alive than there are slots.
pub proof fn lemma_live_count_bound(slots: Seq<Option<HandleState>>)
    ensures
        live_count(slots) <= slots.len(),
    decreases slots.len(),
{
    if slots.len() > 0 {
        lemma_live_count_bound(slots.drop_last());
    }
}

/// A new slot adds one to the count exactly when its handle keeps the loop
/// alive.
pub proof fn lemma_live_count_push(slots: Seq<Option<HandleState>>, slot: Option<HandleState>)
    ensures
        live_count(slots.push(slot)) == live_count(slots) + if slot_live(slot) {
            1nat
        } else {
            0nat
        },
{
    assert(slots.push(slot).drop_last() =~= slots);
}

/// Replacing one slot changes the count by what the old slot gave to it and
/// the new one gives.
pub proof fn lemma_live_count_update(
    slots: Seq<Option<HandleState>>,
    i: int,
    slot: Option<HandleState>,
)
    requires
        0 <= i < slots.len(),
    ensures
        live_count(slots.update(i, slot)) + (if slot_live(slots[i]) {
            1nat
        } else {
            0nat
        }) == live_count(slots) + if slot_live(slot) {
            1nat
        } else {
            0nat
        },
    decreases slots.len(),
{
    let next = slots.update(i, slot);
    if i == slots.len() - 1 {
        assert(next.drop_last() =~= slots.drop_last());
    } else {
        assert(next.drop_last() =~= slots.drop_last().update(i, slot));
        lemma_live_count_update(slots.drop_last(), i, slot);
    }
}

/// The count is zero exactly when no handle keeps the loop alive.
pub proof fn lemma_live_count_zero(slots: Seq<Option<HandleState>>)
    ensures
        live_count(slots) == 0 <==> !some_live(slots),
    decreases slots.len(),
{
    if slots.len() > 0 {
        let front = slots.drop_last();
        lemma_live_count_zero(front);
        if some_live(front) {
            let i = choose|i: int| 0 <= i < front.len() && slot_live(#[trigger] front[i]);
            assert(slot_live(slots[i]));
        }
        if slot_live(slots.last()) {
            assert(slot_live(slots[slots.len() - 1]));
        }
        if some_live(slots) {
            let i = choose|i: int| 0 <= i < slots.len() && slot_live(#[trigger] slots[i]);
            if i < front.len() {
                assert(slot_live(front[i]));
            }
        }
    }
}

/// The earliest service time is asked for by some handle, and no handle asks
/// for an earlier one; there is none exactly when no handle asks.
pub proof fn lemma_earliest_due(slots: Seq<Option<HandleState>>)
    ensures
        earliest_due(slots) matches Some(t) ==> exists|i: int|
            0 <= i < slots.len() && #[trigger] slot_due(slots[i]) == Some(t),
        forall|i: int|
            0 <= i < slots.len() ==> (#[trigger] slot_due(slots[i]) matches Some(d)
                ==> earliest_due(slots) matches Some(t) && t <= d),
    decreases slots.len(),
{
    if slots.len() > 0 {
        let front = slots.drop_last();
        lemma_earliest_due(front);
        if earliest_due(slots) is Some {
            let t = earliest_due(slots)->0;
            if earliest_due(slots) == slot_due(slots.last()) {
                assert(slot_due(slots[slots.len() - 1]) == Some(t));
            } else {
                let i = choose|i: int|
                    0 <= i < front.len() && #[trigger] slot_due(front[i]) == Some(t);
                assert(slot_due(slots[i]) == Some(t));
            }
        }
        assert forall|i: int| 0 <= i < slots.len() implies (#[trigger] slot_due(
            slots[i],
        ) matches Some(d) ==> earliest_due(slots) matches Some(t) && t <= d) by {
            if i < front.len() {
                assert(slot_due(front[i]) == slot_due(slots[i]));
            }
        }
    }
}

} // verus!
