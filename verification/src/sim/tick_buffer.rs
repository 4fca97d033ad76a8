//! The model of a tick buffer: for each tick number, the items waiting for it
//! in arrival order.
//!
//! A tick with nothing waiting has no entry, so two buffers that hold the same
//! items are the same map. An item is admitted only if its tick lies in the
//! window that starts at the current tick and reaches `MAX_TICK_LOOKAHEAD`
//! ticks ahead: an item for a tick that has already fired can never be
//! delivered at its tick, and an item far in the future would sit in memory
//! for no good reason. Both are turned away, and the caller is told which.

use vstd::prelude::*;

verus! {

/// How far ahead of the current tick an item may be addressed.
pub const MAX_TICK_LOOKAHEAD: i32 = 1024;

/// What became of an item offered to a tick buffer.
#[derive(Debug, Copy, Clone, PartialEq, Eq, Structural)]
pub enum Admission {
    /// The item waits for its tick.
    Accepted,
    /// The item's tick has already fired; the item was dropped.
    Stale,
    /// The item's tick is beyond the look-ahead window; the item was dropped.
    TooFarAhead,
}

pub open spec fn admission(current_tick: i32, for_tick: i32) -> Admission {
    if for_tick < current_tick {
        Admission::Stale
    } else if for_tick - current_tick > MAX_TICK_LOOKAHEAD {
        Admission::TooFarAhead
    } else {
        Admission::Accepted
    }
}

/// Decides whether an item addressed to `for_tick` is admitted while the
/// current tick is `current_tick`.
pub fn decide_admission(current_tick: i32, for_tick: i32) -> (outcome: Admission)
    ensures
        outcome == admission(current_tick, for_tick),
{
    if for_tick < current_tick {
        Admission::Stale
    } else if for_tick as i64 - current_tick as i64 > MAX_TICK_LOOKAHEAD as i64 {
        Admission::TooFarAhead
    } else {
        Admission::Accepted
    }
}

/// The items waiting for `tick`, oldest first.
pub open spec fn waiting<T>(pending: Map<i32, Seq<T>>, tick: i32) -> Seq<T> {
    if pending.contains_key(tick) {
        pending[tick]
    } else {
        Seq::empty()
    }
}

/// The buffer after `item` has joined the end of the queue for `tick`.
pub open spec fn with_item<T>(pending: Map<i32, Seq<T>>, tick: i32, item: T) -> Map<i32, Seq<T>> {
    pending.insert(tick, waiting(pending, tick).push(item))
}

/// The buffer after the oldest item waiting for `tick` has left.
pub open spec fn without_head<T>(pending: Map<i32, Seq<T>>, tick: i32) -> Map<i32, Seq<T>> {
    if waiting(pending, tick).len() <= 1 {
        pending.remove(tick)
    } else {
        pending.insert(tick, pending[tick].drop_first())
    }
}

/// Every entry holds at least one item and lies in the window that starts at
/// `current_tick`.
pub open spec fn in_window<T>(pending: Map<i32, Seq<T>>, current_tick: i32) -> bool {
    forall|tick: i32| #[trigger]
        pending.contains_key(tick) ==> pending[tick].len() > 0 && current_tick <= tick
            && tick - current_tick <= MAX_TICK_LOOKAHEAD
}

/// Items for different ticks do not disturb each other: whichever of the two
/// arrives first, the buffer ends up the same.
pub proof fn lemma_arrival_order_across_ticks<T>(
    pending: Map<i32, Seq<T>>,
    first_tick: i32,
    first: T,
    second_tick: i32,
    second: T,
)
    requires
        first_tick != second_tick,
    ensures
        with_item(with_item(pending, first_tick, first), second_tick, second) == with_item(
            with_item(pending, second_tick, second),
            first_tick,
            first,
        ),
{
    assert(with_item(with_item(pending, first_tick, first), second_tick, second) =~= with_item(
        with_item(pending, second_tick, second),
        first_tick,
        first,
    ));
}

/// An item that arrives for one tick leaves what waits for every other tick
/// untouched, and joins its own tick's queue at the end.
pub proof fn lemma_with_item_waiting<T>(pending: Map<i32, Seq<T>>, tick: i32, item: T, other: i32)
    ensures
        waiting(with_item(pending, tick, item), tick) == waiting(pending, tick).push(item),
        other != tick ==> waiting(with_item(pending, tick, item), other) == waiting(pending, other),
{
}

} // verus!
