//! A model of the delegate's live blocks, and of the counter over a history
//! of events.
//!
//! The counter itself keeps no record of single blocks. The model is what the
//! counter is measured against: it says which blocks are live after a
//! history, which histories a well-behaved delegate and caller can produce,
//! and what the counter holds at the end.

use vstd::prelude::*;
use crate::adjustment::wrapped;
use crate::event::Event;

verus! {

/// The live blocks after `event`, where `blocks` were live before it. A map
/// of live blocks gives the usable size at each address.
///
/// A failed call leaves the blocks as they were. A resize in place keeps the
/// address and gives the block its new usable size.
pub open spec fn blocks_after(blocks: Map<usize, usize>, event: Event) -> Map<usize, usize> {
    match event {
        Event::Allocate { ptr, usable } => {
            if ptr == 0 {
                blocks
            } else {
                blocks.insert(ptr, usable)
            }
        },
        Event::Reallocate { ptr, old_usable, new_ptr, new_usable } => {
            if new_ptr == 0 {
                blocks
            } else {
                blocks.remove(ptr).insert(new_ptr, new_usable)
            }
        },
        Event::Deallocate { ptr, usable } => blocks.remove(ptr),
    }
}

/// Whether `event` can happen while `blocks` are live: the delegate answers
/// with null or with an address that holds no live block, the caller resizes
/// and hands back live blocks only, and each usable size is the one that the
/// block has.
pub open spec fn respects(blocks: Map<usize, usize>, event: Event) -> bool {
    match event {
        Event::Allocate { ptr, usable } => ptr == 0 || !blocks.contains_key(ptr),
        Event::Reallocate { ptr, old_usable, new_ptr, new_usable } => {
            &&& blocks.contains_key(ptr)
            &&& blocks[ptr] == old_usable
            &&& (new_ptr == 0 || new_ptr == ptr || !blocks.contains_key(new_ptr))
        },
        Event::Deallocate { ptr, usable } => blocks.contains_key(ptr) && blocks[ptr] == usable,
    }
}

/// The number of bytes by which `event` changes a block's usable size behind
/// the counter's back: the change of size in a resize in place, and zero for
/// every other event.
pub open spec fn drift_of(event: Event) -> int {
    match event {
        Event::Reallocate { ptr, old_usable, new_ptr, new_usable } => {
            if new_ptr == ptr && new_ptr != 0 {
                new_usable - old_usable
            } else {
                0
            }
        },
        _ => 0,
    }
}

/// The live blocks after the history `trace`, which began with none.
pub open spec fn live(trace: Seq<Event>) -> Map<usize, usize>
    decreases trace.len(),
{
    if trace.len() == 0 {
        Map::empty()
    } else {
        blocks_after(live(trace.drop_last()), trace.last())
    }
}

/// Whether each event of `trace` can happen after those before it.
pub open spec fn valid(trace: Seq<Event>) -> bool
    decreases trace.len(),
{
    trace.len() == 0 || (valid(trace.drop_last()) && respects(
        live(trace.drop_last()),
        trace.last(),
    ))
}

/// The sum of `drift_of` over the events of `trace`.
pub open spec fn drift(trace: Seq<Event>) -> int
    decreases trace.len(),
{
    if trace.len() == 0 {
        0
    } else {
        drift(trace.drop_last()) + drift_of(trace.last())
    }
}

/// The sum of the signed changes that the events of `trace` make to the
/// counter, without regard to a machine word's range.
pub open spec fn balance(trace: Seq<Event>) -> int
    decreases trace.len(),
{
    if trace.len() == 0 {
        0
    } else {
        balance(trace.drop_last()) + trace.last().adjustment().delta()
    }
}

/// The counter after each event of `trace` in turn was applied to it,
/// starting from `counter`.
pub open spec fn run(counter: usize, trace: Seq<Event>) -> usize
    decreases trace.len(),
{
    if trace.len() == 0 {
        counter
    } else {
        trace.last().adjustment().apply(run(counter, trace.drop_last()))
    }
}

/// Whether no resize in place of `trace` changes a usable size.
pub open spec fn steady(trace: Seq<Event>) -> bool {
    forall|i: int| 0 <= i < trace.len() ==> drift_of(#[trigger] trace[i]) == 0
}

/// Whether no resize in place of `trace` raises a usable size.
pub open spec fn never_grows_in_place(trace: Seq<Event>) -> bool {
    forall|i: int| 0 <= i < trace.len() ==> drift_of(#[trigger] trace[i]) <= 0
}

/// The sum of the usable sizes of finitely many blocks.
pub open spec fn total(blocks: Map<usize, usize>) -> nat
    decreases blocks.dom().len(),
    when blocks.dom().finite()
{
    if blocks.dom().len() == 0 {
        0
    } else {
        let ptr = blocks.dom().choose();
        (blocks[ptr] + total(blocks.remove(ptr))) as nat
    }
}

/// Whether the blocks lie in the address space one after another: none at
/// address 0, none past the last address, no two overlapping.
pub open spec fn placed(blocks: Map<usize, usize>) -> bool {
    &&& blocks.dom().finite()
    &&& forall|p: usize| #[trigger]
        blocks.contains_key(p) ==> p != 0 && p + blocks[p] <= usize::MAX
    &&& forall|p: usize, q: usize|
        #![trigger blocks.contains_key(p), blocks.contains_key(q)]
        blocks.contains_key(p) && blocks.contains_key(q) && p < q ==> p + blocks[p] <= q
}

} // verus!
