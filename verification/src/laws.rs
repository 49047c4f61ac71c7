//! What holds of the counter over every history of events.

use vstd::prelude::*;
use crate::adjustment::lemma_wrapped_near;
use crate::adjustment::wrapped;
use crate::event::Event;
use crate::ledger::balance;
use crate::ledger::blocks_after;
use crate::ledger::drift;
use crate::ledger::drift_of;
use crate::ledger::live;
use crate::ledger::never_grows_in_place;
use crate::ledger::placed;
use crate::ledger::respects;
use crate::ledger::run;
use crate::ledger::steady;
use crate::ledger::total;
use crate::ledger::valid;

verus! {

/// The sum over finitely many blocks is the size of any one of them plus
/// the sum over the others.
pub proof fn lemma_total_remove(blocks: Map<usize, usize>, ptr: usize)
    requires
        blocks.dom().finite(),
        blocks.contains_key(ptr),
    ensures
        total(blocks) == blocks[ptr] + total(blocks.remove(ptr)),
    decreases blocks.dom().len(),
{
    let chosen: usize = blocks.dom().choose();
    if chosen != ptr {
        lemma_total_remove(blocks.remove(chosen), ptr);
        lemma_total_remove(blocks.remove(ptr), chosen);
        assert(blocks.remove(chosen).remove(ptr) =~= blocks.remove(ptr).remove(chosen));
    }
}

/// A block at a new address adds its size to the sum.
pub proof fn lemma_total_insert(blocks: Map<usize, usize>, ptr: usize, usable: usize)
    requires
        blocks.dom().finite(),
        !blocks.contains_key(ptr),
    ensures
        total(blocks.insert(ptr, usable)) == total(blocks) + usable,
{
    lemma_total_remove(blocks.insert(ptr, usable), ptr);
    assert(blocks.insert(ptr, usable).remove(ptr) =~= blocks);
}

/// After any history finitely many blocks are live, and none at address 0.
pub proof fn lemma_live_finite(trace: Seq<Event>)
    ensures
        live(trace).dom().finite(),
        !live(trace).contains_key(0),
    decreases trace.len(),
{
    if trace.len() > 0 {
        lemma_live_finite(trace.drop_last());
    }
}

/// The books balance. After a history in which each event can happen after
/// those before it, the sum of the changes made to the counter is the sum of
/// the usable sizes of the live blocks, less what resizes in place added to
/// those sizes.
pub proof fn lemma_balance_is_live_total_less_drift(trace: Seq<Event>)
    requires
        valid(trace),
    ensures
        balance(trace) == total(live(trace)) - drift(trace),
    decreases trace.len(),
{
    if trace.len() > 0 {
        let before = trace.drop_last();
        let blocks = live(before);
        lemma_balance_is_live_total_less_drift(before);
        lemma_live_finite(before);
        match trace.last() {
            Event::Allocate { ptr, usable } => {
                if ptr != 0 {
                    lemma_total_insert(blocks, ptr, usable);
                }
            },
            Event::Reallocate { ptr, old_usable, new_ptr, new_usable } => {
                if new_ptr != 0 {
                    lemma_total_remove(blocks, ptr);
                    lemma_total_insert(blocks.remove(ptr), new_ptr, new_usable);
                }
            },
            Event::Deallocate { ptr, usable } => {
                lemma_total_remove(blocks, ptr);
            },
        }
    }
}

/// The counter after a history is the value it began with plus the sum of
/// the changes, wrapped to a machine word.
pub proof fn lemma_run_is_wrapped_balance(counter: usize, trace: Seq<Event>)
    ensures
        run(counter, trace) == wrapped(counter + balance(trace)),
    decreases trace.len(),
{
    let m: int = usize::MAX + 1;
    if trace.len() == 0 {
        lemma_wrapped_near(counter as int);
    } else {
        let before = trace.drop_last();
        let d = trace.last().adjustment().delta();
        lemma_run_is_wrapped_balance(counter, before);
        let x = counter + balance(before);
        vstd::arithmetic::div_mod::lemma_mod_bound(x, m);
        vstd::arithmetic::div_mod::lemma_add_mod_noop(x, d, m);
        vstd::arithmetic::div_mod::lemma_add_mod_noop(x % m, d, m);
        vstd::arithmetic::div_mod::lemma_mod_twice(x, m);
    }
}

/// A history whose resizes in place raise no usable size has no positive
/// drift, and one whose resizes in place change no usable size has none.
pub proof fn lemma_drift_sign(trace: Seq<Event>)
    ensures
        never_grows_in_place(trace) ==> drift(trace) <= 0,
        steady(trace) ==> drift(trace) == 0,
    decreases trace.len(),
{
    if trace.len() > 0 {
        let before = trace.drop_last();
        lemma_drift_sign(before);
        assert(trace.last() == trace[trace.len() - 1]);
        assert forall|i: int| 0 <= i < before.len() implies before[i] == trace[i] by {}
        if never_grows_in_place(trace) {
            assert forall|i: int| 0 <= i < before.len() implies drift_of(#[trigger] before[i])
                <= 0 by {
                assert(before[i] == trace[i]);
            }
        }
        if steady(trace) {
            assert forall|i: int| 0 <= i < before.len() implies drift_of(#[trigger] before[i])
                == 0 by {
                assert(before[i] == trace[i]);
            }
        }
    }
}

/// Each beginning of a history that can happen can happen too.
pub proof fn lemma_valid_prefix(trace: Seq<Event>, n: int)
    requires
        valid(trace),
        0 <= n <= trace.len(),
    ensures
        valid(trace.take(n)),
    decreases trace.len(),
{
    if n == trace.len() {
        assert(trace.take(n) =~= trace);
    } else {
        lemma_valid_prefix(trace.drop_last(), n);
        assert(trace.drop_last().take(n) =~= trace.take(n));
    }
}

/// Conservation. After a history in which each event can happen after those
/// before it, no resize in place changes a usable size, and every block that
/// came to life was handed back, the counter holds the value it began with.
pub proof fn lemma_conservation(counter: usize, trace: Seq<Event>)
    requires
        valid(trace),
        steady(trace),
        live(trace) == Map::<usize, usize>::empty(),
    ensures
        balance(trace) == 0,
        run(counter, trace) == counter,
{
    lemma_balance_is_live_total_less_drift(trace);
    lemma_drift_sign(trace);
    lemma_run_is_wrapped_balance(counter, trace);
    lemma_wrapped_near(counter as int);
}

/// The counter never falls below the value it began with. At every point of
/// a history in which each event can happen after those before it and no
/// resize in place raises a usable size, the sum of the changes made so far
/// is at least the sum of the usable sizes of the live blocks, and so not
/// negative. A counter that began at 0 holds that sum, as long as the sum
/// fits in a machine word.
pub proof fn lemma_never_negative(trace: Seq<Event>, n: int)
    requires
        valid(trace),
        never_grows_in_place(trace),
        0 <= n <= trace.len(),
    ensures
        balance(trace.take(n)) >= total(live(trace.take(n))) >= 0,
        balance(trace.take(n)) <= usize::MAX ==> run(0, trace.take(n)) == balance(trace.take(n)),
{
    let prefix = trace.take(n);
    lemma_valid_prefix(trace, n);
    assert forall|i: int| 0 <= i < prefix.len() implies drift_of(#[trigger] prefix[i]) <= 0 by {
        assert(prefix[i] == trace[i]);
    }
    lemma_drift_sign(prefix);
    lemma_balance_is_live_total_less_drift(prefix);
    lemma_run_is_wrapped_balance(0, prefix);
    if balance(prefix) <= usize::MAX {
        lemma_wrapped_near(balance(prefix));
    }
}

/// Among finitely many blocks, and at least one, one has the highest
/// address.
proof fn lemma_highest(blocks: Map<usize, usize>) -> (top: usize)
    requires
        blocks.dom().finite(),
        blocks.dom().len() > 0,
    ensures
        blocks.contains_key(top),
        forall|p: usize| blocks.contains_key(p) ==> p <= top,
    decreases blocks.dom().len(),
{
    let chosen: usize = blocks.dom().choose();
    let rest = blocks.remove(chosen);
    if rest.dom().len() == 0 {
        assert forall|p: usize| blocks.contains_key(p) implies p <= chosen by {
            if p != chosen {
                assert(rest.dom().contains(p));
            }
        }
        chosen
    } else {
        let higher: usize = lemma_highest(rest);
        if chosen <= higher {
            higher
        } else {
            chosen
        }
    }
}

/// Blocks that lie one after another and end at or below `bound` hold at
/// most `bound` bytes together.
proof fn lemma_total_below(blocks: Map<usize, usize>, bound: int)
    requires
        blocks.dom().finite(),
        0 <= bound,
        forall|p: usize| #[trigger] blocks.contains_key(p) ==> p + blocks[p] <= bound,
        forall|p: usize, q: usize|
            #![trigger blocks.contains_key(p), blocks.contains_key(q)]
            blocks.contains_key(p) && blocks.contains_key(q) && p < q ==> p + blocks[p] <= q,
    ensures
        total(blocks) <= bound,
    decreases blocks.dom().len(),
{
    if blocks.dom().len() > 0 {
        let top: usize = lemma_highest(blocks);
        let rest = blocks.remove(top);
        assert forall|p: usize| #[trigger] rest.contains_key(p) implies p + rest[p] <= top by {
            assert(blocks.contains_key(p) && blocks.contains_key(top));
        }
        assert forall|p: usize, q: usize|
            #![trigger rest.contains_key(p), rest.contains_key(q)]
            rest.contains_key(p) && rest.contains_key(q) && p < q implies p + rest[p] <= q by {
            assert(blocks.contains_key(p) && blocks.contains_key(q));
        }
        lemma_total_below(rest, top as int);
        lemma_total_remove(blocks, top);
    }
}

/// Blocks that lie in the address space without overlap hold no more bytes
/// together than a machine word can count.
pub proof fn lemma_placed_fits(blocks: Map<usize, usize>)
    requires
        placed(blocks),
    ensures
        total(blocks) <= usize::MAX,
{
    lemma_total_below(blocks, usize::MAX as int);
}

/// The counter is the memory in use. After a history in which each event can
/// happen after those before it and no resize in place changes a usable
/// size, a counter that began at 0 holds the sum of the usable sizes of the
/// live blocks, provided these lie in the address space without overlap.
pub proof fn lemma_counter_is_live_total(trace: Seq<Event>)
    requires
        valid(trace),
        steady(trace),
        placed(live(trace)),
    ensures
        run(0, trace) == total(live(trace)),
{
    lemma_balance_is_live_total_less_drift(trace);
    lemma_drift_sign(trace);
    lemma_placed_fits(live(trace));
    lemma_run_is_wrapped_balance(0, trace);
    lemma_wrapped_near(balance(trace));
}

} // verus!
