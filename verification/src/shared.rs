//! The usage counter as a word that threads share.

use vstd::prelude::*;
use core::sync::atomic::AtomicUsize;
use core::sync::atomic::Ordering;
use crate::adjustment::Adjustment;

verus! {

impl Adjustment {
    /// Applies the change to a counter that threads share, as one atomic add
    /// or subtract that wraps around; `Keep` issues no update. The counter is
    /// never read and then written back, so no update of another thread is
    /// lost. Every update is sequentially consistent.
    ///
    /// Nothing is stated of the counter's value: other threads may change it
    /// at any moment. What one owner would see is `apply`.
    pub fn publish(self, counter: &AtomicUsize) {
        match self {
            Adjustment::Keep => {},
            Adjustment::Grow(n) => {
                counter.fetch_add(n, Ordering::SeqCst);
            },
            Adjustment::Shrink(n) => {
                counter.fetch_sub(n, Ordering::SeqCst);
            },
        }
    }
}

} // verus!
