//! What the accounting is told of each call of the delegate.

use vstd::prelude::*;
use crate::adjustment::Adjustment;

verus! {

/// One completed call of the delegate. Addresses are plain integers, and the
/// null pointer is address 0. A usable size is the number of bytes that the
/// delegate reports as usable at an address, which may exceed what was asked
/// for.
#[derive(Clone, Copy, Debug, PartialEq, Eq, Structural)]
pub enum Event {
    /// The delegate was asked for a block, zeroed or not, and answered `ptr`,
    /// which is null when it failed. `usable` is the usable size of the new
    /// block, and is not read when `ptr` is null.
    Allocate { ptr: usize, usable: usize },
    /// The delegate was asked to resize the block at `ptr`, whose usable size
    /// was `old_usable` just before, and answered `new_ptr`: null when it
    /// failed, `ptr` again when it resized in place, another address when it
    /// moved the block. `new_usable` is the usable size at `new_ptr`, and is
    /// not read when `new_ptr` is null.
    Reallocate { ptr: usize, old_usable: usize, new_ptr: usize, new_usable: usize },
    /// The block at `ptr`, whose usable size is `usable`, is about to be
    /// handed back to the delegate.
    Deallocate { ptr: usize, usable: usize },
}

impl Event {
    /// The change that the event makes to the usage counter.
    ///
    /// A failed call changes nothing. A resize changes the counter only when
    /// the block moved: the test is on the address, not on the sizes, so a
    /// resize in place leaves the counter alone even where the usable size
    /// changed. A moved block whose usable size did not rise is a `Shrink`,
    /// by zero bytes where the two sizes are equal.
    pub open spec fn spec_adjustment(self) -> Adjustment {
        match self {
            Event::Allocate { ptr, usable } => {
                if ptr == 0 {
                    Adjustment::Keep
                } else {
                    Adjustment::Grow(usable)
                }
            },
            Event::Reallocate { ptr, old_usable, new_ptr, new_usable } => {
                if new_ptr == ptr || new_ptr == 0 {
                    Adjustment::Keep
                } else if old_usable < new_usable {
                    Adjustment::Grow((new_usable - old_usable) as usize)
                } else {
                    Adjustment::Shrink((old_usable - new_usable) as usize)
                }
            },
            Event::Deallocate { ptr, usable } => Adjustment::Shrink(usable),
        }
    }

    /// Decides the change that the event makes to the usage counter.
    #[verifier::when_used_as_spec(spec_adjustment)]
    pub fn adjustment(self) -> (adj: Adjustment)
        ensures
            adj == self.spec_adjustment(),
    {
        match self {
            Event::Allocate { ptr, usable } => {
                if ptr != 0 {
                    Adjustment::Grow(usable)
                } else {
                    Adjustment::Keep
                }
            },
            Event::Reallocate { ptr, old_usable, new_ptr, new_usable } => {
                if new_ptr != ptr && new_ptr != 0 {
                    if old_usable < new_usable {
                        Adjustment::Grow(new_usable - old_usable)
                    } else {
                        Adjustment::Shrink(old_usable - new_usable)
                    }
                } else {
                    Adjustment::Keep
                }
            },
            Event::Deallocate { ptr: _, usable } => Adjustment::Shrink(usable),
        }
    }
}

} // verus!
