//! The usage counter in the hands of a single owner.

use vstd::prelude::*;
use crate::event::Event;

verus! {

/// A count of the bytes that are allocated at the moment, summed over the
/// usable sizes of the blocks.
///
/// The owner reports each call of the delegate after it returned (before, for
/// a deallocation), with the addresses as integers and the usable sizes that
/// the delegate gave. Arithmetic on the counter wraps around.
#[derive(Debug)]
pub struct SizeAllocator {
    size: usize,
}

impl View for SizeAllocator {
    type V = usize;

    /// The counter's value.
    closed spec fn view(&self) -> usize {
        self.size
    }
}

impl SizeAllocator {
    /// Creates a counter with nothing allocated.
    pub fn new() -> (allocator: Self)
        ensures
            allocator@ == 0,
    {
        SizeAllocator { size: 0 }
    }

    /// The number of bytes counted as allocated.
    pub fn size(&self) -> (bytes: usize)
        ensures
            bytes == self@,
    {
        self.size
    }

    /// Records that the delegate answered a request for a block with `ptr`,
    /// where the usable size is `usable`, and returns `ptr`.
    ///
    /// The counter rises by `usable` when `ptr` is not null, and stays as it
    /// is when `ptr` is null.
    pub fn allocate(&mut self, ptr: usize, usable: usize) -> (returned: usize)
        ensures
            returned == ptr,
            final(self)@ == (Event::Allocate { ptr, usable }).adjustment().apply(old(self)@),
            ptr == 0 ==> final(self)@ == old(self)@,
            ptr != 0 && old(self)@ + usable <= usize::MAX ==> final(self)@ == old(self)@ + usable,
    {
        let event = Event::Allocate { ptr, usable };
        self.size = event.adjustment().apply(self.size);
        ptr
    }

    /// Records that the delegate answered a request for a zeroed block with
    /// `ptr`, where the usable size is `usable`, and returns `ptr`.
    ///
    /// The counter changes as it does in `allocate`.
    pub fn alloc_zeroed(&mut self, ptr: usize, usable: usize) -> (returned: usize)
        ensures
            returned == ptr,
            final(self)@ == (Event::Allocate { ptr, usable }).adjustment().apply(old(self)@),
            ptr == 0 ==> final(self)@ == old(self)@,
            ptr != 0 && old(self)@ + usable <= usize::MAX ==> final(self)@ == old(self)@ + usable,
    {
        let event = Event::Allocate { ptr, usable };
        self.size = event.adjustment().apply(self.size);
        ptr
    }

    /// Records that the delegate answered a request to resize the block at
    /// `ptr` with `new_ptr`, and returns `new_ptr`. `old_usable` is the usable
    /// size at `ptr` before the request, `new_usable` the one at `new_ptr`
    /// after it.
    ///
    /// Where the block moved, the counter changes by `new_usable - old_usable`.
    /// Where the delegate failed or resized in place, the counter stays as it
    /// is, whatever the two sizes are: after a resize in place that changed
    /// the usable size, the counter no longer agrees with the memory in use.
    pub fn realloc(
        &mut self,
        ptr: usize,
        old_usable: usize,
        new_ptr: usize,
        new_usable: usize,
    ) -> (returned: usize)
        requires
            ptr != 0,
        ensures
            returned == new_ptr,
            final(self)@ == (Event::Reallocate {
                ptr,
                old_usable,
                new_ptr,
                new_usable,
            }).adjustment().apply(old(self)@),
            new_ptr == 0 || new_ptr == ptr ==> final(self)@ == old(self)@,
            new_ptr != 0 && new_ptr != ptr && 0 <= old(self)@ + new_usable - old_usable
                <= usize::MAX ==> final(self)@ == old(self)@ + new_usable - old_usable,
    {
        let event = Event::Reallocate { ptr, old_usable, new_ptr, new_usable };
        self.size = event.adjustment().apply(self.size);
        new_ptr
    }

    /// Records that the block at `ptr`, whose usable size is `usable`, is
    /// handed back to the delegate. The counter falls by `usable`.
    pub fn dealloc(&mut self, ptr: usize, usable: usize)
        requires
            ptr != 0,
        ensures
            final(self)@ == (Event::Deallocate { ptr, usable }).adjustment().apply(old(self)@),
            usable <= old(self)@ ==> final(self)@ == old(self)@ - usable,
    {
        let event = Event::Deallocate { ptr, usable };
        self.size = event.adjustment().apply(self.size);
    }
}

} // verus!
