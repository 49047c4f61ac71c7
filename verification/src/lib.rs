//! Accounting for a memory allocator that keeps a running count of the bytes
//! it has handed out, measured by the usable size of each block.
//!
//! The allocator that reserves and releases memory is a delegate outside this
//! crate. What this crate holds is the bookkeeping: which change each call of
//! the delegate makes to the usage counter, and what the counter is worth
//! after any history of such calls.

pub mod adjustment;
pub mod allocator;
pub mod event;
pub mod laws;
pub mod ledger;
pub mod shared;

pub use adjustment::Adjustment;
pub use allocator::SizeAllocator;
pub use event::Event;
