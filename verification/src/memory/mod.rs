//! Page-granular memory bookkeeping: addresses, page indices, frames and
//! pages, inclusive ranges of them, and the lists the allocator keeps.
use vstd::prelude::*;

pub mod addr;
pub mod allocator;
pub mod pager;
pub mod range;
pub mod traits;

verus! {

/// Size in bytes of one page (and of one physical frame).
pub const PAGE_SIZE: usize = 4096;

} // verus!
