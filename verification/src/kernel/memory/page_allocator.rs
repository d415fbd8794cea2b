//! Page allocator bootstrap.
use vstd::prelude::*;

verus! {

/// The page allocator; it holds no pages of its own yet and takes its
/// frames from the boot frame allocator.
pub struct PageAllocator;

} // verus!
