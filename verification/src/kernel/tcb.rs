//! Task Control Block (TCB) definitions.
use vstd::prelude::*;

verus! {

/// Minimal Task Control Block.
#[derive(Debug, Clone, Copy, PartialEq, Eq, Structural)]
pub struct TaskControlBlock {
    /// Unique task identifier.
    pub tid: u64,
}

} // verus!
