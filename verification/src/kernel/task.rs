//! The running task and its capabilities.
use vstd::prelude::*;
use crate::kernel::caps::Capability;

verus! {

/// The task on whose behalf the kernel runs a syscall.
pub struct Task;

/// Whether the running task holds a capability: every task holds the
/// logging, time and network capabilities, and none holds storage access.
pub open spec fn task_holds(cap: Capability) -> bool {
    match cap {
        Capability::NetworkAccess => true,
        Capability::LogWrite => true,
        Capability::TimeRead => true,
        Capability::StorageAccess => false,
    }
}

impl Task {
    /// Reports if the task may use capability `cap`.
    pub fn has_cap(&self, cap: Capability) -> (held: bool)
        ensures
            held == task_holds(cap),
    {
        match cap {
            Capability::NetworkAccess => true,
            Capability::LogWrite => true,
            Capability::TimeRead => true,
            _ => false,
        }
    }
}

/// The task that issued the current syscall.
pub fn get_current_task() -> Task {
    Task
}

/// Blocks the running task until its channel has a message. Scheduling is
/// cooperative here: the call returns at once.
pub fn block_current_on_channel(_id: u32) {
}

} // verus!
