//! Capabilities that a task may hold.
use vstd::prelude::*;

verus! {

/// A right that a task needs for some syscalls.
#[derive(Debug, Clone, Copy, PartialEq, Eq, Structural)]
pub enum Capability {
    LogWrite,
    TimeRead,
    NetworkAccess,
    StorageAccess,
}

} // verus!
