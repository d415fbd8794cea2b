//! Compile-time kernel configuration.
use vstd::prelude::*;

verus! {

/// Number of IPC channels that the kernel manages.
pub const IPC_CHANNEL_COUNT: u32 = 32;

} // verus!
