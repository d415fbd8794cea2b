//! Interrupt routing. Interrupt lines are not wired to channels in this
//! kernel: registering and acknowledging change nothing.
use vstd::prelude::*;

verus! {

/// Routes an interrupt line to an IPC channel (no routing table is kept).
pub fn register_irq_handler(_irq: u8, _chan: u32) {
}

/// Acknowledges an interrupt line (nothing to acknowledge).
pub fn acknowledge_irq(_irq: u8) {
}

} // verus!
