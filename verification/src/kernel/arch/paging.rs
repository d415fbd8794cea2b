//! Paging set-up for x86_64.
use vstd::prelude::*;
use crate::kernel::console;

verus! {

/// Initializes paging. Paging is not enabled by this kernel yet: the page
/// tables of the boot loader stay in place, and the set-up only reports its
/// two steps on the kernel console.
pub fn init() {
    console::print("[kernel] paging: Initializing paging (conceptual)...\n");
    console::print("[kernel] paging: Paging setup simulated.\n");
}

} // verus!
