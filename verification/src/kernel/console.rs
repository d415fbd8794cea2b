//! Kernel console output. The console of this kernel has no device behind it:
//! each call accepts its argument and writes nothing.
use vstd::prelude::*;

verus! {

/// Prints a string on the kernel console (which has no device: nothing is written).
pub fn print(_s: &str) {
}

/// Prints a decimal number on the kernel console (nothing is written).
pub fn print_u64(_n: u64) {
}

/// Prints a hexadecimal number on the kernel console (nothing is written).
pub fn print_hex(_n: u64) {
}

} // verus!
