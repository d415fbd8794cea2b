//! Kernel-side state and services.
pub mod arch;
pub mod caps;
pub mod config;
pub mod console;
pub mod dma;
pub mod error;
pub mod ipc;
pub mod irq;
pub mod memory;
pub mod syscall;
pub mod task;
pub mod tcb;
