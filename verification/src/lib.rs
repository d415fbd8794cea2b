//! AetherOS Nexus core: the kernel's syscall surface, IPC channels and the
//! request logic of the system V-Nodes, with their contracts.
pub mod ipc;
pub mod kernel;
pub mod text;
pub mod vnodes;
