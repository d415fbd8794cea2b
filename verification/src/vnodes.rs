//! The request logic of the system V-Nodes.
pub mod vfs;
pub mod file_manager;
pub mod dns_resolver;
pub mod socket_api;
pub mod net_bridge;
pub mod net_stack;
pub mod aethernet_device;
