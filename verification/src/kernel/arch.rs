//! Architecture-specific set-up.
pub mod paging;
