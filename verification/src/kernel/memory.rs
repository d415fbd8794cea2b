//! Physical memory management.
pub mod page_allocator;
