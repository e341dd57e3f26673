//! Memory management: the boot-time physical frame allocator.
pub mod frame;
pub mod heap;
