//! Storage drivers.
pub mod ramdisk;
