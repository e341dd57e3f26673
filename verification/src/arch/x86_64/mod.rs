//! `x86_64` architecture-specific logic.
pub mod fingerprint;
pub mod interrupts;
pub mod morph;
pub mod pci;
pub mod time;
