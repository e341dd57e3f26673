//! Architecture-specific code.
pub mod x86_64;
