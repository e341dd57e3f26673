//! Audio feedback.
pub mod speaker;
