//! Input devices: keyboard text entry and the PS/2 mouse.
pub mod keyboard;
pub mod mouse;
