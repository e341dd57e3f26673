//! Colors for the Ambient UI, as packed 0xRRGGBB values.
use vstd::prelude::*;

verus! {

/// Phoenix gold.
pub const PHOENIX_GOLD: u32 = 0xFF_D7_00;

/// Deep blue.
pub const DEEP_BLUE: u32 = 0x00_00_33;

/// Intent cyan.
pub const INTENT_CYAN: u32 = 0x00_FF_FF;

/// Matte white.
pub const MATTE_WHITE: u32 = 0xFF_FF_FF;

} // verus!
