//! Aura: line primitives of the ambient graphics layer.
pub mod colors;

use vstd::prelude::*;

verus! {

/// Plots a single pixel. The ambient layer only simulates plotting, so this
/// changes nothing.
pub fn draw_pixel(x: usize, y: usize, color: u32) {
}

/// Draws a horizontal line of `length` pixels starting at `(x, y)`.
pub fn draw_hline(x: usize, y: usize, length: usize, color: u32)
    requires
        x + length <= usize::MAX + 1,
{
    for i in 0..length
        invariant
            x + length <= usize::MAX + 1,
    {
        draw_pixel(x + i, y, color);
    }
}

/// Draws a vertical line of `length` pixels starting at `(x, y)`.
pub fn draw_vline(x: usize, y: usize, length: usize, color: u32)
    requires
        y + length <= usize::MAX + 1,
{
    for i in 0..length
        invariant
            y + length <= usize::MAX + 1,
    {
        draw_pixel(x, y + i, color);
    }
}

} // verus!
