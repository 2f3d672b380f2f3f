//! Normalization of cursor positions to device coordinates.
//!
//! The shader receives the mouse as a point in [-1, 1] x [-1, 1] with the
//! origin at the bottom-left of the window: nx = 2x/W - 1, ny = -2y/H + 1
//! for a cursor at pixel (x, y) in a W-by-H window. The library computes the
//! exact numerators of those two fractions over the denominators W and H, so
//! the formula can be stated and proved without rounding; turning a numerator
//! and denominator into a 32-bit float is left to the caller.

use vstd::prelude::*;

verus! {

/// Numerator of the normalized mouse x over denominator `width`:
/// (2x - W) / W == 2x/W - 1.
pub open spec fn norm_x_num(x: u32, width: u32) -> int {
    2 * (x as int) - (width as int)
}

/// Numerator of the normalized mouse y over denominator `height`:
/// (H - 2y) / H == -2y/H + 1. Pixel y grows downward, so the sign flips.
pub open spec fn norm_y_num(y: u32, height: u32) -> int {
    (height as int) - 2 * (y as int)
}

/// Normalizes a cursor position in pixels: the result is the exact rational
/// pair (r.0 / width, r.1 / height) in device coordinates.
pub fn normalize_mouse(x: u32, y: u32, width: u32, height: u32) -> (r: (i64, i64))
    requires
        width > 0,
        height > 0,
    ensures
        r.0 == norm_x_num(x, width),
        r.1 == norm_y_num(y, height),
{
    let nx: i64 = 2 * (x as i64) - (width as i64);
    let ny: i64 = (height as i64) - 2 * (y as i64);
    (nx, ny)
}

/// Law: for a cursor inside the window the normalized mouse is
/// (2x/W - 1, -2y/H + 1), a point of [-1, 1] x [-1, 1]; the top-left corner
/// (0, 0) maps to (-1, 1), the bottom-right corner (W, H) to (1, -1), and
/// the center of an even-sized window to exactly (0, 0).
pub proof fn lemma_mouse_normalization(x: u32, y: u32, width: u32, height: u32)
    requires
        width > 0,
        height > 0,
        x <= width,
        y <= height,
    ensures
        -(width as int) <= norm_x_num(x, width) <= width as int,
        -(height as int) <= norm_y_num(y, height) <= height as int,
        x == 0 ==> norm_x_num(x, width) == -(width as int),
        y == 0 ==> norm_y_num(y, height) == height as int,
        x == width ==> norm_x_num(x, width) == width as int,
        y == height ==> norm_y_num(y, height) == -(height as int),
        2 * x == width ==> norm_x_num(x, width) == 0,
        2 * y == height ==> norm_y_num(y, height) == 0,
{
}

} // verus!
