//! Addressing the pixels of a linear 32-bit framebuffer.
use vstd::prelude::*;

verus! {

/// The colour the boot screen fills the framebuffer with (`0xRRGGBB`).
pub const FILL_COLOR: u32 = 0x696969;

/// Position, counted in 32-bit pixels from the start of the framebuffer, of
/// the pixel in column `x` of row `y` when rows lie `pitch` bytes apart:
/// the row's byte offset `y * pitch` divided by 4, plus `x`. Each value and
/// the results along the way must fit in a `usize`.
pub fn pixel_offset(x: u64, y: u64, pitch: u64) -> (r: usize)
    requires
        x <= usize::MAX,
        y <= usize::MAX,
        pitch <= usize::MAX,
        y * pitch <= usize::MAX,
        (y * pitch) / 4 + x <= usize::MAX,
    ensures
        r == (y * pitch) / 4 + x,
{
    (y as usize) * (pitch as usize) / 4 + (x as usize)
}

} // verus!
