use crate::color::Color;
use vstd::prelude::*;

verus! {

/// The 1280 by 720 resolution preset.
pub const RESOLUTION_HD: (u32, u32) = (1280, 720);

/// The 1920 by 1080 resolution preset.
pub const RESOLUTION_FULLHD: (u32, u32) = (1920, 1080);

/// The 4096 by 2160 resolution preset, the default output size.
pub const RESOLUTION_4K: (u32, u32) = (4096, 2160);

/// How many dots one run samples and writes.
pub const DOT_COUNT: u32 = 1_000_000;

/// How many transform levels a run allows a mapping tree before giving up
/// on the seed; the chance of a deeper tree is below one in many millions.
pub const MAP_FUEL: u32 = 10_000;

/// The dark background every canvas starts from.
pub fn background() -> (r: Color)
    ensures
        r == (Color { r: 20, g: 20, b: 20 }),
{
    Color { r: 20, g: 20, b: 20 }
}

} // verus!
