//! Board-cell coordinates and their conversion to window pixels.

use vstd::prelude::*;

verus! {

/// Pixel side length of one board cell.
pub const BLOCK_SIZE: i32 = 15;

/// One board cell position, in cell coordinates.
pub struct Block {
    pub x: i32,
    pub y: i32,
}

/// A cell coordinate scaled to pixels and clamped into `u32`: negative
/// coordinates floor at zero and oversized ones saturate.
pub open spec fn coord_scaled(game_coord: int) -> int {
    if game_coord <= 0 {
        0
    } else if game_coord * BLOCK_SIZE > u32::MAX as int {
        u32::MAX as int
    } else {
        game_coord * BLOCK_SIZE
    }
}

/// Converts a cell coordinate to a pixel count for the window size.
pub fn to_coord_u32(game_coord: i32) -> (r: u32)
    ensures
        r == coord_scaled(game_coord as int),
{
    if game_coord <= 0 {
        0
    } else {
        let wide: i64 = (game_coord as i64) * 15;
        if wide > u32::MAX as i64 {
            u32::MAX
        } else {
            wide as u32
        }
    }
}

} // verus!
