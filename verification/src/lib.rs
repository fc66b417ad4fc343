pub mod enemy;
pub mod game;
pub mod menu;
mod random;
pub mod snake;

use vstd::prelude::*;

verus! {

/// A cell is adjacent to the walls when its coordinate reaches the border
/// rows/columns 0 and `dim - 1`; the playable interior is the open range
/// between them.
pub open spec fn in_interior(width: int, height: int, x: int, y: int) -> bool {
    0 < x < width - 1 && 0 < y < height - 1
}

/// A logical grid coordinate scaled to window pixels (25 pixels per cell),
/// clamped to the unsigned pixel range as the window size conversion
/// demands.
pub fn to_coord_u32(game_coord: i32) -> (r: u32)
    ensures
        r as int == ({
            let scaled = game_coord * 25;
            if scaled < 0 {
                0int
            } else if scaled > u32::MAX {
                u32::MAX as int
            } else {
                scaled
            }
        }),
{
    let wide: i64 = (game_coord as i64) * 25;
    if wide < 0 {
        0
    } else if wide > (u32::MAX as i64) {
        u32::MAX
    } else {
        wide as u32
    }
}

} // verus!
