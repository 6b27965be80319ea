use vstd::prelude::*;

verus! {

pub const TILE_SIZE: i32 = 60;
pub const IMAGE_SIZE: i32 = 60;
pub const BOARD_SIZE: i32 = 480;
pub const BOARD_OFFSET_X: i32 = 210;
pub const BOARD_OFFSET_Y: i32 = 110;

/// The board square under a pixel position: pixels left of or above the
/// board map to (-1, -1), every other position to the square's file and
/// rank, counted from the board's top-left corner with ranks growing upward.
pub open spec fn spec_screen_to_board_coord(x: int, y: int) -> (int, int) {
    if x < BOARD_OFFSET_X || y < BOARD_OFFSET_Y {
        (-1, -1)
    } else {
        ((x - BOARD_OFFSET_X) / (IMAGE_SIZE as int), 7 - (y - BOARD_OFFSET_Y) / (IMAGE_SIZE as int))
    }
}

/// Maps a board square coordinate to the pixel position of its top-left
/// corner.
pub fn board_coord_to_screen(x: i32, y: i32) -> (r: (i32, i32))
    requires
        -35_000_000 <= x <= 35_000_000,
        -35_000_000 <= y <= 35_000_000,
    ensures
        r.0 == x * IMAGE_SIZE + BOARD_OFFSET_X,
        r.1 == (7 - y) * IMAGE_SIZE + BOARD_OFFSET_Y,
{
    (x * IMAGE_SIZE + BOARD_OFFSET_X, (7 - y) * IMAGE_SIZE + BOARD_OFFSET_Y)
}

/// Maps a pixel position to the board square under it, as
/// `spec_screen_to_board_coord` describes.
pub fn screen_to_board_coord(x: i32, y: i32) -> (r: (i32, i32))
    ensures
        (r.0 as int, r.1 as int) == spec_screen_to_board_coord(x as int, y as int),
{
    let diff_x: i64 = x as i64 - BOARD_OFFSET_X as i64;
    let diff_y: i64 = y as i64 - BOARD_OFFSET_Y as i64;
    if diff_x < 0 || diff_y < 0 {
        (-1, -1)
    } else {
        ((diff_x / (IMAGE_SIZE as i64)) as i32, (7 - diff_y / (IMAGE_SIZE as i64)) as i32)
    }
}

} // verus!
