//! The bounded grid: every position change goes through `step`.
use vstd::prelude::*;

verus! {

/// Number of cells along each axis.
pub const BOARD_SIZE: u8 = 100;

/// Spawn column of a new player.
pub const INITIAL_X: u8 = 10;

/// Spawn row of a new player.
pub const INITIAL_Y: u8 = 10;

/// `v` clamped into `[0, BOARD_SIZE - 1]`.
pub open spec fn clamp_coord(v: int) -> int {
    if v < 0 {
        0
    } else if v > BOARD_SIZE - 1 {
        BOARD_SIZE - 1
    } else {
        v
    }
}

/// A coordinate lies on the grid.
pub open spec fn in_bounds(c: u8) -> bool {
    c < BOARD_SIZE
}

/// Moves one coordinate by a signed delta, clamping to the grid edge.
/// The sum is taken in `i16`, wide enough for any `u8` plus any `i8`.
pub fn step(pos: u8, delta: i8) -> (r: u8)
    ensures
        r as int == clamp_coord(pos as int + delta as int),
        in_bounds(r),
{
    let sum: i16 = pos as i16 + delta as i16;
    let top: i16 = BOARD_SIZE as i16 - 1;
    if sum < 0 {
        0
    } else if sum > top {
        top as u8
    } else {
        sum as u8
    }
}

/// Moves a position by `(dx, dy)`, each axis clamped independently.
pub fn apply_move(x: u8, y: u8, dx: i8, dy: i8) -> (r: (u8, u8))
    ensures
        r.0 as int == clamp_coord(x as int + dx as int),
        r.1 as int == clamp_coord(y as int + dy as int),
        in_bounds(r.0),
        in_bounds(r.1),
{
    (step(x, dx), step(y, dy))
}

} // verus!
