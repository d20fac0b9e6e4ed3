//! The player's position and its clamped movement.

use vstd::prelude::*;
use crate::consts::{WORLD_WIDTH, WORLD_HEIGHT, STATUS_BAR_HEIGHT, min_x, max_x, min_y, max_y};

verus! {

/// `v` forced into `[lo, hi]`.
pub open spec fn clamp(v: int, lo: int, hi: int) -> int {
    if v < lo {
        lo
    } else if v > hi {
        hi
    } else {
        v
    }
}

/// A cell of the grid, by column `x` and row `y`.
#[derive(Clone, Copy, Debug, PartialEq, Eq, Structural)]
pub struct Position {
    pub x: i16,
    pub y: i16,
}

impl Position {
    /// The position is one the player may stand on.
    pub open spec fn in_bounds(self) -> bool {
        min_x() <= self.x <= max_x() && min_y() <= self.y <= max_y()
    }

    /// The position after a horizontal move by `val`.
    pub open spec fn moved_x(self, val: int) -> Position {
        Position { x: clamp(self.x + val, min_x(), max_x()) as i16, y: self.y }
    }

    /// The position after a vertical move by `val`.
    pub open spec fn moved_y(self, val: int) -> Position {
        Position { x: self.x, y: clamp(self.y + val, min_y(), max_y()) as i16 }
    }

    /// Moves by `val` columns and stops at the edges of the world.
    pub fn add_x(&mut self, val: i16)
        ensures
            *final(self) == old(self).moved_x(val as int),
            min_x() <= final(self).x <= max_x(),
    {
        let sum: i32 = self.x as i32 + val as i32;
        let hi: i32 = (WORLD_WIDTH - 1) as i32;
        if sum > hi {
            self.x = WORLD_WIDTH - 1;
        } else if sum < 0 {
            self.x = 0;
        } else {
            self.x = sum as i16;
        }
    }

    /// Moves by `val` rows and stops at the top row of the player and above the status bar.
    pub fn add_y(&mut self, val: i16)
        ensures
            *final(self) == old(self).moved_y(val as int),
            min_y() <= final(self).y <= max_y(),
    {
        let sum: i32 = self.y as i32 + val as i32;
        let hi: i32 = (WORLD_HEIGHT - STATUS_BAR_HEIGHT - 1) as i32;
        if sum > hi {
            self.y = WORLD_HEIGHT - STATUS_BAR_HEIGHT - 1;
        } else if sum < 1 {
            self.y = 1;
        } else {
            self.y = sum as i16;
        }
    }
}

} // verus!
