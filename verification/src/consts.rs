//! Geometry of the world and the numbers of the rules.

use vstd::prelude::*;

verus! {

/// Columns of the grid.
pub const WORLD_WIDTH: i16 = 100;

/// Rows of the grid.
pub const WORLD_HEIGHT: i16 = 30;

/// Rows of the menu above the world.
pub const MENU_HEIGHT: i16 = 5;

/// Rows of the status bar that covers the bottom of the world.
pub const STATUS_BAR_HEIGHT: i16 = 5;

/// Rows of the whole screen.
pub const TOTAL_HEIGHT: i16 = 35;

/// Rows at the bottom of the grid on which nothing is ever spawned.
pub const RESERVED_ROWS: i16 = 6;

/// Column in which the player starts.
pub const START_X: i16 = 15;

/// Row in which the player starts.
pub const START_Y: i16 = 15;

/// Charge at the start of a session.
pub const START_CHARGE: i16 = 10;

/// Upper bound of the charge.
pub const CHARGE_CAP: i16 = 70;

/// Charge gained by collecting a `Charge` tile.
pub const CHARGE_GAIN: i16 = 5;

/// Charge lost on every tick.
pub const TICK_COST: i16 = 2;

/// Length of a tick in milliseconds: a tick is due once more than this has elapsed.
pub const TICK_MILLIS: u64 = 1000;

/// Milliseconds in a second.
pub const MILLIS_PER_SECOND: u64 = 1000;

/// Chance, in percent, that a cleanup removes a given ash tile.
pub const CLEANUP_PERCENT: i16 = 66;

/// `Charge` tiles spawned at the start of a session.
pub const INITIAL_CHARGES: u16 = 25;

/// `Cleanup` tiles spawned at the start of a session.
pub const INITIAL_CLEANUPS: u16 = 10;

/// `Reset` tiles spawned at the start of a session.
pub const INITIAL_RESETS: u16 = 10;

/// Sides of the die that a cleanup rolls for each ash tile.
pub const ROLL_SIDES: i16 = 100;

/// Random cells tried by the spawner before it scans the grid for a free one.
pub const SPAWN_ATTEMPTS: u16 = 64;

/// Leftmost column on which the player may stand.
pub open spec fn min_x() -> int {
    0
}

/// Rightmost column on which the player may stand.
pub open spec fn max_x() -> int {
    WORLD_WIDTH - 1
}

/// Topmost row on which the player may stand: row zero is out of reach.
pub open spec fn min_y() -> int {
    1
}

/// Lowest row on which the player may stand, just above the status bar.
pub open spec fn max_y() -> int {
    WORLD_HEIGHT - STATUS_BAR_HEIGHT - 1
}

} // verus!
