//! Keys, and what a key does to the player.

use vstd::prelude::*;
use crate::util::Position;

verus! {

/// A key press, as far as the game tells keys apart.
#[derive(Clone, Copy, Debug, PartialEq, Eq, Structural)]
pub enum Key {
    Up,
    Down,
    Left,
    Right,
    Enter,
    Escape,
    Q,
    R,
    /// Any other key.
    Other,
}

/// Where a player at `from` stands after `key`: an arrow key moves one cell,
/// clamped to the legal positions; no other key moves.
pub open spec fn moved(from: Position, key: Key) -> Position {
    match key {
        Key::Left => from.moved_x(-1),
        Key::Right => from.moved_x(1),
        Key::Up => from.moved_y(-1),
        Key::Down => from.moved_y(1),
        _ => from,
    }
}

} // verus!
