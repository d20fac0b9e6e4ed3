//! The player on the grid: moving, picking up what lies under the player,
//! and the ash that falls on the grid.

use vstd::prelude::*;
use rand::ThreadRng;
use crate::consts::{
    WORLD_WIDTH, WORLD_HEIGHT, STATUS_BAR_HEIGHT, START_X, START_Y, INITIAL_CHARGES,
    INITIAL_CLEANUPS, INITIAL_RESETS,
};
use crate::field::{Field, Powerup, Tile, cell_count, cell_index};
use crate::cleanup::{cleaned, cleanup};
use crate::input::{Key, moved};
use crate::spawner::{ash_fell_n, drop_ash_many, respawned, spawn, spawn_many, spawned_n};
use crate::util::Position;

verus! {

/// Index of the cell whose tile a player at `at` picks up: the cell above.
pub open spec fn under(at: Position) -> int {
    cell_index(at.x as int, at.y - 1)
}

/// `after` is `before` after the tile on the cell `at` was picked up and
/// `cleared` are the cells that a cleanup cleared.
///
/// A `Charge` or a `Reset` is replaced by a new tile of its kind, spawned
/// while the old one still lies there; a `Cleanup` is replaced in the same way
/// and sweeps the grid; ash is not replaced. Then the cell is emptied.
pub open spec fn picked(
    before: Seq<Tile>,
    after: Seq<Tile>,
    at: int,
    cleared: Seq<Position>,
) -> bool {
    match before[at] {
        None => after == before && cleared.len() == 0,
        Some(Powerup::Destroyed) => after == before.update(at, None) && cleared.len() == 0,
        Some(Powerup::Cleanup) => exists|mid: Seq<Tile>|
            #[trigger] cleaned(before, mid, cleared) && after == mid.update(at, None),
        Some(kind) => cleared.len() == 0 && exists|mid: Seq<Tile>|
            #[trigger] respawned(before, mid, kind) && after == mid.update(at, None),
    }
}

/// `after` is `before` after the tiles of a new session were laid out, and
/// `a` and `b` are the grid on the way: first the `Charge` tiles are spawned,
/// then the `Cleanup` tiles, then the `Reset` tiles.
pub open spec fn laid_out(before: Seq<Tile>, a: Seq<Tile>, b: Seq<Tile>, after: Seq<Tile>) -> bool {
    &&& spawned_n(before, a, Powerup::Charge, INITIAL_CHARGES as nat)
    &&& spawned_n(a, b, Powerup::Cleanup, INITIAL_CLEANUPS as nat)
    &&& spawned_n(b, after, Powerup::Reset, INITIAL_RESETS as nat)
}

/// `after` is `before` after the tiles of a new session were laid out: the
/// `Charge`, `Cleanup` and `Reset` tiles are spawned, in this order.
pub open spec fn populated(before: Seq<Tile>, after: Seq<Tile>) -> bool {
    exists|a: Seq<Tile>, b: Seq<Tile>| #[trigger] laid_out(before, a, b, after)
}

/// What a pickup found and did.
pub struct Pickup {
    /// The tile that was picked up, if there was one.
    pub tile: Tile,
    /// The cells that a cleanup cleared of ash, in scanning order.
    pub cleared: Vec<Position>,
}

/// The cell on which the player starts.
pub open spec fn start_cell() -> Position {
    Position { x: START_X, y: START_Y }
}

/// The player and the grid.
pub struct Game {
    player_pos: Position,
    items: Field,
}

impl Game {
    /// Where the player stands.
    pub closed spec fn player(&self) -> Position {
        self.player_pos
    }

    /// The cells of the grid.
    pub closed spec fn cells(&self) -> Seq<Tile> {
        self.items@
    }

    /// The player stands on a legal position and the grid is whole.
    pub open spec fn wf(&self) -> bool {
        self.player().in_bounds() && self.cells().len() == cell_count()
    }

    /// The tile in the player's reach: that of the cell above the player.
    pub open spec fn tile(&self) -> Tile {
        self.cells()[under(self.player())]
    }

    /// A game with the player on the start cell and an empty grid.
    pub fn new() -> (game: Game)
        ensures
            game.wf(),
            game.player() == start_cell(),
            forall|i: int| 0 <= i < cell_count() ==> game.cells()[i] is None,
    {
        Game { player_pos: Position { x: START_X, y: START_Y }, items: Field::new() }
    }

    /// A game with the player at `player` on the grid `items`, if `player` is
    /// a legal position.
    pub fn from_parts(player: Position, items: Field) -> (game: Option<Game>)
        requires
            items.wf(),
        ensures
            game is Some <==> player.in_bounds(),
            game matches Some(g) ==> g.wf() && g.player() == player && g.cells() == items@,
    {
        if player.x >= 0 && player.x <= WORLD_WIDTH - 1 && player.y >= 1 && player.y
            <= WORLD_HEIGHT - STATUS_BAR_HEIGHT - 1 {
            Some(Game { player_pos: player, items })
        } else {
            None
        }
    }

    /// Where the player stands.
    pub fn player_pos(&self) -> (at: Position)
        ensures
            at == self.player(),
    {
        self.player_pos
    }

    /// The grid.
    pub fn items(&self) -> (field: &Field)
        ensures
            field@ == self.cells(),
    {
        &self.items
    }

    /// The tile in the player's reach: that of the cell above the player.
    pub fn tile_here(&self) -> (tile: Tile)
        requires
            self.wf(),
        ensures
            tile == self.tile(),
    {
        self.items.get(self.player_pos.x, self.player_pos.y - 1)
    }

    /// The tile that would be in the player's reach after `key`.
    pub fn tile_after(&self, key: Key) -> (tile: Tile)
        requires
            self.wf(),
        ensures
            tile == self.cells()[under(moved(self.player(), key))],
    {
        let mut at = self.player_pos;
        match key {
            Key::Left => at.add_x(-1),
            Key::Right => at.add_x(1),
            Key::Up => at.add_y(-1),
            Key::Down => at.add_y(1),
            _ => (),
        }
        self.items.get(at.x, at.y - 1)
    }

    /// Lays out the tiles of a new session.
    pub fn populate(&mut self, rng: &mut ThreadRng)
        requires
            old(self).wf(),
        ensures
            final(self).wf(),
            final(self).player() == old(self).player(),
            populated(old(self).cells(), final(self).cells()),
    {
        let ghost before = self.items@;
        spawn_many(&mut self.items, Powerup::Charge, INITIAL_CHARGES, rng);
        let ghost a = self.items@;
        spawn_many(&mut self.items, Powerup::Cleanup, INITIAL_CLEANUPS, rng);
        let ghost b = self.items@;
        spawn_many(&mut self.items, Powerup::Reset, INITIAL_RESETS, rng);
        proof {
            assert(laid_out(before, a, b, self.items@));
        }
    }

    /// Picks up the tile in the player's reach.
    pub fn collect(&mut self, rng: &mut ThreadRng) -> (pickup: Pickup)
        requires
            old(self).wf(),
        ensures
            final(self).wf(),
            final(self).player() == old(self).player(),
            pickup.tile == old(self).tile(),
            picked(
                old(self).cells(),
                final(self).cells(),
                under(old(self).player()),
                pickup.cleared@,
            ),
    {
        let x: i16 = self.player_pos.x;
        let y: i16 = self.player_pos.y - 1;
        let ghost before = self.items@;
        let tile = self.items.get(x, y);
        let mut cleared: Vec<Position> = Vec::new();
        match tile {
            None => {},
            Some(Powerup::Destroyed) => {},
            Some(Powerup::Cleanup) => {
                cleared = cleanup(&mut self.items, rng);
                proof {
                    assert(cleaned(before, self.items@, cleared@));
                }
            },
            Some(kind) => {
                spawn(&mut self.items, kind, rng);
                proof {
                    assert(respawned(before, self.items@, kind));
                }
            },
        }
        self.items.set(x, y, None);
        proof {
            if tile is None {
                assert(self.items@ =~= before);
            }
        }
        Pickup { tile, cleared }
    }

    /// Lets ash fall on the grid `n` times.
    pub fn rain(&mut self, n: u16, rng: &mut ThreadRng)
        requires
            old(self).wf(),
        ensures
            final(self).wf(),
            final(self).player() == old(self).player(),
            ash_fell_n(old(self).cells(), final(self).cells(), n as nat),
    {
        drop_ash_many(&mut self.items, n, rng);
    }

    /// Moves the player as `key` asks.
    pub fn update(&mut self, key: Key)
        requires
            old(self).wf(),
        ensures
            final(self).wf(),
            final(self).player() == moved(old(self).player(), key),
            final(self).cells() == old(self).cells(),
    {
        match key {
            Key::Left => self.player_pos.add_x(-1),
            Key::Right => self.player_pos.add_x(1),
            Key::Up => self.player_pos.add_y(-1),
            Key::Down => self.player_pos.add_y(1),
            _ => (),
        }
    }
}

} // verus!
