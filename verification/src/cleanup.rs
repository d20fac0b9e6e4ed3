//! The cleanup: what a `Cleanup` tile does to the grid when it is collected.
//!
//! A new `Cleanup` tile is spawned, then every ash tile is removed with a
//! chance of `CLEANUP_PERCENT` in a hundred, each on a roll of its own.

use vstd::prelude::*;
use rand::ThreadRng;
use crate::consts::{WORLD_WIDTH, WORLD_HEIGHT, CLEANUP_PERCENT, ROLL_SIDES};
use crate::field::{
    Field, Powerup, Tile, cell_at, cell_count, cell_index, in_world, lemma_cell_index,
};
use crate::random::gen_range;
use crate::spawner::{respawned, spawn};
use crate::util::Position;

verus! {

/// A roll out of a hundred removes the ash it was made for.
pub open spec fn roll_clears(roll: int) -> bool {
    roll < CLEANUP_PERCENT
}

/// `after` is `before` with some of its ash removed and nothing else changed.
pub open spec fn swept(before: Seq<Tile>, after: Seq<Tile>) -> bool {
    &&& after.len() == before.len()
    &&& forall|i: int|
        0 <= i < before.len() ==> #[trigger] after[i] == before[i] || (before[i] == Some(
            Powerup::Destroyed,
        ) && after[i] is None)
}

/// The cells among the first `n` on which `before` holds ash and `after`
/// nothing, in scanning order.
pub open spec fn cleared_cells(before: Seq<Tile>, after: Seq<Tile>, n: int) -> Seq<Position>
    decreases n,
{
    if n <= 0 {
        Seq::empty()
    } else if before[n - 1] == Some(Powerup::Destroyed) && after[n - 1] is None {
        cleared_cells(before, after, n - 1).push(cell_at(n - 1))
    } else {
        cleared_cells(before, after, n - 1)
    }
}

/// The cleared cells among the first `n` depend on those cells alone.
pub proof fn lemma_cleared_cells_prefix(
    before: Seq<Tile>,
    after1: Seq<Tile>,
    after2: Seq<Tile>,
    n: int,
)
    requires
        forall|i: int| 0 <= i < n ==> after1[i] == after2[i],
    ensures
        cleared_cells(before, after1, n) == cleared_cells(before, after2, n),
    decreases n,
{
    if n > 0 {
        lemma_cleared_cells_prefix(before, after1, after2, n - 1);
    }
}

/// Whether `tile` is ash.
fn is_ash(tile: Tile) -> (ash: bool)
    ensures
        ash == (tile == Some(Powerup::Destroyed)),
{
    match tile {
        Some(Powerup::Destroyed) => true,
        _ => false,
    }
}

/// Removes the ash on `(x, y)` if there is any and `roll` says so, and says
/// whether it did. This is what a cleanup does with the roll made for one cell.
pub fn clear_ash_at(field: &mut Field, x: i16, y: i16, roll: i16) -> (cleared: bool)
    requires
        old(field).wf(),
        in_world(x as int, y as int),
    ensures
        final(field).wf(),
        cleared == (old(field).at(x as int, y as int) == Some(Powerup::Destroyed) && roll_clears(
            roll as int,
        )),
        cleared ==> final(field)@ == old(field)@.update(cell_index(x as int, y as int), None),
        !cleared ==> final(field)@ == old(field)@,
{
    if is_ash(field.get(x, y)) && roll < CLEANUP_PERCENT {
        field.set(x, y, None);
        true
    } else {
        false
    }
}

/// Goes over the whole grid and removes each ash tile with a chance of
/// `CLEANUP_PERCENT` in a hundred, one roll for each. Returns the cells it
/// cleared, in scanning order.
pub fn sweep(field: &mut Field, rng: &mut ThreadRng) -> (removed: Vec<Position>)
    requires
        old(field).wf(),
    ensures
        final(field).wf(),
        swept(old(field)@, final(field)@),
        removed@ == cleared_cells(old(field)@, final(field)@, cell_count()),
{
    let mut removed: Vec<Position> = Vec::new();
    let mut x: i16 = 0;
    while x < WORLD_WIDTH
        invariant
            field.wf(),
            0 <= x <= WORLD_WIDTH,
            swept(old(field)@, field@),
            forall|i: int|
                cell_index(x as int, 0) <= i < cell_count() ==> field@[i] == old(field)@[i],
            removed@ == cleared_cells(old(field)@, field@, cell_index(x as int, 0)),
        decreases WORLD_WIDTH - x,
    {
        let mut y: i16 = 0;
        while y < WORLD_HEIGHT
            invariant
                field.wf(),
                0 <= x < WORLD_WIDTH,
                0 <= y <= WORLD_HEIGHT,
                swept(old(field)@, field@),
                forall|i: int|
                    cell_index(x as int, y as int) <= i < cell_count() ==> field@[i] == old(
                        field,
                    )@[i],
                removed@ == cleared_cells(old(field)@, field@, cell_index(x as int, y as int)),
            decreases WORLD_HEIGHT - y,
        {
            let ghost earlier = field@;
            proof {
                lemma_cell_index(x as int, y as int);
            }
            if is_ash(field.get(x, y)) {
                let roll: i16 = gen_range(rng, 0, ROLL_SIDES);
                if clear_ash_at(field, x, y, roll) {
                    removed.push(Position { x, y });
                }
            }
            proof {
                lemma_cleared_cells_prefix(
                    old(field)@,
                    earlier,
                    field@,
                    cell_index(x as int, y as int),
                );
            }
            y = y + 1;
        }
        x = x + 1;
    }
    removed
}

/// `after` is `before` after a cleanup that cleared the cells `removed`.
pub open spec fn cleaned(before: Seq<Tile>, after: Seq<Tile>, removed: Seq<Position>) -> bool {
    exists|between: Seq<Tile>|
        {
            &&& respawned(before, between, Powerup::Cleanup)
            &&& #[trigger] swept(between, after)
            &&& removed == cleared_cells(between, after, cell_count())
        }
}

/// The effect of a `Cleanup` tile on the field: a new `Cleanup` tile is
/// spawned, then the grid is swept. Returns the cells that the sweep cleared.
pub fn cleanup(field: &mut Field, rng: &mut ThreadRng) -> (removed: Vec<Position>)
    requires
        old(field).wf(),
    ensures
        final(field).wf(),
        cleaned(old(field)@, final(field)@, removed@),
{
    let ghost before = field@;
    spawn(field, Powerup::Cleanup, rng);
    let ghost between = field@;
    let removed = sweep(field, rng);
    proof {
        assert(respawned(before, between, Powerup::Cleanup));
        assert(swept(between, field@));
    }
    removed
}

} // verus!
