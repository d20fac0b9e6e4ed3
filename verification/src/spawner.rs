//! The spawner: it puts a tile on a random cell of the playable part of the grid.
//!
//! A cell is drawn at random and taken if it is free; if it is not, another is
//! drawn. After `SPAWN_ATTEMPTS` draws the grid is scanned for its first free
//! cell instead, so a tile is placed whenever there is a cell to take it.

use vstd::prelude::*;
use rand::ThreadRng;
use crate::consts::{WORLD_WIDTH, WORLD_HEIGHT, RESERVED_ROWS, SPAWN_ATTEMPTS};
use crate::field::{
    Field, Powerup, Tile, cell_count, cell_index, in_world, playable, tally, lemma_cell_index,
    lemma_tally_update,
};
use crate::random::gen_range;
use crate::util::Position;

verus! {

/// A cell that holds `tile` is free for a new tile. Ash falls on anything but
/// ash (`over` is set); every other tile needs an empty cell.
pub open spec fn open_to(tile: Tile, over: bool) -> bool {
    if over {
        tile != Some(Powerup::Destroyed)
    } else {
        tile is None
    }
}

/// Some playable cell of `cells` is free.
pub open spec fn has_opening(cells: Seq<Tile>, over: bool) -> bool {
    exists|x: int, y: int|
        #![trigger cell_index(x, y)]
        playable(x, y) && open_to(cells[cell_index(x, y)], over)
}

/// `after` is `before` with `kind` put on one playable cell that was free.
pub open spec fn settled(before: Seq<Tile>, after: Seq<Tile>, kind: Powerup, over: bool) -> bool {
    exists|x: int, y: int|
        #![trigger cell_index(x, y)]
        playable(x, y) && open_to(before[cell_index(x, y)], over) && after == before.update(
            cell_index(x, y),
            Some(kind),
        )
}

/// Some playable cell of `cells` is empty.
pub open spec fn has_room(cells: Seq<Tile>) -> bool {
    has_opening(cells, false)
}

/// `after` is `before` with `kind` put on one playable cell that was empty.
pub open spec fn spawned(before: Seq<Tile>, after: Seq<Tile>, kind: Powerup) -> bool {
    settled(before, after, kind, false)
}

/// Some playable cell of `cells` holds no ash.
pub open spec fn has_ash_room(cells: Seq<Tile>) -> bool {
    has_opening(cells, true)
}

/// `after` is `before` with ash put on one playable cell that held none.
pub open spec fn ash_fell(before: Seq<Tile>, after: Seq<Tile>) -> bool {
    settled(before, after, Powerup::Destroyed, true)
}

/// `(x1, y1)` is met before `(x2, y2)` when the grid is scanned column by
/// column, each from the top.
pub open spec fn scanned_before(x1: int, y1: int, x2: int, y2: int) -> bool {
    x1 < x2 || (x1 == x2 && y1 < y2)
}

/// Whether a cell that holds `tile` is free.
fn is_open(tile: Tile, over: bool) -> (open: bool)
    ensures
        open == open_to(tile, over),
{
    match tile {
        None => true,
        Some(Powerup::Destroyed) => false,
        Some(_) => over,
    }
}

/// Puts `kind` on `(x, y)` if that cell is free, and says whether it did.
fn settle_at(field: &mut Field, kind: Powerup, over: bool, x: i16, y: i16) -> (placed: bool)
    requires
        old(field).wf(),
        in_world(x as int, y as int),
    ensures
        final(field).wf(),
        placed == open_to(old(field).at(x as int, y as int), over),
        placed ==> final(field)@ == old(field)@.update(
            cell_index(x as int, y as int),
            Some(kind),
        ),
        !placed ==> final(field)@ == old(field)@,
{
    if is_open(field.get(x, y), over) {
        field.set(x, y, Some(kind));
        true
    } else {
        false
    }
}

/// The first free playable cell in scanning order, if there is one.
fn first_open(field: &Field, over: bool) -> (found: Option<Position>)
    requires
        field.wf(),
    ensures
        found is None <==> !has_opening(field@, over),
        found matches Some(p) ==> {
            &&& playable(p.x as int, p.y as int)
            &&& open_to(field.at(p.x as int, p.y as int), over)
            &&& forall|x: int, y: int|
                #![trigger cell_index(x, y)]
                playable(x, y) && scanned_before(x, y, p.x as int, p.y as int) ==> !open_to(
                    field@[cell_index(x, y)],
                    over,
                )
        },
{
    let rows: i16 = WORLD_HEIGHT - RESERVED_ROWS;
    let mut x: i16 = 0;
    while x < WORLD_WIDTH
        invariant
            field.wf(),
            rows == WORLD_HEIGHT - RESERVED_ROWS,
            0 <= x <= WORLD_WIDTH,
            forall|x1: int, y1: int|
                #![trigger cell_index(x1, y1)]
                playable(x1, y1) && x1 < x ==> !open_to(field@[cell_index(x1, y1)], over),
        decreases WORLD_WIDTH - x,
    {
        let mut y: i16 = 0;
        while y < rows
            invariant
                field.wf(),
                rows == WORLD_HEIGHT - RESERVED_ROWS,
                0 <= x < WORLD_WIDTH,
                0 <= y <= rows,
                forall|x1: int, y1: int|
                    #![trigger cell_index(x1, y1)]
                    playable(x1, y1) && scanned_before(x1, y1, x as int, y as int) ==> !open_to(
                        field@[cell_index(x1, y1)],
                        over,
                    ),
            decreases rows - y,
        {
            if is_open(field.get(x, y), over) {
                return Some(Position { x, y });
            }
            y = y + 1;
        }
        x = x + 1;
    }
    None
}

/// Puts `kind` on a free playable cell: on one drawn at random, or, when
/// `SPAWN_ATTEMPTS` draws have all met a taken cell, on the first free one.
fn settle(field: &mut Field, kind: Powerup, over: bool, rng: &mut ThreadRng) -> (placed: bool)
    requires
        old(field).wf(),
    ensures
        final(field).wf(),
        placed == has_opening(old(field)@, over),
        placed ==> settled(old(field)@, final(field)@, kind, over),
        !placed ==> final(field)@ == old(field)@,
{
    let mut tries: u16 = SPAWN_ATTEMPTS;
    while tries > 0
        invariant
            field.wf(),
            field@ == old(field)@,
        decreases tries,
    {
        let x: i16 = gen_range(rng, 0, WORLD_WIDTH);
        let y: i16 = gen_range(rng, 0, WORLD_HEIGHT - RESERVED_ROWS);
        if settle_at(field, kind, over, x, y) {
            return true;
        }
        tries = tries - 1;
    }
    match first_open(field, over) {
        Some(p) => {
            field.set(p.x, p.y, Some(kind));
            true
        },
        None => false,
    }
}

/// Puts `kind` on a free playable cell `n` times over.
fn settle_many(field: &mut Field, kind: Powerup, over: bool, n: u16, rng: &mut ThreadRng)
    requires
        old(field).wf(),
        over ==> kind == Powerup::Destroyed,
    ensures
        final(field).wf(),
        filled(old(field)@, final(field)@, kind, over, n as nat),
{
    let mut done: u16 = 0;
    while done < n
        invariant
            field.wf(),
            old(field).wf(),
            over ==> kind == Powerup::Destroyed,
            done <= n,
            filled(old(field)@, field@, kind, over, done as nat),
        decreases n - done,
    {
        let ghost mid = field@;
        settle(field, kind, over, rng);
        proof {
            lemma_filled_step(old(field)@, mid, field@, kind, over, done as nat);
        }
        done = done + 1;
    }
}

/// Puts `kind` on `(x, y)` if that cell is empty, and says whether it did.
/// This is what the spawner does with one drawn cell.
pub fn spawn_at(field: &mut Field, kind: Powerup, x: i16, y: i16) -> (placed: bool)
    requires
        old(field).wf(),
        in_world(x as int, y as int),
    ensures
        final(field).wf(),
        placed == (old(field).at(x as int, y as int) is None),
        placed ==> final(field)@ == old(field)@.update(
            cell_index(x as int, y as int),
            Some(kind),
        ),
        !placed ==> final(field)@ == old(field)@,
{
    settle_at(field, kind, false, x, y)
}

/// Puts ash on `(x, y)` unless ash lies there already, and says whether it
/// did. Any other tile on the cell is lost under the ash. This is what the
/// ash fall does with one drawn cell.
pub fn drop_ash_at(field: &mut Field, x: i16, y: i16) -> (dropped: bool)
    requires
        old(field).wf(),
        in_world(x as int, y as int),
    ensures
        final(field).wf(),
        dropped == (old(field).at(x as int, y as int) != Some(Powerup::Destroyed)),
        dropped ==> final(field)@ == old(field)@.update(
            cell_index(x as int, y as int),
            Some(Powerup::Destroyed),
        ),
        !dropped ==> final(field)@ == old(field)@,
{
    settle_at(field, Powerup::Destroyed, true, x, y)
}

/// Spawns one tile of `kind` on a random empty cell of the playable part of
/// the grid. It fails, and leaves the field as it was, only when no playable
/// cell is empty.
pub fn spawn(field: &mut Field, kind: Powerup, rng: &mut ThreadRng) -> (placed: bool)
    requires
        old(field).wf(),
    ensures
        final(field).wf(),
        placed == has_room(old(field)@),
        placed ==> spawned(old(field)@, final(field)@, kind),
        !placed ==> final(field)@ == old(field)@,
{
    settle(field, kind, false, rng)
}

/// Spawns one `Charge` tile.
pub fn spawn_charge(field: &mut Field, rng: &mut ThreadRng) -> (placed: bool)
    requires
        old(field).wf(),
    ensures
        final(field).wf(),
        placed == has_room(old(field)@),
        placed ==> spawned(old(field)@, final(field)@, Powerup::Charge),
        !placed ==> final(field)@ == old(field)@,
{
    spawn(field, Powerup::Charge, rng)
}

/// Spawns one `Cleanup` tile.
pub fn spawn_cleanup(field: &mut Field, rng: &mut ThreadRng) -> (placed: bool)
    requires
        old(field).wf(),
    ensures
        final(field).wf(),
        placed == has_room(old(field)@),
        placed ==> spawned(old(field)@, final(field)@, Powerup::Cleanup),
        !placed ==> final(field)@ == old(field)@,
{
    spawn(field, Powerup::Cleanup, rng)
}

/// Spawns one `Reset` tile.
pub fn spawn_reset(field: &mut Field, rng: &mut ThreadRng) -> (placed: bool)
    requires
        old(field).wf(),
    ensures
        final(field).wf(),
        placed == has_room(old(field)@),
        placed ==> spawned(old(field)@, final(field)@, Powerup::Reset),
        !placed ==> final(field)@ == old(field)@,
{
    spawn(field, Powerup::Reset, rng)
}

/// Drops ash on a random playable cell that holds none yet, over whatever
/// else lies there. It fails, and leaves the field as it was, only when the
/// whole playable part is ash.
pub fn drop_ash(field: &mut Field, rng: &mut ThreadRng) -> (dropped: bool)
    requires
        old(field).wf(),
    ensures
        final(field).wf(),
        dropped == has_ash_room(old(field)@),
        dropped ==> ash_fell(old(field)@, final(field)@),
        !dropped ==> final(field)@ == old(field)@,
{
    settle(field, Powerup::Destroyed, true, rng)
}

/// `after` is `before` after `n` tiles of `kind` were put on it one by one,
/// each on a playable cell that was free, for as long as there was one.
///
/// No other cell differs, and the count of `kind` has grown by `n`, or by
/// less where the free cells ran out.
pub open spec fn filled(
    before: Seq<Tile>,
    after: Seq<Tile>,
    kind: Powerup,
    over: bool,
    n: nat,
) -> bool {
    &&& after.len() == before.len()
    &&& forall|x: int, y: int|
        #![trigger cell_index(x, y)]
        in_world(x, y) ==> after[cell_index(x, y)] == before[cell_index(x, y)] || (playable(x, y)
            && open_to(before[cell_index(x, y)], over) && after[cell_index(x, y)] == Some(kind))
    &&& tally(after, kind) == tally(before, kind) + n || (tally(after, kind) < tally(before, kind)
        + n && !has_opening(after, over))
}

/// `after` is `before` after `n` spawns of `kind`.
pub open spec fn spawned_n(before: Seq<Tile>, after: Seq<Tile>, kind: Powerup, n: nat) -> bool {
    filled(before, after, kind, false, n)
}

/// `after` is `before` after ash was dropped on it `n` times.
pub open spec fn ash_fell_n(before: Seq<Tile>, after: Seq<Tile>, n: nat) -> bool {
    filled(before, after, Powerup::Destroyed, true, n)
}

/// `after` is `mid` with one more tile put on it, or `mid` itself where no
/// cell was free.
pub open spec fn settled_if_open(
    mid: Seq<Tile>,
    after: Seq<Tile>,
    kind: Powerup,
    over: bool,
) -> bool {
    if has_opening(mid, over) {
        settled(mid, after, kind, over)
    } else {
        after == mid
    }
}

/// `after` is `before` with a tile of `kind` spawned, or `before` itself if
/// there was no room for one.
pub open spec fn respawned(before: Seq<Tile>, after: Seq<Tile>, kind: Powerup) -> bool {
    settled_if_open(before, after, kind, false)
}

/// One more tile after `n` makes `n + 1`.
pub proof fn lemma_filled_step(
    before: Seq<Tile>,
    mid: Seq<Tile>,
    after: Seq<Tile>,
    kind: Powerup,
    over: bool,
    n: nat,
)
    requires
        before.len() == cell_count(),
        over ==> kind == Powerup::Destroyed,
        filled(before, mid, kind, over, n),
        settled_if_open(mid, after, kind, over),
    ensures
        filled(before, after, kind, over, n + 1),
{
    if has_opening(mid, over) {
        let (cx, cy) = choose|x: int, y: int|
            #![trigger cell_index(x, y)]
            playable(x, y) && open_to(mid[cell_index(x, y)], over) && after == mid.update(
                cell_index(x, y),
                Some(kind),
            );
        let c = cell_index(cx, cy);
        lemma_cell_index(cx, cy);
        lemma_tally_update(mid, c, Some(kind), kind);
        assert forall|x: int, y: int|
            #![trigger cell_index(x, y)]
            in_world(x, y) implies after[cell_index(x, y)] == before[cell_index(x, y)] || (playable(
            x,
            y,
        ) && open_to(before[cell_index(x, y)], over) && after[cell_index(x, y)] == Some(kind)) by {
            lemma_cell_index(x, y);
        }
    }
}

/// Spawns `n` tiles of `kind`, one after the other.
pub fn spawn_many(field: &mut Field, kind: Powerup, n: u16, rng: &mut ThreadRng)
    requires
        old(field).wf(),
    ensures
        final(field).wf(),
        spawned_n(old(field)@, final(field)@, kind, n as nat),
{
    settle_many(field, kind, false, n, rng)
}

/// Drops ash `n` times, one tile after the other.
pub fn drop_ash_many(field: &mut Field, n: u16, rng: &mut ThreadRng)
    requires
        old(field).wf(),
    ensures
        final(field).wf(),
        ash_fell_n(old(field)@, final(field)@, n as nat),
{
    settle_many(field, Powerup::Destroyed, true, n, rng)
}

} // verus!
