//! The grid of tiles.

use vstd::prelude::*;
use vstd::multiset::{group_multiset_axioms, lemma_multiset_empty_len};
use vstd::seq_lib::{
    to_multiset_build, to_multiset_contains, to_multiset_len, to_multiset_update,
};
use crate::consts::{WORLD_WIDTH, WORLD_HEIGHT, RESERVED_ROWS};
use crate::util::Position;

verus! {

/// What a cell of the grid can hold.
#[derive(Clone, Copy, Debug, PartialEq, Eq, Structural)]
pub enum Powerup {
    /// Removes part of the ash and doubles the ash rate.
    Cleanup,
    /// Adds to the charge.
    Charge,
    /// Sets the ash rate back to zero.
    Reset,
    /// Ash: halves the charge of a player who walks over it.
    Destroyed,
}

/// A cell: empty, or one tile.
pub type Tile = Option<Powerup>;

/// `(x, y)` is a cell of the grid.
pub open spec fn in_world(x: int, y: int) -> bool {
    0 <= x < WORLD_WIDTH && 0 <= y < WORLD_HEIGHT
}

/// `(x, y)` is a cell on which tiles are spawned: any column, and any row but
/// the reserved ones at the bottom.
pub open spec fn playable(x: int, y: int) -> bool {
    0 <= x < WORLD_WIDTH && 0 <= y < WORLD_HEIGHT - RESERVED_ROWS
}

/// Place of the cell `(x, y)` in the view of a field: columns follow each
/// other, each from its top row down.
pub open spec fn cell_index(x: int, y: int) -> int {
    x * (WORLD_HEIGHT as int) + y
}

/// Number of cells of the grid.
pub open spec fn cell_count() -> int {
    WORLD_WIDTH * WORLD_HEIGHT
}

/// How often `kind` occurs among `cells`.
pub open spec fn tally(cells: Seq<Tile>, kind: Powerup) -> nat {
    cells.to_multiset().count(Some(kind))
}

/// One if `tile` is of `kind`, else zero.
pub open spec fn one_if(tile: Tile, kind: Powerup) -> nat {
    if tile == Some(kind) {
        1
    } else {
        0
    }
}

/// No tile occurs among no cells.
pub proof fn lemma_tally_empty(kind: Powerup)
    ensures
        tally(Seq::<Tile>::empty(), kind) == 0,
{
    let none = Seq::<Tile>::empty();
    to_multiset_len(none);
    lemma_multiset_empty_len(none.to_multiset());
    assert(none.to_multiset().count(Some(kind)) == 0);
}

/// One more cell adds its own tile to the count.
pub proof fn lemma_tally_push(cells: Seq<Tile>, tile: Tile, kind: Powerup)
    ensures
        tally(cells.push(tile), kind) == tally(cells, kind) + one_if(tile, kind),
{
    broadcast use group_multiset_axioms;

    to_multiset_build(cells, tile);
}

/// Cells that are all empty hold no tile of any kind.
pub proof fn lemma_tally_all_empty(cells: Seq<Tile>, kind: Powerup)
    requires
        forall|i: int| 0 <= i < cells.len() ==> cells[i] is None,
    ensures
        tally(cells, kind) == 0,
    decreases cells.len(),
{
    if cells.len() == 0 {
        assert(cells =~= Seq::<Tile>::empty());
        lemma_tally_empty(kind);
    } else {
        lemma_tally_all_empty(cells.drop_last(), kind);
        lemma_tally_push(cells.drop_last(), cells.last(), kind);
        assert(cells.drop_last().push(cells.last()) =~= cells);
    }
}

/// Changing one cell takes the old tile out of the count and puts the new one in.
pub proof fn lemma_tally_update(cells: Seq<Tile>, i: int, tile: Tile, kind: Powerup)
    requires
        0 <= i < cells.len(),
    ensures
        tally(cells.update(i, tile), kind) + one_if(cells[i], kind) == tally(cells, kind) + one_if(
            tile,
            kind,
        ),
{
    broadcast use group_multiset_axioms;

    to_multiset_update(cells, i, tile);
    assert(cells.to_multiset().count(cells[i]) > 0) by {
        to_multiset_contains(cells, cells[i]);
        assert(cells.contains(cells[i]));
    }
}

/// The index of a cell of the grid lies within the grid, and two cells share
/// an index only if they are the same cell.
pub proof fn lemma_cell_index(x: int, y: int)
    requires
        in_world(x, y),
    ensures
        0 <= cell_index(x, y) < cell_count(),
        cell_index(x, y) / (WORLD_HEIGHT as int) == x,
        cell_index(x, y) % (WORLD_HEIGHT as int) == y,
{
    let w = WORLD_WIDTH as int;
    let h = WORLD_HEIGHT as int;
    assert(0 <= x * h + y < w * h && (x * h + y) / h == x && (x * h + y) % h == y)
        by (nonlinear_arith)
        requires
            0 <= x < w,
            0 <= y < h,
    ;
}

/// The cell with index `i`.
pub open spec fn cell_at(i: int) -> Position {
    Position { x: (i / (WORLD_HEIGHT as int)) as i16, y: (i % (WORLD_HEIGHT as int)) as i16 }
}

/// The cell with index `i` has the column `i / WORLD_HEIGHT` and the row
/// `i % WORLD_HEIGHT`.
pub proof fn lemma_index_cell(i: int)
    requires
        0 <= i < cell_count(),
    ensures
        in_world(i / (WORLD_HEIGHT as int), i % (WORLD_HEIGHT as int)),
        cell_index(i / (WORLD_HEIGHT as int), i % (WORLD_HEIGHT as int)) == i,
{
    let w = WORLD_WIDTH as int;
    let h = WORLD_HEIGHT as int;
    assert(0 <= i / h < w && 0 <= i % h < h && (i / h) * h + i % h == i) by (nonlinear_arith)
        requires
            0 <= i < w * h,
            0 < h,
    ;
}

/// The number of cells fits the machine's index type.
pub proof fn lemma_cell_count()
    ensures
        0 < cell_count() <= usize::MAX,
{
    let w = WORLD_WIDTH as int;
    let h = WORLD_HEIGHT as int;
    assert(0 < w * h <= 0x7fff * 0x7fff) by (nonlinear_arith)
        requires
            0 < w <= 0x7fff,
            0 < h <= 0x7fff,
    ;
}

/// The grid: `WORLD_WIDTH` columns of `WORLD_HEIGHT` cells.
pub struct Field {
    cells: Vec<Tile>,
}

impl View for Field {
    type V = Seq<Tile>;

    /// The cells, column after column.
    closed spec fn view(&self) -> Seq<Tile> {
        self.cells@
    }
}

/// Computes the index of the cell `(x, y)`.
fn index_of(x: i16, y: i16) -> (i: usize)
    requires
        in_world(x as int, y as int),
    ensures
        i == cell_index(x as int, y as int),
        i < cell_count(),
{
    proof {
        lemma_cell_index(x as int, y as int);
    }
    (x as usize) * (WORLD_HEIGHT as usize) + (y as usize)
}

impl Field {
    /// The field has all its cells.
    pub open spec fn wf(&self) -> bool {
        self@.len() == cell_count()
    }

    /// The tile at `(x, y)`.
    pub open spec fn at(&self, x: int, y: int) -> Tile {
        self@[cell_index(x, y)]
    }

    /// How many tiles of `kind` the field holds.
    pub open spec fn count(&self, kind: Powerup) -> nat {
        tally(self@, kind)
    }

    /// An empty field.
    pub fn new() -> (field: Field)
        ensures
            field.wf(),
            forall|i: int| 0 <= i < cell_count() ==> field@[i] is None,
            forall|kind: Powerup| field.count(kind) == 0,
    {
        proof {
            lemma_cell_count();
        }
        let total: usize = (WORLD_WIDTH as usize) * (WORLD_HEIGHT as usize);
        let mut cells: Vec<Tile> = Vec::new();
        while cells.len() < total
            invariant
                total == cell_count(),
                cells@.len() <= total,
                forall|i: int| 0 <= i < cells@.len() ==> cells@[i] is None,
            decreases total - cells@.len(),
        {
            cells.push(None);
        }
        proof {
            assert forall|kind: Powerup| tally(cells@, kind) == 0 by {
                lemma_tally_all_empty(cells@, kind);
            }
        }
        Field { cells }
    }

    /// The tile at `(x, y)`.
    pub fn get(&self, x: i16, y: i16) -> (tile: Tile)
        requires
            self.wf(),
            in_world(x as int, y as int),
        ensures
            tile == self.at(x as int, y as int),
    {
        let i: usize = index_of(x, y);
        self.cells[i]
    }

    /// Puts `tile` at `(x, y)`, whatever was there.
    pub fn set(&mut self, x: i16, y: i16, tile: Tile)
        requires
            old(self).wf(),
            in_world(x as int, y as int),
        ensures
            final(self).wf(),
            final(self)@ == old(self)@.update(cell_index(x as int, y as int), tile),
    {
        let i: usize = index_of(x, y);
        self.cells.set(i, tile);
    }

    /// Counts the tiles of `kind`.
    pub fn count_of(&self, kind: Powerup) -> (n: usize)
        requires
            self.wf(),
        ensures
            n == self.count(kind),
    {
        let mut n: usize = 0;
        let mut i: usize = 0;
        proof {
            assert(self.cells@.take(0) == Seq::<Tile>::empty());
            lemma_tally_empty(kind);
        }
        while i < self.cells.len()
            invariant
                i <= self.cells@.len(),
                n <= i,
                n == tally(self.cells@.take(i as int), kind),
            decreases self.cells@.len() - i,
        {
            proof {
                let before = self.cells@.take(i as int);
                assert(self.cells@.take(i + 1) == before.push(self.cells@[i as int]));
                lemma_tally_push(before, self.cells@[i as int], kind);
            }
            let here = match self.cells[i] {
                Some(found) => found == kind,
                None => false,
            };
            if here {
                n = n + 1;
            }
            i = i + 1;
        }
        proof {
            assert(self.cells@.take(i as int) == self.cells@);
        }
        n
    }
}

} // verus!
