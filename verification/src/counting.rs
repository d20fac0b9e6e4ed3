//! Counting tiles: how many the playable part of the grid can take, and what
//! that says about a field on which no cell is free.

use vstd::prelude::*;
use crate::consts::{WORLD_WIDTH, WORLD_HEIGHT, RESERVED_ROWS};
use crate::field::{
    Powerup, Tile, cell_count, cell_index, one_if, playable, tally, lemma_index_cell,
    lemma_tally_empty, lemma_tally_push,
};
use crate::spawner::{has_opening, open_to};

verus! {

/// Number of playable cells.
pub open spec fn playable_count() -> int {
    WORLD_WIDTH * (WORLD_HEIGHT - RESERVED_ROWS)
}

/// Number of playable cells among the first `n` of the grid.
pub open spec fn playable_below(n: int) -> int {
    let rows = WORLD_HEIGHT as int;
    let open_rows = WORLD_HEIGHT - RESERVED_ROWS;
    (n / rows) * open_rows + if n % rows < open_rows {
        n % rows
    } else {
        open_rows
    }
}

/// How many of `cells` hold a tile, of whatever kind.
pub open spec fn tiles(cells: Seq<Tile>) -> nat {
    tally(cells, Powerup::Cleanup) + tally(cells, Powerup::Charge) + tally(cells, Powerup::Reset)
        + tally(cells, Powerup::Destroyed)
}

/// How many of `cells` are not free: the ash where ash is to fall, every tile
/// where something is to be spawned.
pub open spec fn taken(cells: Seq<Tile>, over: bool) -> nat {
    if over {
        tally(cells, Powerup::Destroyed)
    } else {
        tiles(cells)
    }
}

/// A tile is of exactly one kind, and an empty cell of none.
pub proof fn lemma_one_kind(tile: Tile)
    ensures
        one_if(tile, Powerup::Cleanup) + one_if(tile, Powerup::Charge) + one_if(
            tile,
            Powerup::Reset,
        ) + one_if(tile, Powerup::Destroyed) == if tile is Some {
            1int
        } else {
            0int
        },
{
    match tile {
        Some(Powerup::Cleanup) => {},
        Some(Powerup::Charge) => {},
        Some(Powerup::Reset) => {},
        Some(Powerup::Destroyed) => {},
        None => {},
    }
}

/// Two rows of cells that agree, cell by cell, on whether they hold `kind`
/// hold it equally often.
pub proof fn lemma_tally_pointwise(a: Seq<Tile>, b: Seq<Tile>, kind: Powerup)
    requires
        a.len() == b.len(),
        forall|i: int| 0 <= i < a.len() ==> one_if(#[trigger] a[i], kind) == one_if(b[i], kind),
    ensures
        tally(a, kind) == tally(b, kind),
    decreases a.len(),
{
    if a.len() == 0 {
        assert(a =~= Seq::<Tile>::empty());
        assert(b =~= Seq::<Tile>::empty());
    } else {
        let a0 = a.drop_last();
        let b0 = b.drop_last();
        assert forall|i: int| 0 <= i < a0.len() implies one_if(#[trigger] a0[i], kind) == one_if(
            b0[i],
            kind,
        ) by {
            assert(a0[i] == a[i]);
        }
        lemma_tally_pointwise(a0, b0, kind);
        lemma_tally_push(a0, a.last(), kind);
        lemma_tally_push(b0, b.last(), kind);
        assert(a0.push(a.last()) =~= a);
        assert(b0.push(b.last()) =~= b);
        assert(one_if(a[a.len() - 1], kind) == one_if(b[a.len() - 1], kind));
    }
}

/// A row of cells that holds `kind` only where another holds it too holds it
/// no more often.
pub proof fn lemma_tally_monotone(a: Seq<Tile>, b: Seq<Tile>, kind: Powerup)
    requires
        a.len() == b.len(),
        forall|i: int| 0 <= i < a.len() ==> one_if(#[trigger] a[i], kind) <= one_if(b[i], kind),
    ensures
        tally(a, kind) <= tally(b, kind),
    decreases a.len(),
{
    if a.len() == 0 {
        assert(a =~= b);
    } else {
        let a0 = a.drop_last();
        let b0 = b.drop_last();
        assert forall|i: int| 0 <= i < a0.len() implies one_if(#[trigger] a0[i], kind) <= one_if(
            b0[i],
            kind,
        ) by {
            assert(a0[i] == a[i]);
        }
        lemma_tally_monotone(a0, b0, kind);
        lemma_tally_push(a0, a.last(), kind);
        lemma_tally_push(b0, b.last(), kind);
        assert(a0.push(a.last()) =~= a);
        assert(b0.push(b.last()) =~= b);
        assert(one_if(a[a.len() - 1], kind) <= one_if(b[a.len() - 1], kind));
    }
}

/// On a grid without a free playable cell, the first `n` cells hold at least
/// as many taken cells as there are playable ones among them.
pub proof fn lemma_taken_prefix(cells: Seq<Tile>, over: bool, n: int)
    requires
        cells.len() == cell_count(),
        !has_opening(cells, over),
        0 <= n <= cells.len(),
    ensures
        taken(cells.take(n), over) >= playable_below(n),
    decreases n,
{
    if n == 0 {
        assert(cells.take(0) =~= Seq::<Tile>::empty());
        lemma_tally_empty(Powerup::Cleanup);
        lemma_tally_empty(Powerup::Charge);
        lemma_tally_empty(Powerup::Reset);
        lemma_tally_empty(Powerup::Destroyed);
        assert(playable_below(0) == 0);
    } else {
        let m = n - 1;
        lemma_taken_prefix(cells, over, m);
        let front = cells.take(m);
        assert(cells.take(n) =~= front.push(cells[m]));
        lemma_tally_push(front, cells[m], Powerup::Cleanup);
        lemma_tally_push(front, cells[m], Powerup::Charge);
        lemma_tally_push(front, cells[m], Powerup::Reset);
        lemma_tally_push(front, cells[m], Powerup::Destroyed);
        lemma_index_cell(m);
        let x = m / (WORLD_HEIGHT as int);
        let y = m % (WORLD_HEIGHT as int);
        let grown: int = if !open_to(cells[m], over) {
            1
        } else {
            0
        };
        assert(cells.take(n) == front.push(cells[m]));
        assert(tally(cells.take(n), Powerup::Destroyed) == tally(front, Powerup::Destroyed)
            + one_if(cells[m], Powerup::Destroyed));
        lemma_one_kind(cells[m]);
        assert(taken(cells.take(n), over) == taken(front, over) + grown);
        if y < WORLD_HEIGHT - RESERVED_ROWS {
            assert(playable(x, y));
            assert(!open_to(cells[cell_index(x, y)], over));
            assert(grown == 1);
        }
        assert(playable_below(n) <= playable_below(m) + if y < WORLD_HEIGHT - RESERVED_ROWS {
            1int
        } else {
            0int
        }) by {
            lemma_playable_below_step(m);
        }
    }
}

/// One more cell is at most one more playable cell, and none if its row is
/// reserved.
pub proof fn lemma_playable_below_step(m: int)
    requires
        0 <= m,
    ensures
        playable_below(m + 1) <= playable_below(m) + if m % (WORLD_HEIGHT as int) < WORLD_HEIGHT
            - RESERVED_ROWS {
            1int
        } else {
            0int
        },
{
    let h = WORLD_HEIGHT as int;
    let q = m / h;
    let r = m % h;
    assert(m == q * h + r && 0 <= r < h) by (nonlinear_arith)
        requires
            q == m / h,
            r == m % h,
            h > 0,
    ;
    if r + 1 < h {
        assert((m + 1) / h == q && (m + 1) % h == r + 1) by (nonlinear_arith)
            requires
                m == q * h + r,
                0 <= r,
                r + 1 < h,
        ;
    } else {
        assert((m + 1) / h == q + 1 && (m + 1) % h == 0) by (nonlinear_arith)
            requires
                m == q * h + r,
                r + 1 == h,
                h > 0,
        ;
        assert((q + 1) * (WORLD_HEIGHT - RESERVED_ROWS) == q * (WORLD_HEIGHT - RESERVED_ROWS) + (
        WORLD_HEIGHT - RESERVED_ROWS)) by (nonlinear_arith);
    }
}

/// A grid without a free playable cell holds at least as many taken cells as
/// it has playable ones.
pub proof fn lemma_no_opening_is_full(cells: Seq<Tile>, over: bool)
    requires
        cells.len() == cell_count(),
        !has_opening(cells, over),
    ensures
        taken(cells, over) >= playable_count(),
{
    lemma_taken_prefix(cells, over, cells.len() as int);
    assert(cells.take(cells.len() as int) =~= cells);
    let w = WORLD_WIDTH as int;
    let h = WORLD_HEIGHT as int;
    assert((w * h) / h == w && (w * h) % h == 0) by (nonlinear_arith)
        requires
            h > 0,
    ;
}

} // verus!
