//! What holds of the game whatever is played: the laws that follow from the
//! contracts of the other modules, each stated and proved.

use vstd::prelude::*;
use crate::consts::{
    CHARGE_CAP, CHARGE_GAIN, TICK_COST, INITIAL_CHARGES, INITIAL_CLEANUPS, INITIAL_RESETS,
    WORLD_HEIGHT, max_x, max_y, min_x, min_y,
};
use crate::counting::{
    playable_count, tiles, lemma_no_opening_is_full, lemma_tally_monotone, lemma_tally_pointwise,
};
use crate::field::{
    Powerup, Tile, cell_count, cell_index, one_if, playable, tally, lemma_cell_index,
    lemma_index_cell, lemma_tally_all_empty, lemma_tally_update,
};
use crate::cleanup::{cleaned, cleared_cells, swept};
use crate::game::{Pickup, laid_out, picked, populated, under};
use crate::gauges::Gauges;
use crate::input::{Key, moved};
use crate::session::{Outcome, Session, resolved};
use crate::spawner::{ash_fell_n, filled, has_room, respawned, spawned, spawned_n};
use crate::state::State;
use crate::timing::tick_due;
use crate::util::Position;

verus! {

/// Where a player at `from` stands after the moves `deltas`, each a number of
/// columns and a number of rows, made one after the other.
pub open spec fn walked(from: Position, deltas: Seq<(i16, i16)>) -> Position
    decreases deltas.len(),
{
    if deltas.len() == 0 {
        from
    } else {
        walked(from, deltas.drop_last()).moved_x(deltas.last().0 as int).moved_y(
            deltas.last().1 as int,
        )
    }
}

/// However far and however often the player is asked to move, the player
/// stays on the legal positions: from a legal position always, and from any
/// position after the first move.
pub proof fn lemma_walk_stays_in_bounds(from: Position, deltas: Seq<(i16, i16)>)
    ensures
        from.in_bounds() || deltas.len() > 0 ==> walked(from, deltas).in_bounds(),
    decreases deltas.len(),
{
    if deltas.len() > 0 {
        lemma_walk_stays_in_bounds(from, deltas.drop_last());
    }
}

/// A spawn adds exactly one tile of its kind, on a playable cell that was
/// empty, and changes nothing else: no cell that held a tile holds another
/// afterwards, and the count of every other kind is what it was.
pub proof fn lemma_spawn_adds_one(before: Seq<Tile>, after: Seq<Tile>, kind: Powerup)
    requires
        before.len() == cell_count(),
        spawned(before, after, kind),
    ensures
        after.len() == before.len(),
        tally(after, kind) == tally(before, kind) + 1,
        forall|other: Powerup| other != kind ==> tally(after, other) == tally(before, other),
        forall|i: int| 0 <= i < before.len() && before[i] is Some ==> after[i] == before[i],
        exists|x: int, y: int|
            #![trigger cell_index(x, y)]
            {
                &&& playable(x, y)
                &&& before[cell_index(x, y)] is None
                &&& after[cell_index(x, y)] == Some(kind)
                &&& forall|i: int|
                    0 <= i < before.len() && i != cell_index(x, y) ==> after[i] == before[i]
            },
{
    let (x, y) = choose|x: int, y: int|
        #![trigger cell_index(x, y)]
        playable(x, y) && before[cell_index(x, y)] is None && after == before.update(
            cell_index(x, y),
            Some(kind),
        );
    lemma_cell_index(x, y);
    lemma_tally_update(before, cell_index(x, y), Some(kind), kind);
    assert forall|other: Powerup| other != kind implies tally(after, other) == tally(
        before,
        other,
    ) by {
        lemma_tally_update(before, cell_index(x, y), Some(kind), other);
    }
}

/// The cap holds the charge at `CHARGE_CAP` or below and leaves a charge
/// that is there already as it is.
pub proof fn lemma_cap_bounds_charge(gauges: Gauges)
    ensures
        gauges.capped().charge <= CHARGE_CAP,
        gauges.charge <= CHARGE_CAP ==> gauges.capped() == gauges,
        gauges.capped().capped() == gauges.capped(),
{
}

/// A pass ends the session if and only if the charge, after the pickup and
/// the cap, is below one; and whatever the pass did, the charge does not
/// exceed `CHARGE_CAP` after it.
pub proof fn lemma_game_over_iff_flat(
    pre: Session,
    post: Session,
    key: Option<Key>,
    resized: bool,
    elapsed: u64,
    out: Outcome,
)
    requires
        key != Some(Key::Escape),
        pre.advanced(post, key, resized, elapsed, out),
    ensures
        out.next == State::GameOver <==> pre.gauges().collected(pre.pending(key)).capped().charge
            < 1,
        out.next == State::GameOver || out.next == State::Game,
        out.next == State::GameOver ==> !out.ticked && post.gauges().charge < 1,
        out.next == State::Game ==> post.gauges().charge >= 1 - TICK_COST,
        pre.fits(key, elapsed) ==> post.gauges().charge <= CHARGE_CAP,
{
}

/// Collecting a `Charge` tile adds `CHARGE_GAIN` to the charge, and the field
/// holds as many `Charge` tiles afterwards as before, one taken and one
/// spawned, unless no playable cell was empty: then it holds one less.
pub proof fn lemma_charge_pickup(
    gauges: Gauges,
    before: Seq<Tile>,
    after: Seq<Tile>,
    at: int,
    cleared: Seq<Position>,
)
    requires
        before.len() == cell_count(),
        0 <= at < before.len(),
        before[at] == Some(Powerup::Charge),
        gauges.charge + CHARGE_GAIN <= i16::MAX,
        picked(before, after, at, cleared),
    ensures
        gauges.collected(before[at]).charge == gauges.charge + CHARGE_GAIN,
        has_room(before) ==> tally(after, Powerup::Charge) == tally(before, Powerup::Charge),
        !has_room(before) ==> tally(after, Powerup::Charge) + 1 == tally(before, Powerup::Charge),
        after[at] is None,
{
    lemma_pickup_is_replaced(before, after, at, cleared);
}

/// A tile that is picked up leaves its cell empty. Unless it was ash, the
/// field holds as many tiles of its kind afterwards as before, one taken and
/// one spawned; it holds one less if no playable cell was empty, and always
/// one less of ash.
pub proof fn lemma_pickup_is_replaced(
    before: Seq<Tile>,
    after: Seq<Tile>,
    at: int,
    cleared: Seq<Position>,
)
    requires
        before.len() == cell_count(),
        0 <= at < before.len(),
        before[at] is Some,
        picked(before, after, at, cleared),
    ensures
        after.len() == before.len(),
        after[at] is None,
        before[at] != Some(Powerup::Destroyed) && has_room(before) ==> tally(
            after,
            before[at]->0,
        ) == tally(before, before[at]->0),
        before[at] == Some(Powerup::Destroyed) || !has_room(before) ==> tally(after, before[at]->0)
            + 1 == tally(before, before[at]->0),
{
    let kind = before[at]->0;
    match kind {
        Powerup::Destroyed => {
            lemma_tally_update(before, at, None, kind);
        },
        Powerup::Cleanup => {
            let mid = choose|mid: Seq<Tile>|
                #[trigger] cleaned(before, mid, cleared) && after == mid.update(at, None);
            let between = choose|between: Seq<Tile>|
                {
                    &&& respawned(before, between, Powerup::Cleanup)
                    &&& #[trigger] swept(between, mid)
                    &&& cleared == cleared_cells(between, mid, cell_count())
                };
            if has_room(before) {
                lemma_spawn_adds_one(before, between, kind);
            }
            assert(between[at] == before[at]);
            lemma_tally_pointwise(mid, between, kind);
            lemma_tally_update(mid, at, None, kind);
        },
        _ => {
            let mid = choose|mid: Seq<Tile>|
                #[trigger] respawned(before, mid, kind) && after == mid.update(at, None);
            if has_room(before) {
                lemma_spawn_adds_one(before, mid, kind);
            }
            lemma_tally_update(mid, at, None, kind);
        },
    }
}

/// Collecting a `Reset` tile sets the ash rate to zero and leaves the charge
/// as it is.
pub proof fn lemma_reset_zeroes_ash_rate(gauges: Gauges)
    ensures
        gauges.collected(Some(Powerup::Reset)).ash_rate == 0,
        gauges.collected(Some(Powerup::Reset)).charge == gauges.charge,
{
}

/// Collecting a `Cleanup` tile doubles the ash rate, exactly, as long as the
/// double is in the range of the counter; zero stays zero.
pub proof fn lemma_cleanup_doubles_ash_rate(gauges: Gauges)
    requires
        2 * gauges.ash_rate <= u16::MAX,
    ensures
        gauges.collected(Some(Powerup::Cleanup)).ash_rate == 2 * gauges.ash_rate,
        gauges.collected(Some(Powerup::Cleanup)).charge == gauges.charge,
        gauges.ash_rate == 0 ==> gauges.collected(Some(Powerup::Cleanup)).ash_rate == 0,
{
}

/// Tiles that are put on free cells leave the count of every other kind as
/// it was, where they need an empty cell; ash, which falls on other tiles
/// too, can only lower it.
pub proof fn lemma_filled_others(
    before: Seq<Tile>,
    after: Seq<Tile>,
    kind: Powerup,
    over: bool,
    n: nat,
    other: Powerup,
)
    requires
        before.len() == cell_count(),
        filled(before, after, kind, over, n),
        other != kind,
    ensures
        !over ==> tally(after, other) == tally(before, other),
        tally(after, other) <= tally(before, other),
{
    assert forall|i: int| 0 <= i < before.len() implies after[i] == before[i] || #[trigger] after[i]
        == Some(kind) by {
        lemma_index_cell(i);
        let _ = cell_index(i / (WORLD_HEIGHT as int), i % (WORLD_HEIGHT as int));
    }
    if !over {
        assert forall|i: int| 0 <= i < before.len() implies one_if(#[trigger] after[i], other)
            == one_if(before[i], other) by {
            lemma_index_cell(i);
            let _ = cell_index(i / (WORLD_HEIGHT as int), i % (WORLD_HEIGHT as int));
        }
        lemma_tally_pointwise(after, before, other);
    } else {
        lemma_tally_monotone(after, before, other);
    }
}

/// Ash that falls `n` times adds exactly `n` ash tiles, as long as the
/// playable part of the grid can hold them.
pub proof fn lemma_ash_fall_adds_n(before: Seq<Tile>, after: Seq<Tile>, n: nat)
    requires
        before.len() == cell_count(),
        ash_fell_n(before, after, n),
        tally(before, Powerup::Destroyed) + n <= playable_count(),
    ensures
        tally(after, Powerup::Destroyed) == tally(before, Powerup::Destroyed) + n,
{
    if tally(after, Powerup::Destroyed) < tally(before, Powerup::Destroyed) + n {
        lemma_no_opening_is_full(after, true);
    }
}

/// `n` spawns of `kind` add exactly `n` tiles of that kind and leave the
/// count of every other kind as it was, as long as the playable part of the
/// grid can hold them.
pub proof fn lemma_spawns_add_n(before: Seq<Tile>, after: Seq<Tile>, kind: Powerup, n: nat)
    requires
        before.len() == cell_count(),
        spawned_n(before, after, kind, n),
        tiles(before) + n <= playable_count(),
    ensures
        tally(after, kind) == tally(before, kind) + n,
        forall|other: Powerup| other != kind ==> tally(after, other) == tally(before, other),
        tiles(after) == tiles(before) + n,
{
    assert forall|other: Powerup| other != kind implies tally(after, other) == tally(
        before,
        other,
    ) by {
        lemma_filled_others(before, after, kind, false, n, other);
    }
    assert(tiles(after) + tally(before, kind) == tiles(before) + tally(after, kind)) by {
        match kind {
            Powerup::Cleanup => {},
            Powerup::Charge => {},
            Powerup::Reset => {},
            Powerup::Destroyed => {},
        }
    }
    if tally(after, kind) < tally(before, kind) + n {
        lemma_no_opening_is_full(after, false);
    }
}

/// A session that starts on an empty grid has its tiles: the `Charge`,
/// `Cleanup` and `Reset` tiles that the rules name, each on a playable cell of
/// its own, and no ash.
pub proof fn lemma_start_counts(before: Seq<Tile>, after: Seq<Tile>)
    requires
        before.len() == cell_count(),
        forall|i: int| 0 <= i < before.len() ==> before[i] is None,
        populated(before, after),
    ensures
        tally(after, Powerup::Charge) == INITIAL_CHARGES,
        tally(after, Powerup::Cleanup) == INITIAL_CLEANUPS,
        tally(after, Powerup::Reset) == INITIAL_RESETS,
        tally(after, Powerup::Destroyed) == 0,
        tiles(after) == INITIAL_CHARGES + INITIAL_CLEANUPS + INITIAL_RESETS,
{
    let (a, b) = choose|a: Seq<Tile>, b: Seq<Tile>| #[trigger] laid_out(before, a, b, after);
    lemma_tally_all_empty(before, Powerup::Cleanup);
    lemma_tally_all_empty(before, Powerup::Charge);
    lemma_tally_all_empty(before, Powerup::Reset);
    lemma_tally_all_empty(before, Powerup::Destroyed);
    lemma_spawns_add_n(before, a, Powerup::Charge, INITIAL_CHARGES as nat);
    lemma_spawns_add_n(a, b, Powerup::Cleanup, INITIAL_CLEANUPS as nat);
    lemma_spawns_add_n(b, after, Powerup::Reset, INITIAL_RESETS as nat);
}

/// A second that passes without a key, on a session that is still running:
/// the charge goes down by `TICK_COST`, the ash rate goes up by one, and the
/// grid holds as many more ash tiles as the new ash rate says, as long as the
/// playable part of the grid can hold them. The player does not move and
/// nothing is picked up.
pub proof fn lemma_quiet_second(
    pre: Session,
    post: Session,
    resized: bool,
    elapsed: u64,
    out: Outcome,
)
    requires
        pre.wf(),
        pre.fits(None, elapsed),
        pre.advanced(post, None, resized, elapsed, out),
        tick_due(elapsed),
        1 <= pre.gauges().charge <= CHARGE_CAP,
        tally(pre.cells(), Powerup::Destroyed) + pre.gauges().ash_rate + 1 <= playable_count(),
    ensures
        out.ticked,
        out.next == State::Game,
        out.collected is None,
        out.moved_from is None,
        post.player() == pre.player(),
        post.gauges().charge == pre.gauges().charge - TICK_COST,
        post.gauges().ash_rate == pre.gauges().ash_rate + 1,
        post.gauges().powerups_collected == pre.gauges().powerups_collected,
        tally(post.cells(), Powerup::Destroyed) == tally(pre.cells(), Powerup::Destroyed)
            + post.gauges().ash_rate,
{
    let mid = choose|mid: Seq<Tile>|
        #[trigger] resolved(pre.cells(), mid, None, pre.player(), out.cleared@) && ash_fell_n(
            mid,
            post.cells(),
            post.gauges().ash_rate as nat,
        );
    lemma_ash_fall_adds_n(mid, post.cells(), post.gauges().ash_rate as nat);
}

/// An arrow key moves the player by exactly one cell, unless the player
/// stands at the edge that the key points to: then the player stays. No other
/// key moves the player.
pub proof fn lemma_arrow_moves_one(from: Position, key: Key)
    requires
        from.in_bounds(),
    ensures
        moved(from, key).in_bounds(),
        key == Key::Up ==> moved(from, key).x == from.x && moved(from, key).y == if from.y
            > min_y() {
            from.y - 1
        } else {
            from.y as int
        },
        key == Key::Down ==> moved(from, key).x == from.x && moved(from, key).y == if from.y
            < max_y() {
            from.y + 1
        } else {
            from.y as int
        },
        key == Key::Left ==> moved(from, key).y == from.y && moved(from, key).x == if from.x
            > min_x() {
            from.x - 1
        } else {
            from.x as int
        },
        key == Key::Right ==> moved(from, key).y == from.y && moved(from, key).x == if from.x
            < max_x() {
            from.x + 1
        } else {
            from.x as int
        },
        key != Key::Up && key != Key::Down && key != Key::Left && key != Key::Right ==> moved(
            from,
            key,
        ) == from,
{
}

/// A pickup counts as one tile collected when the cell in reach holds a
/// tile of whatever kind, as long as the counter has room for it, and as none
/// when that cell is empty; an empty cell changes no counter and no cell.
pub proof fn lemma_collecting_counts(pre: Session, post: Session, key: Key, pickup: Pickup)
    requires
        pre.wf(),
        pre.handled(post, key, pickup),
    ensures
        pre.tile_after(key) is Some && pre.gauges().powerups_collected < u16::MAX
            ==> post.gauges().powerups_collected == pre.gauges().powerups_collected + 1,
        pre.tile_after(key) is None ==> post.gauges() == pre.gauges() && post.cells()
            == pre.cells(),
        post.player() == moved(pre.player(), key),
        post.cells().len() == pre.cells().len(),
        post.cells()[under(post.player())] is None,
{
    lemma_arrow_moves_one(pre.player(), key);
    let at = moved(pre.player(), key);
    lemma_cell_index(at.x as int, at.y - 1);
    if pre.tile_after(key) is Some {
        lemma_pickup_is_replaced(pre.cells(), post.cells(), under(at), pickup.cleared@);
    }
}

/// Collecting a `Charge` tile: right after the pickup the charge is up by
/// `CHARGE_GAIN`, and after the cap it is that or `CHARGE_CAP`, whichever is
/// less. The ash rate is what it was, one more tile counts as collected where
/// the counter has room, the cell is empty, and the grid holds as many
/// `Charge` tiles as before unless no playable cell was empty.
pub proof fn lemma_collecting_charge(pre: Session, post: Session, key: Key, pickup: Pickup)
    requires
        pre.wf(),
        pre.tile_after(key) == Some(Powerup::Charge),
        pre.gauges().charge + CHARGE_GAIN <= i16::MAX,
        pre.handled(post, key, pickup),
    ensures
        pickup.tile == Some(Powerup::Charge),
        post.gauges().charge == pre.gauges().charge + CHARGE_GAIN,
        post.gauges().capped().charge == if pre.gauges().charge + CHARGE_GAIN > CHARGE_CAP {
            CHARGE_CAP as int
        } else {
            pre.gauges().charge + CHARGE_GAIN
        },
        post.gauges().ash_rate == pre.gauges().ash_rate,
        pre.gauges().powerups_collected < u16::MAX ==> post.gauges().powerups_collected
            == pre.gauges().powerups_collected + 1,
        post.cells()[under(post.player())] is None,
        has_room(pre.cells()) ==> tally(post.cells(), Powerup::Charge) == tally(
            pre.cells(),
            Powerup::Charge,
        ),
        !has_room(pre.cells()) ==> tally(post.cells(), Powerup::Charge) + 1 == tally(
            pre.cells(),
            Powerup::Charge,
        ),
{
    lemma_arrow_moves_one(pre.player(), key);
    let at = moved(pre.player(), key);
    lemma_cell_index(at.x as int, at.y - 1);
    lemma_pickup_is_replaced(pre.cells(), post.cells(), under(at), pickup.cleared@);
}

/// Collecting a `Cleanup` tile doubles the ash rate, exactly, as long as the
/// double is in the range of the counter, and leaves the charge as it is. One
/// more tile counts as collected where the counter has room, the cell is
/// empty, and the grid holds as many `Cleanup` tiles as before unless no
/// playable cell was empty.
pub proof fn lemma_collecting_cleanup(pre: Session, post: Session, key: Key, pickup: Pickup)
    requires
        pre.wf(),
        pre.tile_after(key) == Some(Powerup::Cleanup),
        2 * pre.gauges().ash_rate <= u16::MAX,
        pre.handled(post, key, pickup),
    ensures
        pickup.tile == Some(Powerup::Cleanup),
        post.gauges().ash_rate == 2 * pre.gauges().ash_rate,
        post.gauges().charge == pre.gauges().charge,
        pre.gauges().powerups_collected < u16::MAX ==> post.gauges().powerups_collected
            == pre.gauges().powerups_collected + 1,
        post.cells()[under(post.player())] is None,
        has_room(pre.cells()) ==> tally(post.cells(), Powerup::Cleanup) == tally(
            pre.cells(),
            Powerup::Cleanup,
        ),
{
    lemma_arrow_moves_one(pre.player(), key);
    let at = moved(pre.player(), key);
    lemma_cell_index(at.x as int, at.y - 1);
    lemma_pickup_is_replaced(pre.cells(), post.cells(), under(at), pickup.cleared@);
}

/// Collecting a `Reset` tile sets the ash rate to zero, whatever it was, and
/// leaves the charge as it is. One more tile counts as collected where the
/// counter has room, the cell is empty, and a new `Reset` tile lies
/// elsewhere, so that the grid holds as many as before, unless no playable
/// cell was empty.
pub proof fn lemma_collecting_reset(pre: Session, post: Session, key: Key, pickup: Pickup)
    requires
        pre.wf(),
        pre.tile_after(key) == Some(Powerup::Reset),
        pre.handled(post, key, pickup),
    ensures
        pickup.tile == Some(Powerup::Reset),
        post.player() == moved(pre.player(), key),
        post.gauges().ash_rate == 0,
        post.gauges().charge == pre.gauges().charge,
        pre.gauges().powerups_collected < u16::MAX ==> post.gauges().powerups_collected
            == pre.gauges().powerups_collected + 1,
        post.cells()[under(post.player())] is None,
        has_room(pre.cells()) ==> tally(post.cells(), Powerup::Reset) == tally(
            pre.cells(),
            Powerup::Reset,
        ),
{
    lemma_arrow_moves_one(pre.player(), key);
    let at = moved(pre.player(), key);
    lemma_cell_index(at.x as int, at.y - 1);
    lemma_pickup_is_replaced(pre.cells(), post.cells(), under(at), pickup.cleared@);
}

/// A pass in which a `Charge` tile is collected by a session that is still
/// running: the charge is up by `CHARGE_GAIN` and then capped, less the cost of
/// the tick if one ran; the session goes on; the ash rate is what it was, or
/// one more if a tick ran. The counters count on as long as they have room.
pub proof fn lemma_charge_then_cap(
    pre: Session,
    post: Session,
    key: Key,
    resized: bool,
    elapsed: u64,
    out: Outcome,
)
    requires
        pre.wf(),
        key != Key::Escape,
        pre.tile_after(key) == Some(Powerup::Charge),
        1 <= pre.gauges().charge <= CHARGE_CAP,
        pre.advanced(post, Some(key), resized, elapsed, out),
    ensures
        out.collected == Some(Powerup::Charge),
        out.next == State::Game,
        out.ticked == tick_due(elapsed),
        post.gauges().charge == (if pre.gauges().charge + CHARGE_GAIN > CHARGE_CAP {
            CHARGE_CAP as int
        } else {
            pre.gauges().charge + CHARGE_GAIN
        }) - if out.ticked {
            TICK_COST as int
        } else {
            0
        },
        pre.gauges().ash_rate < u16::MAX ==> post.gauges().ash_rate == pre.gauges().ash_rate
            + if out.ticked {
            1int
        } else {
            0
        },
        pre.gauges().powerups_collected < u16::MAX ==> post.gauges().powerups_collected
            == pre.gauges().powerups_collected + 1,
{
}

/// A pass in which a `Cleanup` tile is collected: the ash rate is doubled,
/// exactly, and one more if a tick ran after it; the pickup leaves the charge
/// to the cap and the tick.
pub proof fn lemma_cleanup_then_tick(
    pre: Session,
    post: Session,
    key: Key,
    resized: bool,
    elapsed: u64,
    out: Outcome,
)
    requires
        pre.wf(),
        key != Key::Escape,
        pre.tile_after(key) == Some(Powerup::Cleanup),
        2 * pre.gauges().ash_rate + 1 <= u16::MAX,
        pre.gauges().charge - TICK_COST >= i16::MIN,
        pre.advanced(post, Some(key), resized, elapsed, out),
    ensures
        out.collected == Some(Powerup::Cleanup),
        out.ticked == (pre.gauges().capped().charge >= 1 && tick_due(elapsed)),
        post.gauges().ash_rate == 2 * pre.gauges().ash_rate + if out.ticked {
            1int
        } else {
            0
        },
        post.gauges().charge == pre.gauges().capped().charge - if out.ticked {
            TICK_COST as int
        } else {
            0
        },
{
}

/// A pass in which a `Reset` tile is collected: the player stands where the
/// key leads, the ash rate is zero, whatever it was, or one if a tick ran
/// after the pickup; the pickup leaves the charge to the cap and the tick.
pub proof fn lemma_reset_then_tick(
    pre: Session,
    post: Session,
    key: Key,
    resized: bool,
    elapsed: u64,
    out: Outcome,
)
    requires
        pre.wf(),
        key != Key::Escape,
        pre.tile_after(key) == Some(Powerup::Reset),
        pre.gauges().charge - TICK_COST >= i16::MIN,
        pre.advanced(post, Some(key), resized, elapsed, out),
    ensures
        out.collected == Some(Powerup::Reset),
        post.player() == moved(pre.player(), key),
        out.ticked == (pre.gauges().capped().charge >= 1 && tick_due(elapsed)),
        post.gauges().ash_rate == if out.ticked {
            1int
        } else {
            0
        },
        post.gauges().charge == pre.gauges().capped().charge - if out.ticked {
            TICK_COST as int
        } else {
            0
        },
{
}

} // verus!
