//! A session: one play-through, from its first tile to a flat battery.

use vstd::prelude::*;
use chroniker::Timer;
use rand::ThreadRng;
use crate::clock::{elapsed_millis, reset};
use crate::consts::CHARGE_CAP;
use crate::field::{Tile, cell_count};
use crate::game::{Game, Pickup, picked, populated, start_cell, under};
use crate::gauges::Gauges;
use crate::input::{Key, moved};
use crate::spawner::ash_fell_n;
use crate::state::State;
use crate::timing::{is_tick_due, seconds_between, tick_due, whole_seconds};
use crate::util::Position;

verus! {

/// What one pass of a session did, for whoever draws it.
pub struct Outcome {
    /// The state of the next pass: `Game`, `GameOver` or `Quit`.
    pub next: State,
    /// Where the player stood before, if the player has moved.
    pub moved_from: Option<Position>,
    /// The tile that was picked up, if there was one.
    pub collected: Tile,
    /// The cells that a cleanup cleared of ash, in scanning order.
    pub cleared: Vec<Position>,
    /// A tick has run.
    pub ticked: bool,
    /// The whole screen is to be drawn again.
    pub redraw: bool,
}

/// `after` is `before` after a pass in which `key` was pressed by a player at
/// `from`: with a key the player picks up the tile in reach of the new
/// position, without one nothing is picked up.
pub open spec fn resolved(
    before: Seq<Tile>,
    after: Seq<Tile>,
    key: Option<Key>,
    from: Position,
    cleared: Seq<Position>,
) -> bool {
    match key {
        None => after == before && cleared.len() == 0,
        Some(k) => picked(before, after, under(moved(from, k)), cleared),
    }
}

/// A session in play.
pub struct Session {
    game: Game,
    gauges: Gauges,
    started_at: u64,
}

impl Session {
    /// Where the player stands.
    pub closed spec fn player(&self) -> Position {
        self.game.player()
    }

    /// The cells of the grid.
    pub closed spec fn cells(&self) -> Seq<Tile> {
        self.game.cells()
    }

    /// The counters.
    pub closed spec fn gauges(&self) -> Gauges {
        self.gauges
    }

    /// The wall-clock time, in milliseconds, at which the session began.
    pub closed spec fn started_at(&self) -> u64 {
        self.started_at
    }

    /// The player stands on a legal position and the grid is whole.
    pub open spec fn wf(&self) -> bool {
        self.player().in_bounds() && self.cells().len() == cell_count()
    }

    /// The tile that the player picks up after `key`.
    pub open spec fn tile_after(&self, key: Key) -> Tile {
        self.cells()[under(moved(self.player(), key))]
    }

    /// The tile that the player picks up in a pass with `key`: none without a key.
    pub open spec fn pending(&self, key: Option<Key>) -> Tile {
        match key {
            Some(k) => self.tile_after(k),
            None => None,
        }
    }

    /// Where the player stands after a pass with `key`.
    pub open spec fn target(&self, key: Option<Key>) -> Position {
        match key {
            Some(k) => moved(self.player(), k),
            None => self.player(),
        }
    }

    /// The two sessions are in the same state.
    pub open spec fn same_as(&self, other: Session) -> bool {
        &&& self.player() == other.player()
        &&& self.cells() == other.cells()
        &&& self.gauges() == other.gauges()
        &&& self.started_at() == other.started_at()
    }

    /// A pass with `key`, `elapsed` milliseconds after the last tick, stays
    /// within the range of the counters.
    pub open spec fn fits(&self, key: Option<Key>, elapsed: u64) -> bool {
        key != Some(Key::Escape) ==> {
            let tile = self.pending(key);
            let settled = self.gauges().collected(tile).capped();
            &&& self.gauges().can_collect(tile)
            &&& !settled.flat() && tick_due(elapsed) ==> settled.can_tick()
        }
    }

    /// `post` is `self` after the player has moved as `key` asks and picked
    /// up `pickup`: the player stands where the key leads, the tile in reach
    /// of that position is taken from the grid and has its effect on the
    /// counters, and nothing else changes.
    pub open spec fn handled(&self, post: Session, key: Key, pickup: Pickup) -> bool {
        &&& post.started_at() == self.started_at()
        &&& post.player() == moved(self.player(), key)
        &&& pickup.tile == self.tile_after(key)
        &&& post.gauges() == self.gauges().collected(pickup.tile)
        &&& picked(
            self.cells(),
            post.cells(),
            under(moved(self.player(), key)),
            pickup.cleared@,
        )
    }

    /// `post` is `self` after the pass with `key`, `resized` and `elapsed`
    /// that reported `out`.
    ///
    /// `Escape` quits and changes nothing. Otherwise the player moves and
    /// picks up, the charge is capped, and then the session is over if the
    /// battery is flat; if it is not and a tick is due, the tick runs: it
    /// takes its charge and lets ash fall as often as the new ash rate says.
    pub open spec fn advanced(
        &self,
        post: Session,
        key: Option<Key>,
        resized: bool,
        elapsed: u64,
        out: Outcome,
    ) -> bool {
        if key == Some(Key::Escape) {
            &&& post.same_as(*self)
            &&& out.next == State::Quit
            &&& out.moved_from is None
            &&& out.collected is None
            &&& out.cleared@.len() == 0
            &&& !out.ticked
            &&& !out.redraw
        } else {
            let tile = self.pending(key);
            let settled = self.gauges().collected(tile).capped();
            let over = settled.flat();
            let ticks = !over && tick_due(elapsed);
            &&& post.started_at() == self.started_at()
            &&& post.player() == self.target(key)
            &&& post.gauges() == if ticks {
                settled.ticked()
            } else {
                settled
            }
            &&& exists|mid: Seq<Tile>|
                {
                    &&& #[trigger] resolved(self.cells(), mid, key, self.player(), out.cleared@)
                    &&& if ticks {
                        ash_fell_n(mid, post.cells(), post.gauges().ash_rate as nat)
                    } else {
                        post.cells() == mid
                    }
                }
            &&& out.next == if over {
                State::GameOver
            } else {
                State::Game
            }
            &&& out.moved_from == if post.player() == self.player() {
                None
            } else {
                Some(self.player())
            }
            &&& out.collected == tile
            &&& out.ticked == ticks
            &&& out.redraw == (resized && !over)
        }
    }

    /// A session before its tiles are laid out: the player on the start cell,
    /// an empty grid, fresh counters.
    pub fn new(now: u64) -> (session: Session)
        ensures
            session.wf(),
            session.player() == start_cell(),
            forall|i: int| 0 <= i < cell_count() ==> session.cells()[i] is None,
            session.gauges() == Gauges::fresh(),
            session.started_at() == now,
    {
        Session { game: Game::new(), gauges: Gauges::new(), started_at: now }
    }

    /// A session made of `game` and `gauges` that began at `started_at`.
    pub fn from_parts(game: Game, gauges: Gauges, started_at: u64) -> (session: Session)
        requires
            game.wf(),
        ensures
            session.wf(),
            session.player() == game.player(),
            session.cells() == game.cells(),
            session.gauges() == gauges,
            session.started_at() == started_at,
    {
        Session { game, gauges, started_at }
    }

    /// A new session that begins at `now`, with its tiles laid out.
    pub fn start_at(rng: &mut ThreadRng, now: u64) -> (session: Session)
        ensures
            session.wf(),
            session.player() == start_cell(),
            session.gauges() == Gauges::fresh(),
            session.started_at() == now,
            populated(Seq::new(cell_count() as nat, |i: int| None), session.cells()),
    {
        let mut session = Session::new(now);
        proof {
            assert(session.cells() =~= Seq::new(cell_count() as nat, |i: int| None));
        }
        session.game.populate(rng);
        session
    }

    /// The player and the grid.
    pub fn game(&self) -> (game: &Game)
        ensures
            game.player() == self.player(),
            game.cells() == self.cells(),
    {
        &self.game
    }

    /// The counters.
    pub fn counters(&self) -> (gauges: Gauges)
        ensures
            gauges == self.gauges(),
    {
        self.gauges
    }

    /// The wall-clock time, in milliseconds, at which the session began.
    pub fn start_time(&self) -> (at: u64)
        ensures
            at == self.started_at(),
    {
        self.started_at
    }

    /// The whole seconds that the session has lasted at the time `now`.
    pub fn seconds_played_at(&self, now: u64) -> (seconds: u64)
        requires
            self.started_at() <= now,
        ensures
            seconds == seconds_between(self.started_at(), now),
    {
        whole_seconds(self.started_at, now)
    }

    /// The whole seconds that the session has lasted at the time `now`, or
    /// nothing where `now` lies before the start of the session.
    pub fn seconds_since(&self, now: u64) -> (seconds: Option<u64>)
        ensures
            seconds == if self.started_at() <= now {
                Some(seconds_between(self.started_at(), now) as u64)
            } else {
                None
            },
    {
        if self.started_at <= now {
            Some(self.seconds_played_at(now))
        } else {
            None
        }
    }

    /// Moves the player as `key` asks and picks up the tile in reach of the
    /// new position. A key that does not move the player picks up as well.
    pub fn handle_key(&mut self, key: Key, rng: &mut ThreadRng) -> (pickup: Pickup)
        requires
            old(self).wf(),
            old(self).gauges().can_collect(old(self).tile_after(key)),
        ensures
            final(self).wf(),
            old(self).handled(*final(self), key, pickup),
    {
        self.game.update(key);
        let pickup = self.game.collect(rng);
        self.gauges.collect(pickup.tile);
        pickup
    }

    /// Cuts the charge down to its cap.
    pub fn clamp_charge(&mut self)
        ensures
            final(self).gauges() == old(self).gauges().capped(),
            final(self).gauges().charge <= CHARGE_CAP,
            final(self).player() == old(self).player(),
            final(self).cells() == old(self).cells(),
            final(self).started_at() == old(self).started_at(),
    {
        self.gauges.clamp();
    }

    /// Whether the session is over: it is when the charge is below one, and
    /// only then.
    pub fn is_over(&self) -> (over: bool)
        ensures
            over == self.gauges().flat(),
    {
        self.gauges.is_flat()
    }

    /// Runs a tick: the charge goes down, the ash rate goes up by one, and
    /// ash falls as often as the new ash rate says.
    pub fn tick(&mut self, rng: &mut ThreadRng)
        requires
            old(self).wf(),
            old(self).gauges().can_tick(),
        ensures
            final(self).wf(),
            final(self).started_at() == old(self).started_at(),
            final(self).player() == old(self).player(),
            final(self).gauges() == old(self).gauges().ticked(),
            ash_fell_n(
                old(self).cells(),
                final(self).cells(),
                final(self).gauges().ash_rate as nat,
            ),
    {
        self.gauges.tick();
        self.game.rain(self.gauges.ash_rate, rng);
    }

    /// Whether a pass with `key`, `elapsed` milliseconds after the last tick,
    /// stays within the range of the counters.
    pub fn can_advance(&self, key: Option<Key>, elapsed: u64) -> (fits: bool)
        requires
            self.wf(),
        ensures
            fits == self.fits(key, elapsed),
    {
        match key {
            Some(Key::Escape) => true,
            _ => {
                let tile = match key {
                    Some(k) => self.game.tile_after(k),
                    None => None,
                };
                if !self.gauges.has_room_for(tile) {
                    false
                } else {
                    let mut settled = self.gauges;
                    settled.collect(tile);
                    settled.clamp();
                    settled.is_flat() || !is_tick_due(elapsed) || settled.has_room_for_tick()
                }
            },
        }
    }

    /// One pass of the session, `elapsed` milliseconds after the last tick.
    pub fn advance(
        &mut self,
        key: Option<Key>,
        resized: bool,
        elapsed: u64,
        rng: &mut ThreadRng,
    ) -> (out: Outcome)
        requires
            old(self).wf(),
            old(self).fits(key, elapsed),
        ensures
            final(self).wf(),
            old(self).advanced(*final(self), key, resized, elapsed, out),
    {
        let from = self.game.player_pos();
        let mut out = Outcome {
            next: State::Game,
            moved_from: None,
            collected: None,
            cleared: Vec::new(),
            ticked: false,
            redraw: false,
        };
        match key {
            Some(Key::Escape) => {
                out.next = State::Quit;
                return out;
            },
            Some(k) => {
                let pickup = self.handle_key(k, rng);
                out.collected = pickup.tile;
                out.cleared = pickup.cleared;
                let at = self.game.player_pos();
                if at.x != from.x || at.y != from.y {
                    out.moved_from = Some(from);
                }
            },
            None => {},
        }
        let ghost mid = self.game.cells();
        self.clamp_charge();
        if self.is_over() {
            out.next = State::GameOver;
        } else {
            if is_tick_due(elapsed) {
                self.tick(rng);
                out.ticked = true;
            }
            out.redraw = resized;
        }
        proof {
            assert(resolved(old(self).cells(), mid, key, old(self).player(), out.cleared@));
        }
        out
    }

    /// One pass of the session by the clock: reads from `timer` how long ago
    /// the last tick was, makes the pass, and restarts `timer` if a tick has
    /// run. Where the pass would leave the range of the counters it is not
    /// made, and nothing changes.
    pub fn step(
        &mut self,
        key: Option<Key>,
        resized: bool,
        timer: &mut Timer,
        rng: &mut ThreadRng,
    ) -> (out: Option<Outcome>)
        requires
            old(self).wf(),
        ensures
            final(self).wf(),
            match out {
                Some(o) => exists|elapsed: u64|
                    old(self).fits(key, elapsed) && #[trigger] old(self).advanced(
                        *final(self),
                        key,
                        resized,
                        elapsed,
                        o,
                    ),
                None => final(self).same_as(*old(self)) && exists|elapsed: u64|
                    !#[trigger] old(self).fits(key, elapsed),
            },
    {
        let elapsed: u64 = elapsed_millis(timer);
        if self.can_advance(key, elapsed) {
            let out = self.advance(key, resized, elapsed, rng);
            if out.ticked {
                reset(timer);
            }
            Some(out)
        } else {
            None
        }
    }
}

} // verus!
