//! The counters of a session: the charge of the battery, the ash rate and the
//! number of tiles collected, and what a pickup, the cap and a tick do to them.

use vstd::prelude::*;
use crate::consts::{START_CHARGE, CHARGE_CAP, CHARGE_GAIN, TICK_COST};
use crate::field::{Powerup, Tile};

verus! {

/// Half of `charge`, rounded towards zero.
pub open spec fn halved(charge: int) -> int {
    if charge >= 0 {
        charge / 2
    } else {
        -((-charge) / 2)
    }
}

/// The counters of a session.
#[derive(Clone, Copy, Debug, PartialEq, Eq, Structural)]
pub struct Gauges {
    /// What is left in the battery. The session is over when it falls below one.
    pub charge: i16,
    /// How many ash tiles fall on each tick.
    pub ash_rate: u16,
    /// How many tiles the player has collected.
    pub powerups_collected: u16,
}

impl Gauges {
    /// The counters at the start of a session.
    pub open spec fn fresh() -> Gauges {
        Gauges { charge: START_CHARGE, ash_rate: 0, powerups_collected: 0 }
    }

    /// Collecting `tile` stays within the range of the counters.
    pub open spec fn can_collect(self, tile: Tile) -> bool {
        match tile {
            None => true,
            Some(kind) => {
                &&& self.powerups_collected < u16::MAX
                &&& kind == Powerup::Charge ==> self.charge + CHARGE_GAIN <= i16::MAX
                &&& kind == Powerup::Cleanup ==> 2 * self.ash_rate <= u16::MAX
            },
        }
    }

    /// The counters after `tile` was collected. A `Charge` adds `CHARGE_GAIN`
    /// to the charge, ash halves it, a `Reset` sets the ash rate to zero and a
    /// `Cleanup` doubles it; each counts as one tile collected. Nothing
    /// changes where there was no tile.
    pub open spec fn collected(self, tile: Tile) -> Gauges {
        match tile {
            None => self,
            Some(Powerup::Charge) => Gauges {
                charge: (self.charge + CHARGE_GAIN) as i16,
                powerups_collected: (self.powerups_collected + 1) as u16,
                ..self
            },
            Some(Powerup::Destroyed) => Gauges {
                charge: halved(self.charge as int) as i16,
                powerups_collected: (self.powerups_collected + 1) as u16,
                ..self
            },
            Some(Powerup::Reset) => Gauges {
                ash_rate: 0,
                powerups_collected: (self.powerups_collected + 1) as u16,
                ..self
            },
            Some(Powerup::Cleanup) => Gauges {
                ash_rate: (2 * self.ash_rate) as u16,
                powerups_collected: (self.powerups_collected + 1) as u16,
                ..self
            },
        }
    }

    /// The counters with the charge cut down to `CHARGE_CAP`.
    pub open spec fn capped(self) -> Gauges {
        Gauges { charge: if self.charge > CHARGE_CAP { CHARGE_CAP } else { self.charge }, ..self }
    }

    /// The battery is flat: the session is over.
    pub open spec fn flat(self) -> bool {
        self.charge < 1
    }

    /// A tick stays within the range of the counters.
    pub open spec fn can_tick(self) -> bool {
        self.charge - TICK_COST >= i16::MIN && self.ash_rate < u16::MAX
    }

    /// The counters after a tick: the charge is down by `TICK_COST` and the
    /// ash rate up by one.
    pub open spec fn ticked(self) -> Gauges {
        Gauges {
            charge: (self.charge - TICK_COST) as i16,
            ash_rate: (self.ash_rate + 1) as u16,
            ..self
        }
    }

    /// The counters at the start of a session.
    pub fn new() -> (gauges: Gauges)
        ensures
            gauges == Gauges::fresh(),
    {
        Gauges { charge: START_CHARGE, ash_rate: 0, powerups_collected: 0 }
    }

    /// Whether collecting `tile` stays within the range of the counters.
    pub fn has_room_for(&self, tile: Tile) -> (fits: bool)
        ensures
            fits == self.can_collect(tile),
    {
        match tile {
            None => true,
            Some(kind) => {
                self.powerups_collected < u16::MAX && match kind {
                    Powerup::Charge => self.charge <= i16::MAX - CHARGE_GAIN,
                    Powerup::Cleanup => self.ash_rate <= u16::MAX / 2,
                    _ => true,
                }
            },
        }
    }

    /// Applies the effect of collecting `tile`.
    pub fn collect(&mut self, tile: Tile)
        requires
            old(self).can_collect(tile),
        ensures
            *final(self) == old(self).collected(tile),
    {
        match tile {
            None => {},
            Some(kind) => {
                self.powerups_collected = self.powerups_collected + 1;
                match kind {
                    Powerup::Charge => {
                        self.charge = self.charge + CHARGE_GAIN;
                    },
                    Powerup::Destroyed => {
                        self.charge = half(self.charge);
                    },
                    Powerup::Reset => {
                        self.ash_rate = 0;
                    },
                    Powerup::Cleanup => {
                        self.ash_rate = self.ash_rate * 2;
                    },
                }
            },
        }
    }

    /// Cuts the charge down to `CHARGE_CAP`.
    pub fn clamp(&mut self)
        ensures
            *final(self) == old(self).capped(),
            final(self).charge <= CHARGE_CAP,
    {
        if self.charge > CHARGE_CAP {
            self.charge = CHARGE_CAP;
        }
    }

    /// Whether the battery is flat.
    pub fn is_flat(&self) -> (over: bool)
        ensures
            over == self.flat(),
    {
        self.charge < 1
    }

    /// Whether a tick stays within the range of the counters.
    pub fn has_room_for_tick(&self) -> (fits: bool)
        ensures
            fits == self.can_tick(),
    {
        self.charge >= i16::MIN + TICK_COST && self.ash_rate < u16::MAX
    }

    /// Applies a tick.
    pub fn tick(&mut self)
        requires
            old(self).can_tick(),
        ensures
            *final(self) == old(self).ticked(),
    {
        self.charge = self.charge - TICK_COST;
        self.ash_rate = self.ash_rate + 1;
    }
}

/// Half of `charge`, rounded towards zero.
fn half(charge: i16) -> (h: i16)
    ensures
        h == halved(charge as int),
{
    if charge >= 0 {
        charge / 2
    } else if charge == i16::MIN {
        i16::MIN / 2
    } else {
        -((-charge) / 2)
    }
}

} // verus!
