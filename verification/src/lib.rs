//! Ash Dash: the simulation core of a small terminal game.
//!
//! A player walks over a fixed grid and collects power-ups while ash falls on
//! the grid and a battery runs down. This crate holds the rules of that game:
//! the grid, the spawner, the battery and ash simulation, movement and pickup,
//! and the menu / play / game-over state machine. Drawing and keyboard capture
//! are left to the program that drives it.
//!
//! The program makes one pass after the other. In the menu and on the
//! game-over screen a pass is [`state::menu_step`] or
//! [`state::game_over_step`]; in play it is [`session::Session::step`], which
//! moves the player, resolves the pickup, caps the charge, ends the session on
//! a flat battery and runs the tick that is due. Random numbers come from the
//! `rand` crate and the stopwatch from the `chroniker` crate; what is believed
//! of them stands in [`random`] and [`clock`], and everything else is proved.
//! The wall clock is read by the program, which hands its time over.

pub mod consts;
pub mod util;
pub mod random;
pub mod clock;
pub mod field;
pub mod spawner;
pub mod cleanup;
pub mod counting;
pub mod input;
pub mod game;
pub mod gauges;
pub mod timing;
pub mod state;
pub mod session;
pub mod laws;
