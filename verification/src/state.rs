//! The states of the program and the moves between them that the menu and the
//! game-over screen decide.

use vstd::prelude::*;
use crate::input::Key;

verus! {

/// What the program is doing.
#[derive(Clone, Copy, Debug, PartialEq, Eq, Structural)]
pub enum State {
    /// The main menu is shown.
    MainMenu,
    /// A session is being played.
    Game,
    /// A session has ended and its end screen is shown.
    GameOver,
    /// The program is to stop. No state follows.
    Quit,
}

/// What one pass through a screen has decided.
#[derive(Clone, Copy, Debug, PartialEq, Eq, Structural)]
pub struct Turn {
    /// The state of the next pass.
    pub next: State,
    /// The screen is to be drawn again.
    pub redraw: bool,
}

/// The state after the main menu has seen `key`: `Escape` quits, `Enter`
/// starts a session, anything else stays.
pub open spec fn after_menu(key: Option<Key>) -> State {
    match key {
        Some(Key::Escape) => State::Quit,
        Some(Key::Enter) => State::Game,
        _ => State::MainMenu,
    }
}

/// The state after the game-over screen has seen `key`: `Escape` and `Q` go
/// back to the menu, `R` starts a new session, anything else stays.
pub open spec fn after_game_over(key: Option<Key>) -> State {
    match key {
        Some(Key::Escape) => State::MainMenu,
        Some(Key::Q) => State::MainMenu,
        Some(Key::R) => State::Game,
        _ => State::GameOver,
    }
}

/// One pass through the main menu. The menu is drawn again where it stays and
/// the console has changed its size.
pub fn menu_step(key: Option<Key>, resized: bool) -> (turn: Turn)
    ensures
        turn.next == after_menu(key),
        turn.redraw == (resized && turn.next == State::MainMenu),
{
    match key {
        Some(Key::Escape) => Turn { next: State::Quit, redraw: false },
        Some(Key::Enter) => Turn { next: State::Game, redraw: false },
        _ => Turn { next: State::MainMenu, redraw: resized },
    }
}

/// One pass through the game-over screen. The screen is drawn again where it
/// stays and the console has changed its size.
pub fn game_over_step(key: Option<Key>, resized: bool) -> (turn: Turn)
    ensures
        turn.next == after_game_over(key),
        turn.redraw == (resized && turn.next == State::GameOver),
{
    match key {
        Some(Key::Escape) => Turn { next: State::MainMenu, redraw: false },
        Some(Key::Q) => Turn { next: State::MainMenu, redraw: false },
        Some(Key::R) => Turn { next: State::Game, redraw: false },
        _ => Turn { next: State::GameOver, redraw: resized },
    }
}

} // verus!
