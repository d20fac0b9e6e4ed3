use ash_dash::consts::{STATUS_BAR_HEIGHT, WORLD_HEIGHT, WORLD_WIDTH};
use ash_dash::field::Field;
use ash_dash::game::Game;
use ash_dash::input::Key;
use ash_dash::util::Position;

#[test]
fn add_x_moves_by_one() {
    let mut p = Position { x: 15, y: 15 };
    p.add_x(1);
    assert_eq!(p, Position { x: 16, y: 15 });
    p.add_x(-1);
    assert_eq!(p, Position { x: 15, y: 15 });
}

#[test]
fn add_x_stops_at_the_left_edge() {
    let mut p = Position { x: 0, y: 7 };
    p.add_x(-1);
    assert_eq!(p, Position { x: 0, y: 7 });
    p.add_x(-500);
    assert_eq!(p.x, 0);
}

#[test]
fn add_x_stops_at_the_right_edge() {
    let mut p = Position { x: WORLD_WIDTH - 1, y: 7 };
    p.add_x(1);
    assert_eq!(p, Position { x: WORLD_WIDTH - 1, y: 7 });
    p.add_x(i16::MAX);
    assert_eq!(p.x, WORLD_WIDTH - 1);
}

#[test]
fn add_y_never_reaches_row_zero() {
    let mut p = Position { x: 4, y: 1 };
    p.add_y(-1);
    assert_eq!(p, Position { x: 4, y: 1 });
    p.add_y(i16::MIN);
    assert_eq!(p.y, 1);
}

#[test]
fn add_y_stops_above_the_status_bar() {
    let lowest = WORLD_HEIGHT - STATUS_BAR_HEIGHT - 1;
    let mut p = Position { x: 4, y: lowest };
    p.add_y(1);
    assert_eq!(p, Position { x: 4, y: lowest });
    p.add_y(i16::MAX);
    assert_eq!(p.y, lowest);
    assert_eq!(lowest, 24);
}

#[test]
fn add_brings_a_stray_position_back() {
    let mut p = Position { x: i16::MAX, y: i16::MIN };
    p.add_x(i16::MAX);
    p.add_y(i16::MIN);
    assert_eq!(p, Position { x: WORLD_WIDTH - 1, y: 1 });
}

#[test]
fn many_moves_stay_in_bounds() {
    let mut p = Position { x: 15, y: 15 };
    let deltas: [(i16, i16); 8] = [
        (1, 1),
        (-40, 3),
        (200, -200),
        (-1, -1),
        (7, 90),
        (-32768, 32767),
        (32767, -32768),
        (0, 0),
    ];
    for round in 0..50i16 {
        for (dx, dy) in deltas.iter() {
            p.add_x(dx.saturating_add(round % 3));
            p.add_y(dy.saturating_sub(round % 2));
            assert!(0 <= p.x && p.x <= WORLD_WIDTH - 1);
            assert!(1 <= p.y && p.y <= WORLD_HEIGHT - STATUS_BAR_HEIGHT - 1);
        }
    }
}

#[test]
fn a_new_game_has_the_player_on_the_start_cell() {
    let game = Game::new();
    assert_eq!(game.player_pos(), Position { x: 15, y: 15 });
    assert_eq!(game.tile_here(), None);
}

#[test]
fn arrow_keys_move_the_player() {
    let mut game = Game::new();
    game.update(Key::Left);
    assert_eq!(game.player_pos(), Position { x: 14, y: 15 });
    game.update(Key::Up);
    assert_eq!(game.player_pos(), Position { x: 14, y: 14 });
    game.update(Key::Right);
    assert_eq!(game.player_pos(), Position { x: 15, y: 14 });
    game.update(Key::Down);
    assert_eq!(game.player_pos(), Position { x: 15, y: 15 });
}

#[test]
fn other_keys_do_not_move_the_player() {
    let mut game = Game::new();
    for key in [Key::Enter, Key::Escape, Key::Q, Key::R, Key::Other] {
        game.update(key);
        assert_eq!(game.player_pos(), Position { x: 15, y: 15 });
    }
}

#[test]
fn from_parts_refuses_an_illegal_position() {
    assert!(Game::from_parts(Position { x: 0, y: 0 }, Field::new()).is_none());
    assert!(Game::from_parts(Position { x: -1, y: 3 }, Field::new()).is_none());
    assert!(Game::from_parts(Position { x: WORLD_WIDTH, y: 3 }, Field::new()).is_none());
    assert!(Game::from_parts(Position { x: 3, y: 25 }, Field::new()).is_none());
    assert!(Game::from_parts(Position { x: 0, y: 1 }, Field::new()).is_some());
    assert!(Game::from_parts(Position { x: WORLD_WIDTH - 1, y: 24 }, Field::new()).is_some());
}

#[test]
fn the_tile_in_reach_is_the_one_above() {
    let mut field = Field::new();
    field.set(15, 14, Some(ash_dash::field::Powerup::Reset));
    field.set(14, 14, Some(ash_dash::field::Powerup::Charge));
    field.set(15, 15, Some(ash_dash::field::Powerup::Cleanup));
    let game = Game::from_parts(Position { x: 15, y: 15 }, field).unwrap();
    assert_eq!(game.tile_here(), Some(ash_dash::field::Powerup::Reset));
    assert_eq!(game.tile_after(Key::Other), Some(ash_dash::field::Powerup::Reset));
    assert_eq!(game.tile_after(Key::Left), Some(ash_dash::field::Powerup::Charge));
    assert_eq!(game.tile_after(Key::Down), Some(ash_dash::field::Powerup::Cleanup));
    assert_eq!(game.tile_after(Key::Up), None);
    assert_eq!(game.tile_after(Key::Right), None);
    assert_eq!(game.player_pos(), Position { x: 15, y: 15 });
}

#[test]
fn the_tile_in_reach_at_the_edges() {
    let mut field = Field::new();
    field.set(0, 0, Some(ash_dash::field::Powerup::Charge));
    field.set(99, 23, Some(ash_dash::field::Powerup::Reset));
    let game = Game::from_parts(Position { x: 0, y: 1 }, field).unwrap();
    assert_eq!(game.tile_here(), Some(ash_dash::field::Powerup::Charge));
    assert_eq!(game.tile_after(Key::Up), Some(ash_dash::field::Powerup::Charge));
    assert_eq!(game.tile_after(Key::Left), Some(ash_dash::field::Powerup::Charge));
    let mut field = Field::new();
    field.set(99, 23, Some(ash_dash::field::Powerup::Reset));
    let game = Game::from_parts(Position { x: 99, y: 24 }, field).unwrap();
    assert_eq!(game.tile_after(Key::Down), Some(ash_dash::field::Powerup::Reset));
    assert_eq!(game.tile_after(Key::Right), Some(ash_dash::field::Powerup::Reset));
}
