use ash_dash::consts::{RESERVED_ROWS, WORLD_HEIGHT, WORLD_WIDTH};
use ash_dash::field::{Field, Powerup};
use ash_dash::cleanup::{cleanup, clear_ash_at, sweep};
use ash_dash::spawner::{
    drop_ash, drop_ash_at, drop_ash_many, spawn, spawn_at, spawn_charge, spawn_cleanup,
    spawn_many, spawn_reset,
};
use ash_dash::util::Position;

const KINDS: [Powerup; 4] =
    [Powerup::Cleanup, Powerup::Charge, Powerup::Reset, Powerup::Destroyed];

fn fill_playable(field: &mut Field, kind: Powerup) {
    for x in 0..WORLD_WIDTH {
        for y in 0..WORLD_HEIGHT - RESERVED_ROWS {
            field.set(x, y, Some(kind));
        }
    }
}

fn snapshot(field: &Field) -> Vec<Option<Powerup>> {
    let mut cells = Vec::new();
    for x in 0..WORLD_WIDTH {
        for y in 0..WORLD_HEIGHT {
            cells.push(field.get(x, y));
        }
    }
    cells
}

#[test]
fn a_new_field_is_empty() {
    let field = Field::new();
    for kind in KINDS {
        assert_eq!(field.count_of(kind), 0);
    }
    assert_eq!(field.get(0, 0), None);
    assert_eq!(field.get(WORLD_WIDTH - 1, WORLD_HEIGHT - 1), None);
}

#[test]
fn set_changes_one_cell() {
    let mut field = Field::new();
    field.set(5, 3, Some(Powerup::Reset));
    assert_eq!(field.get(5, 3), Some(Powerup::Reset));
    assert_eq!(field.get(3, 5), None);
    assert_eq!(field.get(5, 4), None);
    assert_eq!(field.get(6, 3), None);
    assert_eq!(field.count_of(Powerup::Reset), 1);
    field.set(5, 3, Some(Powerup::Destroyed));
    assert_eq!(field.count_of(Powerup::Reset), 0);
    assert_eq!(field.count_of(Powerup::Destroyed), 1);
    field.set(5, 3, None);
    assert_eq!(field.count_of(Powerup::Destroyed), 0);
}

#[test]
fn count_of_counts_each_kind_apart() {
    let mut field = Field::new();
    field.set(0, 0, Some(Powerup::Charge));
    field.set(99, 29, Some(Powerup::Charge));
    field.set(1, 0, Some(Powerup::Cleanup));
    field.set(0, 1, Some(Powerup::Destroyed));
    assert_eq!(field.count_of(Powerup::Charge), 2);
    assert_eq!(field.count_of(Powerup::Cleanup), 1);
    assert_eq!(field.count_of(Powerup::Destroyed), 1);
    assert_eq!(field.count_of(Powerup::Reset), 0);
}

#[test]
fn spawn_at_takes_an_empty_cell_only() {
    let mut field = Field::new();
    assert!(spawn_at(&mut field, Powerup::Charge, 3, 3));
    assert_eq!(field.get(3, 3), Some(Powerup::Charge));
    assert!(!spawn_at(&mut field, Powerup::Reset, 3, 3));
    assert_eq!(field.get(3, 3), Some(Powerup::Charge));
    assert!(!spawn_at(&mut field, Powerup::Charge, 3, 3));
    assert_eq!(field.count_of(Powerup::Charge), 1);
}

#[test]
fn drop_ash_at_covers_anything_but_ash() {
    let mut field = Field::new();
    assert!(drop_ash_at(&mut field, 2, 2));
    assert_eq!(field.get(2, 2), Some(Powerup::Destroyed));
    assert!(!drop_ash_at(&mut field, 2, 2));
    field.set(4, 4, Some(Powerup::Cleanup));
    assert!(drop_ash_at(&mut field, 4, 4));
    assert_eq!(field.get(4, 4), Some(Powerup::Destroyed));
    assert_eq!(field.count_of(Powerup::Cleanup), 0);
    assert_eq!(field.count_of(Powerup::Destroyed), 2);
}

#[test]
fn clear_ash_at_goes_by_the_roll() {
    let mut field = Field::new();
    field.set(2, 2, Some(Powerup::Destroyed));
    assert!(!clear_ash_at(&mut field, 2, 2, 66));
    assert!(!clear_ash_at(&mut field, 2, 2, 99));
    assert_eq!(field.get(2, 2), Some(Powerup::Destroyed));
    assert!(clear_ash_at(&mut field, 2, 2, 65));
    assert_eq!(field.get(2, 2), None);
    field.set(2, 2, Some(Powerup::Destroyed));
    assert!(clear_ash_at(&mut field, 2, 2, 0));
    assert_eq!(field.get(2, 2), None);
}

#[test]
fn clear_ash_at_leaves_other_tiles() {
    let mut field = Field::new();
    field.set(2, 2, Some(Powerup::Charge));
    assert!(!clear_ash_at(&mut field, 2, 2, 0));
    assert_eq!(field.get(2, 2), Some(Powerup::Charge));
    assert!(!clear_ash_at(&mut field, 3, 3, 0));
    assert_eq!(field.get(3, 3), None);
}

#[test]
fn spawn_adds_one_tile_and_changes_nothing_else() {
    let mut rng = rand::thread_rng();
    let mut field = Field::new();
    field.set(7, 7, Some(Powerup::Reset));
    field.set(8, 7, Some(Powerup::Destroyed));
    for round in 0..200 {
        let kind = KINDS[round % 3];
        let before = snapshot(&field);
        assert!(spawn(&mut field, kind, &mut rng));
        let after = snapshot(&field);
        let mut changed = 0;
        for i in 0..before.len() {
            if before[i] != after[i] {
                changed += 1;
                assert_eq!(before[i], None);
                assert_eq!(after[i], Some(kind));
                assert!((i % (WORLD_HEIGHT as usize)) < (WORLD_HEIGHT - RESERVED_ROWS) as usize);
            }
        }
        assert_eq!(changed, 1);
    }
    assert_eq!(field.get(7, 7), Some(Powerup::Reset));
    assert_eq!(field.get(8, 7), Some(Powerup::Destroyed));
}

#[test]
fn spawn_counts_go_up_by_one() {
    let mut rng = rand::thread_rng();
    let mut field = Field::new();
    assert!(spawn_charge(&mut field, &mut rng));
    assert_eq!(field.count_of(Powerup::Charge), 1);
    assert!(spawn_cleanup(&mut field, &mut rng));
    assert_eq!(field.count_of(Powerup::Cleanup), 1);
    assert!(spawn_reset(&mut field, &mut rng));
    assert_eq!(field.count_of(Powerup::Reset), 1);
    assert!(spawn_reset(&mut field, &mut rng));
    assert_eq!(field.count_of(Powerup::Reset), 2);
    assert_eq!(field.count_of(Powerup::Charge), 1);
    assert_eq!(field.count_of(Powerup::Destroyed), 0);
}

#[test]
fn spawn_finds_the_last_empty_cell() {
    let mut rng = rand::thread_rng();
    let mut field = Field::new();
    fill_playable(&mut field, Powerup::Destroyed);
    field.set(61, 17, None);
    assert!(spawn(&mut field, Powerup::Charge, &mut rng));
    assert_eq!(field.get(61, 17), Some(Powerup::Charge));
    assert_eq!(field.count_of(Powerup::Charge), 1);
}

#[test]
fn spawn_fails_on_a_full_field_and_leaves_it() {
    let mut rng = rand::thread_rng();
    let mut field = Field::new();
    fill_playable(&mut field, Powerup::Reset);
    let before = snapshot(&field);
    assert!(!spawn(&mut field, Powerup::Charge, &mut rng));
    assert_eq!(snapshot(&field), before);
}

#[test]
fn spawn_keeps_off_the_reserved_rows() {
    let mut rng = rand::thread_rng();
    let mut field = Field::new();
    spawn_many(&mut field, Powerup::Charge, 2400, &mut rng);
    assert_eq!(field.count_of(Powerup::Charge), 2400);
    for x in 0..WORLD_WIDTH {
        for y in 0..WORLD_HEIGHT {
            let expected =
                if y < WORLD_HEIGHT - RESERVED_ROWS { Some(Powerup::Charge) } else { None };
            assert_eq!(field.get(x, y), expected);
        }
    }
    spawn_many(&mut field, Powerup::Charge, 5, &mut rng);
    assert_eq!(field.count_of(Powerup::Charge), 2400);
}

#[test]
fn spawn_many_spawns_that_many() {
    let mut rng = rand::thread_rng();
    let mut field = Field::new();
    spawn_many(&mut field, Powerup::Cleanup, 10, &mut rng);
    spawn_many(&mut field, Powerup::Reset, 0, &mut rng);
    assert_eq!(field.count_of(Powerup::Cleanup), 10);
    assert_eq!(field.count_of(Powerup::Reset), 0);
}

#[test]
fn drop_ash_adds_one_ash_tile() {
    let mut rng = rand::thread_rng();
    let mut field = Field::new();
    for n in 1..=300 {
        assert!(drop_ash(&mut field, &mut rng));
        assert_eq!(field.count_of(Powerup::Destroyed), n);
    }
}

#[test]
fn drop_ash_covers_other_tiles() {
    let mut rng = rand::thread_rng();
    let mut field = Field::new();
    fill_playable(&mut field, Powerup::Charge);
    assert!(drop_ash(&mut field, &mut rng));
    assert_eq!(field.count_of(Powerup::Destroyed), 1);
    assert_eq!(field.count_of(Powerup::Charge), 2399);
}

#[test]
fn drop_ash_fails_when_all_is_ash() {
    let mut rng = rand::thread_rng();
    let mut field = Field::new();
    fill_playable(&mut field, Powerup::Destroyed);
    assert!(!drop_ash(&mut field, &mut rng));
    assert_eq!(field.count_of(Powerup::Destroyed), 2400);
    field.set(0, 23, Some(Powerup::Reset));
    assert!(drop_ash(&mut field, &mut rng));
    assert_eq!(field.get(0, 23), Some(Powerup::Destroyed));
}

#[test]
fn drop_ash_many_stops_at_a_full_field() {
    let mut rng = rand::thread_rng();
    let mut field = Field::new();
    drop_ash_many(&mut field, 7, &mut rng);
    assert_eq!(field.count_of(Powerup::Destroyed), 7);
    drop_ash_many(&mut field, 3000, &mut rng);
    assert_eq!(field.count_of(Powerup::Destroyed), 2400);
}

#[test]
fn sweep_clears_ash_and_reports_it() {
    let mut rng = rand::thread_rng();
    let mut field = Field::new();
    fill_playable(&mut field, Powerup::Destroyed);
    field.set(10, 10, Some(Powerup::Charge));
    field.set(11, 10, None);
    field.set(12, 28, Some(Powerup::Destroyed));
    let before = snapshot(&field);
    let removed = sweep(&mut field, &mut rng);
    let after = snapshot(&field);
    let mut expected: Vec<Position> = Vec::new();
    for i in 0..before.len() {
        if before[i] != after[i] {
            assert_eq!(before[i], Some(Powerup::Destroyed));
            assert_eq!(after[i], None);
            let h = WORLD_HEIGHT as usize;
            expected.push(Position { x: (i / h) as i16, y: (i % h) as i16 });
        }
    }
    assert_eq!(removed, expected);
    assert_eq!(field.get(10, 10), Some(Powerup::Charge));
    assert_eq!(field.count_of(Powerup::Destroyed) + removed.len(), 2399);
}

#[test]
fn cleanup_leaves_about_a_third_of_the_ash() {
    let mut rng = rand::thread_rng();
    let mut left = 0usize;
    let mut total = 0usize;
    for _ in 0..20 {
        let mut field = Field::new();
        drop_ash_many(&mut field, 2000, &mut rng);
        let removed = cleanup(&mut field, &mut rng);
        assert_eq!(field.count_of(Powerup::Cleanup), 1);
        assert_eq!(field.count_of(Powerup::Destroyed) + removed.len(), 2000);
        left += field.count_of(Powerup::Destroyed);
        total += 2000;
    }
    let share = left as f64 / total as f64;
    assert!(share > 0.31 && share < 0.37, "share of ash left: {}", share);
}

#[test]
fn cleanup_on_a_field_without_ash_only_spawns() {
    let mut rng = rand::thread_rng();
    let mut field = Field::new();
    field.set(9, 9, Some(Powerup::Charge));
    let removed = cleanup(&mut field, &mut rng);
    assert!(removed.is_empty());
    assert_eq!(field.count_of(Powerup::Cleanup), 1);
    assert_eq!(field.get(9, 9), Some(Powerup::Charge));
}

#[test]
fn spawned_tiles_are_scattered() {
    let mut rng = rand::thread_rng();
    let mut field = Field::new();
    spawn_many(&mut field, Powerup::Charge, 30, &mut rng);
    let mut in_first_columns = 0;
    let mut columns: Vec<i16> = Vec::new();
    for x in 0..WORLD_WIDTH {
        for y in 0..WORLD_HEIGHT {
            if field.get(x, y) == Some(Powerup::Charge) {
                if x < 2 {
                    in_first_columns += 1;
                }
                if !columns.contains(&x) {
                    columns.push(x);
                }
            }
        }
    }
    assert!(in_first_columns < 30);
    assert!(columns.len() > 5);
}

#[test]
fn ash_is_scattered() {
    let mut rng = rand::thread_rng();
    let mut field = Field::new();
    drop_ash_many(&mut field, 30, &mut rng);
    let mut rows: Vec<i16> = Vec::new();
    for x in 0..WORLD_WIDTH {
        for y in 0..WORLD_HEIGHT {
            if field.get(x, y) == Some(Powerup::Destroyed) && !rows.contains(&y) {
                rows.push(y);
            }
        }
    }
    assert!(rows.len() > 3);
}
