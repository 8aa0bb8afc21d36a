use cube_rain::scene::{despawn_targets, visible_count, Cube, DESPAWN_Y_MILLI, SPAWN_Y_MILLI};
use cube_rain::spawn::{random_color, random_spawn_seed, spawned_cube};
use cube_rain::text::{cube_count_text, display_cube_count, to_decimal};
use cube_rain::timer::{SpawnTimer, SPAWN_INTERVAL_MS};

fn cube(id: u64, y_milli: i64) -> Cube {
    Cube { id, y_milli }
}

#[test]
fn despawn_empty_scene() {
    let cubes: Vec<Cube> = Vec::new();
    assert_eq!(despawn_targets(&cubes), Vec::<u64>::new());
    assert_eq!(visible_count(&cubes), 0);
}

#[test]
fn despawn_picks_only_fallen_cubes_in_order() {
    let cubes = vec![
        cube(1, -25_000),
        cube(2, 0),
        cube(3, -20_001),
        cube(4, 19_000),
        cube(5, -30_000),
    ];
    assert_eq!(despawn_targets(&cubes), vec![1, 3, 5]);
}

#[test]
fn cube_exactly_at_threshold_is_neither_culled_nor_counted() {
    let cubes = vec![cube(1, DESPAWN_Y_MILLI), cube(2, 0)];
    assert_eq!(despawn_targets(&cubes), Vec::<u64>::new());
    assert_eq!(visible_count(&cubes), 1);
}

#[test]
fn visible_count_ignores_fallen_cubes() {
    let cubes = vec![cube(1, 20_000), cube(2, -20_001), cube(3, -19_999), cube(4, 5)];
    assert_eq!(visible_count(&cubes), 3);
}

#[test]
fn cull_and_count_partition_a_scene_with_no_cube_at_the_threshold() {
    let cubes = vec![
        cube(1, -25_000),
        cube(2, 0),
        cube(3, -20_001),
        cube(4, 19_000),
        cube(5, -19_999),
    ];
    assert_eq!(despawn_targets(&cubes).len() + visible_count(&cubes), cubes.len());
}

#[test]
fn fresh_timer_is_due_once_time_has_elapsed() {
    let timer = SpawnTimer::new();
    assert!(!timer.is_due(0));
    assert!(timer.is_due(1));
}

#[test]
fn tick_spawns_and_moves_the_deadline_one_interval_ahead() {
    let mut timer = SpawnTimer::new();
    assert!(timer.tick(250));
    assert_eq!(timer.next_spawn_ms, 250 + SPAWN_INTERVAL_MS);
}

#[test]
fn tick_before_the_deadline_leaves_the_timer_unchanged() {
    let mut timer = SpawnTimer::new();
    assert!(timer.tick(250));
    assert!(!timer.tick(300));
    assert_eq!(timer.next_spawn_ms, 350);
    assert!(!timer.tick(350));
    assert_eq!(timer.next_spawn_ms, 350);
    assert!(timer.tick(351));
    assert_eq!(timer.next_spawn_ms, 451);
}

#[test]
fn decimal_rendering_of_small_and_large_numbers() {
    assert_eq!(to_decimal(0), "0");
    assert_eq!(to_decimal(7), "7");
    assert_eq!(to_decimal(10), "10");
    assert_eq!(to_decimal(123), "123");
    assert_eq!(to_decimal(1_000), "1000");
    assert_eq!(to_decimal(u64::MAX), "18446744073709551615");
}

#[test]
fn count_line_has_the_literal_prefix_and_the_decimal_count() {
    assert_eq!(cube_count_text(0), "Cube Count: 0");
    assert_eq!(cube_count_text(42), "Cube Count: 42");
}

#[test]
fn display_counts_the_cubes_above_the_threshold() {
    let cubes = vec![cube(1, 0), cube(2, -20_001), cube(3, 12_500)];
    assert_eq!(display_cube_count(&cubes), "Cube Count: 2");
}

#[test]
fn spawned_cube_starts_at_the_spawn_height_and_is_visible() {
    let c = spawned_cube(77);
    assert_eq!(c.id, 77);
    assert_eq!(c.y_milli, SPAWN_Y_MILLI);
    let cubes = vec![c];
    assert_eq!(despawn_targets(&cubes), Vec::<u64>::new());
    assert_eq!(visible_count(&cubes), 1);
}

#[test]
fn random_draws_produce_a_seed_with_all_fields_set() {
    let color = random_color();
    let seed = random_spawn_seed();
    // Nothing of the values can be pinned down; the draw itself must work.
    let _ = (color.red, color.green, color.blue);
    let _ = (seed.color, seed.angle_frac, seed.radius_frac);
}
