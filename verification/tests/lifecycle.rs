use falling_blocks::{Cleanup, Config, Death, Phase, Position, World, UNIT};

fn avatar_at_origin() -> World {
    let mut config = Config::classic();
    config.avatar_start = Position::from_units(0, 0, 0);
    World::setup(config).unwrap()
}

#[test]
fn overlap_detection_scenario() {
    let mut world = avatar_at_origin();
    assert_eq!(world.config().block_half_extent, 2_500_000);
    world.spawn_cubes_at(1, 1, 1);
    world.player_collision_checker();
    assert!(world.death().is_game_over);

    let mut world = avatar_at_origin();
    world.spawn_cubes_at(10, 0, 0);
    world.player_collision_checker();
    assert!(!world.death().is_game_over);
}

#[test]
fn overlap_needs_all_three_axes() {
    let origin = Position::from_units(0, 0, 0);
    let half = 2_500_000;
    assert!(origin.overlaps(&Position::from_units(1, 1, 1), half));
    assert!(origin.overlaps(&Position::from_units(-2, 2, -2), half));
    assert!(!origin.overlaps(&Position::from_units(10, 0, 0), half));
    assert!(!origin.overlaps(&Position::from_units(0, 3, 0), half));
    assert!(!origin.overlaps(&Position::from_units(0, 0, -3), half));
    assert!(!origin.overlaps(&Position::from_units(3, 3, 3), half));
}

#[test]
fn overlap_is_strict_at_the_half_extent() {
    let origin = Position { x: 0, y: 0, z: 0 };
    assert!(origin.overlaps(&Position { x: 2_499_999, y: -2_499_999, z: 0 }, 2_500_000));
    assert!(!origin.overlaps(&Position { x: 2_500_000, y: 0, z: 0 }, 2_500_000));
    assert!(!origin.overlaps(&Position { x: 0, y: -2_500_000, z: 0 }, 2_500_000));
    assert!(!origin.overlaps(&origin, 0));
    assert!(!origin.overlaps(&origin, -1));
    assert!(origin.overlaps(&origin, 1));
}

#[test]
fn overlap_at_the_ends_of_the_number_range() {
    let low = Position { x: i64::MIN, y: i64::MIN, z: i64::MIN };
    let high = Position { x: i64::MAX, y: i64::MAX, z: i64::MAX };
    assert!(!low.overlaps(&high, i64::MAX));
    assert!(!high.overlaps(&low, i64::MAX));
    assert!(high.overlaps(&high, 1));
    assert!(low.overlaps(&Position { x: i64::MIN + 5, y: i64::MIN, z: i64::MIN }, 6));
}

#[test]
fn every_block_is_examined() {
    let mut world = avatar_at_origin();
    world.spawn_cubes_at(10, 0, 0);
    world.spawn_cubes_at(20, 0, 0);
    world.spawn_cubes_at(0, 2, 0);
    world.spawn_cubes_at(1, 1, 1);
    world.player_collision_checker();
    assert!(world.death().is_game_over);
    assert_eq!(world.blocks().len(), 4);
}

#[test]
fn game_over_is_never_undone() {
    let mut world = avatar_at_origin();
    world.spawn_cubes_at(1, 1, 1);
    world.player_collision_checker();
    assert!(world.death().is_game_over);
    // The block falls away from the avatar; the run stays over.
    world.move_cubes(10_000);
    world.player_collision_checker();
    assert!(world.death().is_game_over);
    world.despawn_cubes();
    world.player_collision_checker();
    world.death_scene();
    world.player_collision_checker();
    world.spawn_cubes();
    world.increase_speed();
    world.increase_intensity();
    assert!(world.death().is_game_over);
}

#[test]
fn die_is_idempotent() {
    let mut death = Death { is_game_over: false };
    death.die();
    assert!(death.is_game_over);
    death.die();
    assert!(death.is_game_over);
}

#[test]
fn despawn_by_bound_scenario() {
    let mut world = World::setup(Config::classic()).unwrap();
    assert_eq!(world.config().despawn_y, 55 * UNIT);
    world.spawn_cubes_at(0, 56, 0);
    world.spawn_cubes_at(0, 54, 0);
    assert_eq!(world.cubes().cube_count, 2);
    assert_eq!(world.despawn_cubes(), vec![0]);
    assert_eq!(world.cubes().cube_count, 1);
    assert_eq!(world.blocks().len(), 1);
    assert_eq!(world.blocks()[0].id, 1);
    assert_eq!(world.blocks()[0].position, Position::from_units(0, 54, 0));
}

#[test]
fn despawn_bound_is_strict() {
    let mut world = World::setup(Config::classic()).unwrap();
    world.spawn_cubes_at(0, 55, 0);
    assert_eq!(world.despawn_cubes(), Vec::<u64>::new());
    assert_eq!(world.cubes().cube_count, 1);
    // One length unit further and the block is gone.
    world.move_cubes(0);
    assert_eq!(world.despawn_cubes(), Vec::<u64>::new());
    let mut config = Config::classic();
    config.block_speed = 1;
    let mut world = World::setup(config).unwrap();
    world.spawn_cubes_at(0, 55, 0);
    world.move_cubes(1);
    assert_eq!(world.blocks()[0].position.y, 55 * UNIT + 1);
    assert_eq!(world.despawn_cubes(), vec![0]);
    assert_eq!(world.cubes().cube_count, 0);
}

#[test]
fn despawn_keeps_spawn_order_and_counts_each_block_once() {
    let mut world = World::setup(Config::classic()).unwrap();
    world.spawn_cubes_at(0, 60, 0);
    world.spawn_cubes_at(1, 10, 0);
    world.spawn_cubes_at(2, 70, 0);
    world.spawn_cubes_at(3, 20, 0);
    world.spawn_cubes_at(4, 56, 0);
    assert_eq!(world.despawn_cubes(), vec![0, 2, 4]);
    assert_eq!(world.cubes().cube_count, 2);
    let left: Vec<u64> = world.blocks().iter().map(|block| block.id).collect();
    assert_eq!(left, vec![1, 3]);
}

#[test]
fn second_despawn_check_is_a_no_op() {
    let mut world = World::setup(Config::classic()).unwrap();
    world.spawn_cubes_at(0, 56, 0);
    world.spawn_cubes_at(0, 54, 0);
    assert_eq!(world.despawn_cubes(), vec![0]);
    let blocks = world.blocks().clone();
    let cubes = world.cubes();
    assert_eq!(world.despawn_cubes(), Vec::<u64>::new());
    assert_eq!(world.blocks(), &blocks);
    assert_eq!(world.cubes(), cubes);
}

#[test]
fn despawn_on_an_empty_board() {
    let mut world = World::setup(Config::classic()).unwrap();
    assert_eq!(world.despawn_cubes(), Vec::<u64>::new());
    assert_eq!(world.cubes().cube_count, 0);
}

#[test]
fn checks_commute_in_the_classic_game() {
    let mut first = World::setup(Config::classic()).unwrap();
    first.spawn_cubes_at(0, 56, 0);
    first.spawn_cubes_at(1, 51, 1);
    first.spawn_cubes_at(30, 0, 30);
    let mut second = first.clone();
    let destroyed_first = first.despawn_cubes();
    first.player_collision_checker();
    second.player_collision_checker();
    let destroyed_second = second.despawn_cubes();
    assert_eq!(destroyed_first, destroyed_second);
    assert_eq!(first.blocks(), second.blocks());
    assert_eq!(first.cubes(), second.cubes());
    assert_eq!(first.death(), second.death());
    assert!(first.death().is_game_over);
}

#[test]
fn cleanup_happens_exactly_once() {
    let mut world = avatar_at_origin();
    world.spawn_cubes_at(1, 1, 1);
    world.spawn_cubes_at(30, -100, 30);
    world.spawn_cubes_at(-30, -100, -30);
    world.move_cubes(0);
    world.move_cubes(0);
    assert_eq!(world.death_scene(), None);
    assert_eq!(world.phase(), Phase::Running);

    world.player_collision_checker();
    assert_eq!(world.phase(), Phase::CleaningUp);
    assert_eq!(world.counter().count, 0);

    let report = world.death_scene();
    assert_eq!(report, Some(Cleanup { destroyed: vec![0, 1, 2], score: 2 }));
    assert!(world.blocks().is_empty());
    assert_eq!(world.cubes().cube_count, 0);
    assert_eq!(world.counter().count, 1);
    assert_eq!(world.phase(), Phase::Ended);

    for _ in 0..5 {
        assert_eq!(world.death_scene(), None);
        world.move_cubes(16);
        world.player_collision_checker();
        world.despawn_cubes();
        world.spawn_cubes();
    }
    assert_eq!(world.counter().count, 1);
    assert_eq!(world.phase(), Phase::Ended);
    assert!(world.blocks().is_empty());
    assert_eq!(world.score().score, 2);
}

#[test]
fn cleanup_waits_until_it_is_observed() {
    let mut world = avatar_at_origin();
    world.spawn_cubes_at(0, 0, 0);
    world.player_collision_checker();
    world.move_cubes(16);
    world.increase_speed();
    world.increase_intensity();
    world.despawn_cubes();
    assert_eq!(world.phase(), Phase::CleaningUp);
    assert_eq!(world.blocks().len(), 1);
    assert_eq!(world.death_scene(), Some(Cleanup { destroyed: vec![0], score: 0 }));
}

#[test]
fn cleanup_of_an_empty_board_still_reports_the_score() {
    let mut world = avatar_at_origin();
    world.spawn_cubes_at(0, 0, 0);
    world.move_cubes(0);
    world.player_collision_checker();
    world.move_cubes(60_000);
    assert_eq!(world.despawn_cubes(), vec![0]);
    assert_eq!(world.death_scene(), Some(Cleanup { destroyed: vec![], score: 1 }));
    assert_eq!(world.death_scene(), None);
}

#[test]
fn despawn_after_cleanup_destroys_nothing() {
    let mut world = avatar_at_origin();
    world.spawn_cubes_at(0, 0, 0);
    world.spawn_cubes_at(0, 60, 0);
    world.player_collision_checker();
    assert_eq!(world.death_scene().unwrap().destroyed, vec![0, 1]);
    assert_eq!(world.despawn_cubes(), Vec::<u64>::new());
    assert_eq!(world.cubes().cube_count, 0);
}
