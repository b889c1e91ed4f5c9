use falling_blocks::{Config, Keys, Position, World};

#[test]
fn score_counts_ticks_survived() {
    let mut world = World::setup(Config::classic()).unwrap();
    for tick in 1..=25u64 {
        world.move_cubes(10);
        assert_eq!(world.score().score, tick);
    }
}

#[test]
fn only_motion_ticks_score() {
    let mut world = World::setup(Config::classic()).unwrap();
    world.spawn_cubes();
    world.move_camera(Keys { left: true, right: false, back: false, forward: true }, 16);
    world.despawn_cubes();
    world.player_collision_checker();
    world.death_scene();
    world.increase_speed();
    world.increase_intensity();
    assert_eq!(world.score().score, 0);
    world.move_cubes(16);
    assert_eq!(world.score().score, 1);
}

#[test]
fn score_freezes_at_game_over() {
    let mut config = Config::classic();
    config.avatar_start = Position::from_units(0, 0, 0);
    let mut world = World::setup(config).unwrap();
    world.spawn_cubes_at(0, -1, 0);
    world.move_cubes(50);
    world.move_cubes(50);
    world.move_cubes(50);
    assert_eq!(world.score().score, 3);
    world.player_collision_checker();
    assert!(world.death().is_game_over);
    for _ in 0..10 {
        world.move_cubes(50);
        world.spawn_cubes();
        world.despawn_cubes();
        world.death_scene();
        assert_eq!(world.score().score, 3);
    }
}

#[test]
fn scorer_alone_moves_nothing() {
    let mut world = World::setup(Config::classic()).unwrap();
    world.spawn_cubes_at(0, -150, 0);
    let blocks = world.blocks().clone();
    assert!(world.score_tick_fits());
    world.score_tick();
    world.score_tick();
    assert_eq!(world.score().score, 2);
    assert_eq!(world.blocks(), &blocks);
}

#[test]
fn scorer_after_the_overlap_check_leaves_out_the_fatal_tick() {
    let mut config = Config::classic();
    config.avatar_start = Position::from_units(0, 0, 0);
    let mut world = World::setup(config).unwrap();
    // Three units above the avatar, falling one unit per tick of 100 ms: the
    // block is around the avatar after the first tick.
    world.spawn_cubes_at(0, -3, 0);
    for _ in 0..6 {
        world.advance_blocks(100);
        world.player_collision_checker();
        world.score_tick();
        assert!(world.death().is_game_over);
        assert_eq!(world.score().score, 0);
    }

    let mut world = World::setup(config).unwrap();
    world.spawn_cubes_at(0, -5, 0);
    let mut scores = Vec::new();
    for _ in 0..6 {
        world.advance_blocks(100);
        world.player_collision_checker();
        world.score_tick();
        scores.push(world.score().score);
    }
    // The block is 4, 3, 2 units away after the first three ticks, which are
    // survived; it is around the avatar from two units on.
    assert_eq!(scores, vec![1, 2, 2, 2, 2, 2]);
}

#[test]
fn motion_tick_is_the_scorer_followed_by_the_fall() {
    let mut together = World::setup(Config::classic()).unwrap();
    together.spawn_cubes_at(3, -140, 9);
    together.spawn_cubes_at(-3, -130, 0);
    let mut apart = together.clone();
    together.move_cubes(250);
    apart.score_tick();
    apart.advance_blocks(250);
    assert_eq!(together.blocks(), apart.blocks());
    assert_eq!(together.score(), apart.score());
    assert_eq!(together.score().score, 1);
}
