use falling_blocks::{Config, FallingBlock, Movable, Position, World, UNIT};

fn world_with_ceiling(ceiling: u32) -> World {
    let mut config = Config::classic();
    config.initial_intensity = ceiling;
    World::setup(config).unwrap()
}

#[test]
fn spawn_at_creates_the_described_block() {
    let mut world = World::setup(Config::classic()).unwrap();
    let created = world.spawn_cubes_at(3, -130, -7);
    let expected = FallingBlock {
        id: 0,
        position: Position { x: 3 * UNIT, y: -130 * UNIT, z: -7 * UNIT },
        speed: 10_000,
        half_extent: 2_500_000,
        movable: Movable { auto_despawn: true },
    };
    assert_eq!(created, Some(expected));
    assert_eq!(world.blocks().as_slice(), &[expected]);
    assert_eq!(world.cubes().cube_count, 1);
}

#[test]
fn identities_are_handed_out_in_order_and_never_reused() {
    let mut world = World::setup(Config::classic()).unwrap();
    assert_eq!(world.spawn_cubes_at(0, 56, 0).unwrap().id, 0);
    assert_eq!(world.spawn_cubes_at(0, 0, 0).unwrap().id, 1);
    assert_eq!(world.despawn_cubes(), vec![0]);
    assert_eq!(world.spawn_cubes_at(0, 0, 0).unwrap().id, 2);
    let ids: Vec<u64> = world.blocks().iter().map(|block| block.id).collect();
    assert_eq!(ids, vec![1, 2]);
}

#[test]
fn spawn_cap_of_fifty_holds() {
    let mut world = world_with_ceiling(50);
    for tick in 0..200u32 {
        assert!(world.spawn_fits());
        let created = world.spawn_cubes();
        assert_eq!(created.is_some(), tick < 50);
        assert!(world.blocks().len() <= 50);
        assert_eq!(world.cubes().cube_count as usize, world.blocks().len());
    }
    assert_eq!(world.blocks().len(), 50);
    assert_eq!(world.cubes().cube_count, 50);
}

#[test]
fn nothing_changes_at_the_cap() {
    let mut world = world_with_ceiling(2);
    assert!(world.spawn_cubes_at(1, 1, 1).is_some());
    assert!(world.spawn_cubes_at(2, 2, 2).is_some());
    let blocks_before = world.blocks().clone();
    let cubes_before = world.cubes();
    assert_eq!(world.spawn_cubes_at(3, 3, 3), None);
    assert_eq!(world.spawn_cubes(), None);
    assert_eq!(world.blocks(), &blocks_before);
    assert_eq!(world.cubes(), cubes_before);
    // The identity that was not handed out goes to the next block.
    assert_eq!(world.despawn_cubes(), Vec::<u64>::new());
    world.increase_intensity();
    assert_eq!(world.spawn_cubes_at(3, 3, 3).unwrap().id, 2);
}

#[test]
fn zero_ceiling_never_spawns() {
    let mut world = world_with_ceiling(0);
    for _ in 0..10 {
        assert_eq!(world.spawn_cubes(), None);
    }
    assert!(world.blocks().is_empty());
    assert_eq!(world.cubes().cube_count, 0);
}

#[test]
fn nothing_spawns_once_the_run_is_over() {
    let mut config = Config::classic();
    config.avatar_start = Position::from_units(0, 0, 0);
    let mut world = World::setup(config).unwrap();
    world.spawn_cubes_at(0, 0, 0);
    world.player_collision_checker();
    assert!(world.death().is_game_over);
    let blocks_before = world.blocks().clone();
    let cubes_before = world.cubes();
    assert_eq!(world.spawn_cubes(), None);
    assert_eq!(world.spawn_cubes_at(9, 9, 9), None);
    assert_eq!(world.blocks(), &blocks_before);
    assert_eq!(world.cubes(), cubes_before);
}

#[test]
fn random_spawns_lie_in_the_region() {
    let mut world = world_with_ceiling(400);
    for _ in 0..400 {
        let block = world.spawn_cubes().unwrap();
        assert!(-50 * UNIT <= block.position.x && block.position.x <= 50 * UNIT);
        assert!(-150 * UNIT <= block.position.y && block.position.y <= -125 * UNIT);
        assert!(-50 * UNIT <= block.position.z && block.position.z <= 50 * UNIT);
        assert_eq!(block.position.x % UNIT, 0);
        assert_eq!(block.position.y % UNIT, 0);
        assert_eq!(block.position.z % UNIT, 0);
        assert_eq!(block.speed, 10_000);
        assert_eq!(block.half_extent, 2_500_000);
        assert!(block.movable.auto_despawn);
    }
}

#[test]
fn random_spawns_are_drawn_afresh() {
    // Were a draw to hand back one of its bounds, or were one draw reused,
    // all four hundred blocks would share a coordinate.
    let mut world = world_with_ceiling(400);
    for _ in 0..400 {
        world.spawn_cubes().unwrap();
    }
    let first = world.blocks()[0].position;
    assert!(world.blocks().iter().any(|block| block.position.x != first.x));
    assert!(world.blocks().iter().any(|block| block.position.y != first.y));
    assert!(world.blocks().iter().any(|block| block.position.z != first.z));
    assert!(world.blocks().iter().any(|block| block.position.x != -50 * UNIT));
    assert!(world.blocks().iter().any(|block| block.position.x != 50 * UNIT));
    assert!(world.blocks().iter().any(|block| block.position.y != -150 * UNIT));
    assert!(world.blocks().iter().any(|block| block.position.y != -125 * UNIT));
    assert!(world.blocks().iter().any(|block| block.position.z != -50 * UNIT));
    assert!(world.blocks().iter().any(|block| block.position.z != 50 * UNIT));
}

#[test]
fn single_point_region_pins_the_draw() {
    let mut config = Config::classic();
    config.spawn.x_min = 4;
    config.spawn.x_max = 4;
    config.spawn.y_min = -9;
    config.spawn.y_max = -9;
    config.spawn.z_min = 0;
    config.spawn.z_max = 0;
    let mut world = World::setup(config).unwrap();
    let block = world.spawn_cubes().unwrap();
    assert_eq!(block.position, Position { x: 4 * UNIT, y: -9 * UNIT, z: 0 });
}
