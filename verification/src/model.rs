//! The mathematical model of a run: its state, the transition that each
//! system performs on it, and the invariant that every transition keeps.

use vstd::prelude::*;
use crate::config::Config;
use crate::geometry::{overlaps, Point, UNIT};

verus! {

/// The movement keys that are held down during a tick.
#[derive(Clone, Copy, Debug, PartialEq, Eq, Structural)]
pub struct Keys {
    /// Toward decreasing `x`.
    pub left: bool,
    /// Toward increasing `x`.
    pub right: bool,
    /// Toward increasing `z`.
    pub back: bool,
    /// Toward decreasing `z`.
    pub forward: bool,
}

/// A falling block of the model.
pub struct BlockState {
    pub id: nat,
    pub position: Point,
    pub speed: int,
    pub half_extent: int,
    pub auto_despawn: bool,
}

/// The avatar of the model.
pub struct AvatarState {
    pub position: Point,
    pub speed: int,
}

/// The state of a run. `blocks` holds the live blocks in the order in which
/// they were spawned.
pub struct State {
    pub config: Config,
    pub avatar: AvatarState,
    pub blocks: Seq<BlockState>,
    /// The population counter.
    pub cube_count: nat,
    /// The population ceiling.
    pub intensity: nat,
    pub game_over: bool,
    pub score: nat,
    /// How many times the board has been cleared after game over.
    pub cleanup_count: nat,
    /// The identity that the next spawned block receives.
    pub next_id: nat,
}

/// The part of a run that a state belongs to.
#[derive(Clone, Copy, Debug, PartialEq, Eq, Structural)]
pub enum Phase {
    /// No block has reached the avatar.
    Running,
    /// The run is over and the board has not been cleared yet.
    CleaningUp,
    /// The run is over and the board has been cleared.
    Ended,
}

/// The coordinate after a move request of `delta` along an axis with soft
/// boundaries `low` and `high`: the request is carried out if the coordinate
/// it leads to lies within the boundaries, and dropped otherwise.
pub open spec fn moved(coordinate: int, delta: int, low: int, high: int) -> int {
    if low <= coordinate + delta <= high {
        coordinate + delta
    } else {
        coordinate
    }
}

/// Selects the blocks that have fallen past `despawn_y`.
pub open spec fn past_bound(despawn_y: int) -> spec_fn(BlockState) -> bool {
    |block: BlockState| block.is_past(despawn_y)
}

/// Selects the blocks that have not fallen past `despawn_y`.
pub open spec fn within_bound(despawn_y: int) -> spec_fn(BlockState) -> bool {
    |block: BlockState| !block.is_past(despawn_y)
}

/// Moves a block by what it falls in `elapsed` milliseconds.
pub open spec fn advancing(elapsed: int) -> spec_fn(BlockState) -> BlockState {
    |block: BlockState| block.advance(elapsed)
}

/// Raises a block's speed by `step`.
pub open spec fn accelerating(step: int) -> spec_fn(BlockState) -> BlockState {
    |block: BlockState| block.accelerate(step)
}

/// Identities strictly increase along `blocks` and lie below `limit`. In
/// particular no two of the blocks share an identity.
pub open spec fn ordered_below(blocks: Seq<BlockState>, limit: nat) -> bool {
    &&& forall|i: int, j: int| 0 <= i < j < blocks.len() ==> blocks[i].id < blocks[j].id
    &&& forall|i: int| 0 <= i < blocks.len() ==> blocks[i].id < limit
}

/// The identities of a sequence of blocks, in the same order.
pub open spec fn identities(blocks: Seq<BlockState>) -> Seq<nat> {
    Seq::new(blocks.len(), |i: int| blocks[i].id)
}

impl BlockState {
    /// Every number of the block fits the machine type that stores it.
    pub open spec fn representable(self) -> bool {
        &&& self.id <= u64::MAX
        &&& self.position.representable()
        &&& i64::MIN <= self.speed <= i64::MAX
        &&& i64::MIN <= self.half_extent <= i64::MAX
    }

    /// The block after falling for `elapsed` milliseconds: `y` grows by
    /// `speed * elapsed`, nothing else changes.
    pub open spec fn advance(self, elapsed: int) -> BlockState {
        BlockState {
            position: Point { y: self.position.y + self.speed * elapsed, ..self.position },
            ..self
        }
    }

    /// The block with its speed raised by `step`.
    pub open spec fn accelerate(self, step: int) -> BlockState {
        BlockState { speed: self.speed + step, ..self }
    }

    /// The block despawns by itself and has fallen past `despawn_y`.
    pub open spec fn is_past(self, despawn_y: int) -> bool {
        self.auto_despawn && self.position.y > despawn_y
    }

    /// The point `avatar` lies inside the block.
    pub open spec fn hits(self, avatar: Point) -> bool {
        overlaps(avatar, self.position, self.half_extent)
    }
}

impl State {
    /// The state in which a run with the given configuration starts.
    pub open spec fn initial(config: Config) -> State {
        State {
            config,
            avatar: AvatarState { position: config.avatar_start@, speed: config.avatar_speed as int },
            blocks: Seq::empty(),
            cube_count: 0,
            intensity: config.initial_intensity as nat,
            game_over: false,
            score: 0,
            cleanup_count: 0,
            next_id: 0,
        }
    }

    /// Every number of the state fits the machine type that stores it.
    pub open spec fn representable(self) -> bool {
        &&& self.avatar.position.representable()
        &&& i64::MIN <= self.avatar.speed <= i64::MAX
        &&& forall|i: int| 0 <= i < self.blocks.len() ==> self.blocks[i].representable()
        &&& self.cube_count <= u32::MAX
        &&& self.intensity <= u32::MAX
        &&& self.score <= u64::MAX
        &&& self.cleanup_count <= u32::MAX
        &&& self.next_id <= u64::MAX
    }

    /// Where the run stands.
    pub open spec fn phase(self) -> Phase {
        if !self.game_over {
            Phase::Running
        } else if self.cleanup_count == 0 {
            Phase::CleaningUp
        } else {
            Phase::Ended
        }
    }

    /// What holds of every state that a run can reach: the configuration is
    /// valid; the population counter equals the number of live blocks and
    /// does not exceed the ceiling; live blocks have distinct identities, in
    /// spawn order, and none that could be handed out again; no speed is
    /// negative; and the board has been cleared at most once, which leaves a
    /// finished run without blocks.
    pub open spec fn inv(self) -> bool {
        &&& self.config.valid()
        &&& self.cube_count == self.blocks.len()
        &&& self.cube_count <= self.intensity
        &&& ordered_below(self.blocks, self.next_id)
        &&& self.avatar.speed >= 0
        &&& forall|i: int| 0 <= i < self.blocks.len() ==> self.blocks[i].speed >= 0
        &&& self.cleanup_count <= 1
        &&& self.cleanup_count > 0 ==> self.game_over && self.blocks.len() == 0
    }

    // Spawner

    /// A spawn tick creates a block in this state.
    pub open spec fn spawn_due(self) -> bool {
        !self.game_over && self.cube_count < self.intensity
    }

    /// The block that a spawn tick creates at the whole-unit coordinates
    /// `(x, y, z)`.
    pub open spec fn new_block(self, x: int, y: int, z: int) -> BlockState {
        BlockState {
            id: self.next_id,
            position: Point { x: x * UNIT, y: y * UNIT, z: z * UNIT },
            speed: self.config.block_speed as int,
            half_extent: self.config.block_half_extent as int,
            auto_despawn: true,
        }
    }

    /// A spawn tick whose three draws came out as `(x, y, z)`: while the run
    /// goes on and the population is below its ceiling, one block is created
    /// and counted; otherwise nothing changes.
    pub open spec fn spawn(self, x: int, y: int, z: int) -> State {
        if self.spawn_due() {
            State {
                blocks: self.blocks.push(self.new_block(x, y, z)),
                cube_count: self.cube_count + 1,
                next_id: self.next_id + 1,
                ..self
            }
        } else {
            self
        }
    }

    /// The identity that a spawn tick would hand out can be stored.
    pub open spec fn spawn_fits(self) -> bool {
        self.spawn_due() ==> self.next_id < u64::MAX
    }

    // Scorer

    /// One tick survived: the score grows by one unless the run is over.
    pub open spec fn score_tick(self) -> State {
        if self.game_over {
            self
        } else {
            State { score: self.score + 1, ..self }
        }
    }

    /// The score after one more tick can be stored.
    pub open spec fn score_tick_fits(self) -> bool {
        self.score_tick().representable()
    }

    // Motion integrator

    /// Every live block falls for `elapsed` milliseconds.
    pub open spec fn advance_blocks(self, elapsed: int) -> State {
        State { blocks: self.blocks.map_values(advancing(elapsed)), ..self }
    }

    /// The blocks can be stored once they have fallen.
    pub open spec fn advance_blocks_fits(self, elapsed: int) -> bool {
        self.advance_blocks(elapsed).representable()
    }

    /// One motion tick: the tick is scored, then the blocks fall.
    pub open spec fn move_cubes(self, elapsed: int) -> State {
        self.score_tick().advance_blocks(elapsed)
    }

    /// The state after one motion tick can be stored.
    pub open spec fn move_cubes_fits(self, elapsed: int) -> bool {
        self.move_cubes(elapsed).representable()
    }

    /// The avatar answers the held keys for `elapsed` milliseconds. On each
    /// axis the two directions are requested one after the other, first
    /// `left` then `right`, first `back` then `forward`, each over the
    /// distance `speed * elapsed`.
    pub open spec fn move_camera(self, keys: Keys, elapsed: int) -> State {
        let distance = self.avatar.speed * elapsed;
        let bounds = self.config.boundary;
        let from = self.avatar.position;
        let x_left = if keys.left {
            moved(from.x, -distance, bounds.x_min as int, bounds.x_max as int)
        } else {
            from.x
        };
        let x = if keys.right {
            moved(x_left, distance, bounds.x_min as int, bounds.x_max as int)
        } else {
            x_left
        };
        let z_back = if keys.back {
            moved(from.z, distance, bounds.z_min as int, bounds.z_max as int)
        } else {
            from.z
        };
        let z = if keys.forward {
            moved(z_back, -distance, bounds.z_min as int, bounds.z_max as int)
        } else {
            z_back
        };
        State {
            avatar: AvatarState { position: Point { x, y: from.y, z }, ..self.avatar },
            ..self
        }
    }

    // Collision and lifecycle manager

    /// The blocks that the despawn check removes, in spawn order.
    pub open spec fn despawning(self) -> Seq<BlockState> {
        self.blocks.filter(past_bound(self.config.despawn_y as int))
    }

    /// The despawn check: every block that has fallen past the bound leaves,
    /// and the population counter drops by one for each.
    pub open spec fn despawn_cubes(self) -> State {
        State {
            blocks: self.blocks.filter(within_bound(self.config.despawn_y as int)),
            cube_count: (self.cube_count - self.despawning().len()) as nat,
            ..self
        }
    }

    /// Some live block contains the avatar.
    pub open spec fn collision(self) -> bool {
        exists|i: int|
            0 <= i < self.blocks.len() && #[trigger] self.blocks[i].hits(self.avatar.position)
    }

    /// The overlap check: the run is over as soon as a block contains the
    /// avatar, and stays over.
    pub open spec fn player_collision_checker(self) -> State {
        State { game_over: self.game_over || self.collision(), ..self }
    }

    /// The board is cleared the next time the end of the run is observed.
    pub open spec fn cleanup_due(self) -> bool {
        self.game_over && self.cleanup_count == 0
    }

    /// Observation of the end of the run: the first time, every block is
    /// destroyed and the observation is counted; later, nothing changes.
    pub open spec fn death_scene(self) -> State {
        if self.cleanup_due() {
            State {
                blocks: Seq::empty(),
                cube_count: (self.cube_count - self.blocks.len()) as nat,
                cleanup_count: self.cleanup_count + 1,
                ..self
            }
        } else {
            self
        }
    }

    // Difficulty controller

    /// Every live block gets faster by the configured increment.
    pub open spec fn increase_speed(self) -> State {
        State {
            blocks: self.blocks.map_values(accelerating(self.config.speed_step as int)),
            ..self
        }
    }

    /// The state after the blocks got faster can be stored.
    pub open spec fn increase_speed_fits(self) -> bool {
        self.increase_speed().representable()
    }

    /// The population ceiling rises by the configured increment.
    pub open spec fn increase_intensity(self) -> State {
        State { intensity: self.intensity + self.config.intensity_step as nat, ..self }
    }

    /// The raised population ceiling can be stored.
    pub open spec fn increase_intensity_fits(self) -> bool {
        self.increase_intensity().representable()
    }
}

} // verus!
