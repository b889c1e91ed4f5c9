//! Run configuration and its validation at run start.

use vstd::prelude::*;
use crate::geometry::{Position, UNIT, UNIT_PER_SECOND};

verus! {

/// The box in which blocks appear, in whole world units, bounds included.
/// The `y` band lies above the play area: blocks fall toward increasing `y`.
#[derive(Clone, Copy, Debug, PartialEq, Eq, Structural)]
pub struct SpawnRegion {
    pub x_min: i32,
    pub x_max: i32,
    pub y_min: i32,
    pub y_max: i32,
    pub z_min: i32,
    pub z_max: i32,
}

/// The soft boundaries of the avatar on the ground plane, in length units,
/// bounds included.
#[derive(Clone, Copy, Debug, PartialEq, Eq, Structural)]
pub struct Boundary {
    pub x_min: i64,
    pub x_max: i64,
    pub z_min: i64,
    pub z_max: i64,
}

/// Everything that is fixed for the duration of one run.
#[derive(Clone, Copy, Debug, PartialEq, Eq, Structural)]
pub struct Config {
    /// Where new blocks appear.
    pub spawn: SpawnRegion,
    /// Fall speed of a freshly spawned block.
    pub block_speed: i64,
    /// Half of a block's edge length.
    pub block_half_extent: i64,
    /// A block whose `y` exceeds this value has left the play area.
    pub despawn_y: i64,
    /// Where the avatar stands at run start.
    pub avatar_start: Position,
    /// Movement speed of the avatar.
    pub avatar_speed: i64,
    /// Where the avatar may move.
    pub boundary: Boundary,
    /// Population ceiling at run start.
    pub initial_intensity: u32,
    /// Amount by which one difficulty step raises the population ceiling.
    pub intensity_step: u32,
    /// Amount by which one difficulty step raises the speed of every live block.
    pub speed_step: i64,
    /// Milliseconds between two spawn ticks.
    pub spawn_period: u32,
    /// Milliseconds between two difficulty steps.
    pub difficulty_period: u32,
}

/// Why a configuration is refused at run start.
#[derive(Clone, Copy, Debug, PartialEq, Eq, Structural)]
pub enum ConfigError {
    /// A period between ticks is zero.
    NonPositiveTimestep,
    /// A speed or a speed increment is negative.
    NegativeSpeed,
    /// On some axis the spawn region has its lower bound above its upper bound.
    EmptySpawnRange,
}

impl SpawnRegion {
    /// No axis of the region is empty.
    pub open spec fn inhabited(self) -> bool {
        &&& self.x_min <= self.x_max
        &&& self.y_min <= self.y_max
        &&& self.z_min <= self.z_max
    }

    /// The whole-unit coordinates `(x, y, z)` lie in the region.
    pub open spec fn contains(self, x: int, y: int, z: int) -> bool {
        &&& self.x_min <= x <= self.x_max
        &&& self.y_min <= y <= self.y_max
        &&& self.z_min <= z <= self.z_max
    }
}

impl Boundary {
    /// The ground-plane coordinates `(x, z)` lie within the boundaries.
    pub open spec fn contains(self, x: int, z: int) -> bool {
        &&& self.x_min <= x <= self.x_max
        &&& self.z_min <= z <= self.z_max
    }
}

impl Config {
    /// Both periods are positive.
    pub open spec fn timesteps_positive(self) -> bool {
        self.spawn_period > 0 && self.difficulty_period > 0
    }

    /// No speed and no speed increment is negative.
    pub open spec fn speeds_non_negative(self) -> bool {
        self.block_speed >= 0 && self.avatar_speed >= 0 && self.speed_step >= 0
    }

    /// A run may start from this configuration.
    pub open spec fn valid(self) -> bool {
        &&& self.timesteps_positive()
        &&& self.speeds_non_negative()
        &&& self.spawn.inhabited()
    }

    /// The first defect of the configuration, if it has one. Timesteps are
    /// examined first, then speeds, then the spawn region.
    pub open spec fn defect(self) -> Option<ConfigError> {
        if !self.timesteps_positive() {
            Some(ConfigError::NonPositiveTimestep)
        } else if !self.speeds_non_negative() {
            Some(ConfigError::NegativeSpeed)
        } else if !self.spawn.inhabited() {
            Some(ConfigError::EmptySpawnRange)
        } else {
            None
        }
    }

    /// The classic game: blocks of edge 5 appear over a square of 101 by 101
    /// units, 125 to 150 units up, and fall at 10 units per second past an
    /// avatar that stands 50 units below the origin and moves at the same
    /// speed within 40 units of the centre. The population ceiling starts at
    /// 100 and grows by 10; live blocks gain 10 units per second every half
    /// second; a block is spawned every 10 milliseconds.
    pub fn classic() -> (config: Config)
        ensures
            config.valid(),
            config.spawn.x_min == -50,
            config.spawn.x_max == 50,
            config.spawn.y_min == -150,
            config.spawn.y_max == -125,
            config.spawn.z_min == -50,
            config.spawn.z_max == 50,
            config.block_speed == 10 * UNIT_PER_SECOND,
            config.block_half_extent == 5 * UNIT / 2,
            config.despawn_y == 55 * UNIT,
            config.avatar_start.x == 0,
            config.avatar_start.y == 50 * UNIT,
            config.avatar_start.z == 0,
            config.avatar_speed == 10 * UNIT_PER_SECOND,
            config.boundary.x_min == -40 * UNIT,
            config.boundary.x_max == 40 * UNIT,
            config.boundary.z_min == -40 * UNIT,
            config.boundary.z_max == 40 * UNIT,
            config.initial_intensity == 100,
            config.intensity_step == 10,
            config.speed_step == 10 * UNIT_PER_SECOND,
            config.spawn_period == 10,
            config.difficulty_period == 500,
    {
        Config {
            spawn: SpawnRegion {
                x_min: -50,
                x_max: 50,
                y_min: -150,
                y_max: -125,
                z_min: -50,
                z_max: 50,
            },
            block_speed: 10 * UNIT_PER_SECOND,
            block_half_extent: 5 * UNIT / 2,
            despawn_y: 55 * UNIT,
            avatar_start: Position { x: 0, y: 50 * UNIT, z: 0 },
            avatar_speed: 10 * UNIT_PER_SECOND,
            boundary: Boundary {
                x_min: -40 * UNIT,
                x_max: 40 * UNIT,
                z_min: -40 * UNIT,
                z_max: 40 * UNIT,
            },
            initial_intensity: 100,
            intensity_step: 10,
            speed_step: 10 * UNIT_PER_SECOND,
            spawn_period: 10,
            difficulty_period: 500,
        }
    }

    /// Run-start validation: reports the first defect, or accepts.
    pub fn validate(&self) -> (outcome: Result<(), ConfigError>)
        ensures
            outcome is Ok <==> self.valid(),
            outcome == match self.defect() {
                Some(error) => Err::<(), ConfigError>(error),
                None => Ok(()),
            },
    {
        if self.spawn_period == 0 || self.difficulty_period == 0 {
            Err(ConfigError::NonPositiveTimestep)
        } else if self.block_speed < 0 || self.avatar_speed < 0 || self.speed_step < 0 {
            Err(ConfigError::NegativeSpeed)
        } else if self.spawn.x_min > self.spawn.x_max || self.spawn.y_min > self.spawn.y_max
            || self.spawn.z_min > self.spawn.z_max {
            Err(ConfigError::EmptySpawnRange)
        } else {
            Ok(())
        }
    }
}

} // verus!
