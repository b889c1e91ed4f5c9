//! The entities of the simulation and the counters that describe a run.

use vstd::prelude::*;
use crate::geometry::Position;
use crate::model::{AvatarState, BlockState};

verus! {

/// Marks an entity that the simulation moves, and says whether it leaves by
/// itself once it has fallen past the play area.
#[derive(Clone, Copy, Debug, PartialEq, Eq, Structural)]
pub struct Movable {
    pub auto_despawn: bool,
}

/// A falling block. `id` is its identity: no two live blocks share one, and
/// the identity of a destroyed block is never handed out again.
#[derive(Clone, Copy, Debug, PartialEq, Eq, Structural)]
pub struct FallingBlock {
    pub id: u64,
    pub position: Position,
    pub speed: i64,
    pub half_extent: i64,
    pub movable: Movable,
}

/// The player's avatar.
#[derive(Clone, Copy, Debug, PartialEq, Eq, Structural)]
pub struct Avatar {
    pub position: Position,
    pub speed: i64,
}

/// Population accounting: the number of live blocks and its ceiling.
#[derive(Clone, Copy, Debug, PartialEq, Eq, Structural)]
pub struct Cubes {
    pub cube_count: u32,
    pub intensity: u32,
}

/// Whether the run is over.
#[derive(Clone, Copy, Debug, PartialEq, Eq, Structural)]
pub struct Death {
    pub is_game_over: bool,
}

/// The number of ticks survived.
#[derive(Clone, Copy, Debug, PartialEq, Eq, Structural)]
pub struct Score {
    pub score: u64,
}

/// How many times the board has been cleared after the end of the run.
#[derive(Clone, Copy, Debug, PartialEq, Eq, Structural)]
pub struct Counter {
    pub count: u32,
}

/// What the board held when it was cleared at the end of a run: the
/// identities of the blocks that were destroyed, in spawn order, and the
/// final score.
#[derive(Clone, Debug, PartialEq, Eq)]
pub struct Cleanup {
    pub destroyed: Vec<u64>,
    pub score: u64,
}

impl View for FallingBlock {
    type V = BlockState;

    open spec fn view(&self) -> BlockState {
        BlockState {
            id: self.id as nat,
            position: self.position@,
            speed: self.speed as int,
            half_extent: self.half_extent as int,
            auto_despawn: self.movable.auto_despawn,
        }
    }
}

impl View for Avatar {
    type V = AvatarState;

    open spec fn view(&self) -> AvatarState {
        AvatarState { position: self.position@, speed: self.speed as int }
    }
}

impl Cubes {
    /// Counts one more live block.
    pub fn increase(&mut self)
        requires
            old(self).cube_count < u32::MAX,
        ensures
            final(self).cube_count == old(self).cube_count + 1,
            final(self).intensity == old(self).intensity,
    {
        self.cube_count += 1;
    }

    /// Counts one live block less.
    pub fn decrease(&mut self)
        requires
            old(self).cube_count > 0,
        ensures
            final(self).cube_count == old(self).cube_count - 1,
            final(self).intensity == old(self).intensity,
    {
        self.cube_count -= 1;
    }

    /// Raises the population ceiling by `step`.
    pub fn increase_intensity(&mut self, step: u32)
        requires
            old(self).intensity + step <= u32::MAX,
        ensures
            final(self).intensity == old(self).intensity + step,
            final(self).cube_count == old(self).cube_count,
    {
        self.intensity += step;
    }
}

impl Death {
    /// Ends the run. Ending a run that is over already changes nothing.
    pub fn die(&mut self)
        ensures
            final(self).is_game_over,
    {
        self.is_game_over = true;
    }
}

} // verus!
