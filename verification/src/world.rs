//! The simulation state and the systems that act on it once per tick.

use vstd::prelude::*;
use crate::config::{Config, ConfigError};
use crate::entity::{Avatar, Cleanup, Counter, Cubes, Death, FallingBlock, Movable, Score};
use crate::geometry::{travelled, Position};
use crate::model::{
    identities, moved, past_bound, within_bound, BlockState, Keys, Phase, State,
};
use crate::preservation::{
    lemma_advance_blocks_inv, lemma_death_scene_inv, lemma_despawn_cubes_inv,
    lemma_increase_intensity_inv, lemma_increase_speed_inv, lemma_initial_inv,
    lemma_move_camera_inv, lemma_move_cubes_fits, lemma_player_collision_checker_inv,
    lemma_score_tick_inv, lemma_spawn_inv,
};
use crate::random::{gen_range, thread_rng};

verus! {

/// The state of one run. It is created by `setup` and changed only by the
/// systems below, each of which performs one transition of the model.
#[derive(Clone, Debug)]
pub struct World {
    config: Config,
    avatar: Avatar,
    blocks: Vec<FallingBlock>,
    cubes: Cubes,
    death: Death,
    score: Score,
    counter: Counter,
    next_id: u64,
}

/// The model of a sequence of stored blocks.
pub open spec fn block_states(blocks: Seq<FallingBlock>) -> Seq<BlockState> {
    Seq::new(blocks.len(), |i: int| blocks[i]@)
}

/// The model of a sequence of stored identities.
pub open spec fn identity_values(ids: Seq<u64>) -> Seq<nat> {
    Seq::new(ids.len(), |i: int| ids[i] as nat)
}

/// Carries out a move request of `delta` along one axis, or drops it if it
/// leads outside the boundaries.
fn step_within(coordinate: i64, delta: i128, low: i64, high: i64) -> (next: i64)
    requires
        -0x8000_0000_0000_0000_0000_0000 <= delta <= 0x8000_0000_0000_0000_0000_0000,
    ensures
        next == moved(coordinate as int, delta as int, low as int, high as int),
{
    let target: i128 = coordinate as i128 + delta;
    if low as i128 <= target && target <= high as i128 {
        target as i64
    } else {
        coordinate
    }
}

impl View for World {
    type V = State;

    closed spec fn view(&self) -> State {
        State {
            config: self.config,
            avatar: self.avatar@,
            blocks: block_states(self.blocks@),
            cube_count: self.cubes.cube_count as nat,
            intensity: self.cubes.intensity as nat,
            game_over: self.death.is_game_over,
            score: self.score.score as nat,
            cleanup_count: self.counter.count as nat,
            next_id: self.next_id as nat,
        }
    }
}

impl World {
    /// The state is one that a run can reach, and it fits the machine.
    pub open spec fn wf(&self) -> bool {
        self@.inv() && self@.representable()
    }

    /// Starts a run. A malformed configuration is refused with its first
    /// defect; otherwise the run starts with the avatar at its starting
    /// position, no block, score zero and the configured population ceiling.
    pub fn setup(config: Config) -> (started: Result<World, ConfigError>)
        ensures
            started is Ok <==> config.valid(),
            started matches Ok(world) ==> world.wf() && world@ == State::initial(config),
            started matches Err(error) ==> config.defect() == Some(error),
    {
        match config.validate() {
            Err(error) => Err(error),
            Ok(()) => {
                let world = World {
                    config,
                    avatar: Avatar { position: config.avatar_start, speed: config.avatar_speed },
                    blocks: Vec::new(),
                    cubes: Cubes { cube_count: 0, intensity: config.initial_intensity },
                    death: Death { is_game_over: false },
                    score: Score { score: 0 },
                    counter: Counter { count: 0 },
                    next_id: 0,
                };
                proof {
                    assert(world@.blocks =~= Seq::<BlockState>::empty());
                    lemma_initial_inv(config);
                }
                Ok(world)
            },
        }
    }

    /// The spawner for given draws: a spawn tick whose three random draws
    /// came out as the whole-unit coordinates `(x, y, z)`. Hands back the
    /// block that was created, if one was.
    pub fn spawn_cubes_at(&mut self, x: i32, y: i32, z: i32) -> (created: Option<FallingBlock>)
        requires
            old(self).wf(),
            old(self)@.spawn_fits(),
        ensures
            final(self).wf(),
            final(self)@ == old(self)@.spawn(x as int, y as int, z as int),
            created is Some <==> old(self)@.spawn_due(),
            created matches Some(block) ==> block@ == old(self)@.new_block(
                x as int,
                y as int,
                z as int,
            ),
    {
        if !self.death.is_game_over && self.cubes.cube_count < self.cubes.intensity {
            let block = FallingBlock {
                id: self.next_id,
                position: Position::from_units(x, y, z),
                speed: self.config.block_speed,
                half_extent: self.config.block_half_extent,
                movable: Movable { auto_despawn: true },
            };
            self.blocks.push(block);
            self.cubes.increase();
            self.next_id = self.next_id + 1;
            proof {
                assert(self@.blocks =~= old(self)@.blocks.push(block@));
                lemma_spawn_inv(old(self)@, x as int, y as int, z as int);
            }
            Some(block)
        } else {
            None
        }
    }

    /// The spawner. While the run goes on, draws a position uniformly from
    /// the spawn region, afresh on every call, and spawns a block there if
    /// the population is below its ceiling. Hands back the block that was
    /// created, if one was.
    pub fn spawn_cubes(&mut self) -> (created: Option<FallingBlock>)
        requires
            old(self).wf(),
            old(self)@.spawn_fits(),
        ensures
            final(self).wf(),
            created is Some <==> old(self)@.spawn_due(),
            exists|x: int, y: int, z: int|
                #![trigger old(self)@.spawn(x, y, z)]
                old(self)@.config.spawn.contains(x, y, z) && final(self)@ == old(self)@.spawn(
                    x,
                    y,
                    z,
                ) && (created matches Some(block) ==> block@ == old(self)@.new_block(x, y, z)),
    {
        if !self.death.is_game_over {
            let mut rng = thread_rng();
            let x = gen_range(&mut rng, self.config.spawn.x_min, self.config.spawn.x_max);
            let z = gen_range(&mut rng, self.config.spawn.z_min, self.config.spawn.z_max);
            let y = gen_range(&mut rng, self.config.spawn.y_min, self.config.spawn.y_max);
            self.spawn_cubes_at(x, y, z)
        } else {
            proof {
                let region = self@.config.spawn;
                assert(region.contains(
                    region.x_min as int,
                    region.y_min as int,
                    region.z_min as int,
                ));
                assert(self@ == self@.spawn(
                    region.x_min as int,
                    region.y_min as int,
                    region.z_min as int,
                ));
            }
            None
        }
    }

    /// The scorer: counts one more tick survived, unless the run is over.
    pub fn score_tick(&mut self)
        requires
            old(self).wf(),
            old(self)@.score_tick_fits(),
        ensures
            final(self).wf(),
            final(self)@ == old(self)@.score_tick(),
    {
        if !self.death.is_game_over {
            self.score.score = self.score.score + 1;
        }
        proof {
            lemma_score_tick_inv(old(self)@);
        }
    }

    /// The motion integrator for blocks: every live block falls by its speed
    /// times `elapsed` milliseconds.
    pub fn advance_blocks(&mut self, elapsed: u32)
        requires
            old(self).wf(),
            old(self)@.advance_blocks_fits(elapsed as int),
        ensures
            final(self).wf(),
            final(self)@ == old(self)@.advance_blocks(elapsed as int),
    {
        let ghost target = old(self)@.advance_blocks(elapsed as int);
        let count = self.blocks.len();
        let mut index: usize = 0;
        while index < count
            invariant
                index <= count,
                count == self.blocks.len(),
                count == old(self).blocks.len(),
                target == old(self)@.advance_blocks(elapsed as int),
                target.representable(),
                forall|k: int|
                    0 <= k < index ==> (#[trigger] self.blocks[k])@ == old(self).blocks[k]@.advance(
                        elapsed as int,
                    ),
                forall|k: int| index <= k < count ==> #[trigger] self.blocks[k] == old(self).blocks[k],
                self.config == old(self).config,
                self.avatar == old(self).avatar,
                self.cubes == old(self).cubes,
                self.death == old(self).death,
                self.score == old(self).score,
                self.counter == old(self).counter,
                self.next_id == old(self).next_id,
            decreases count - index,
        {
            let mut block = self.blocks[index];
            let y: i128 = block.position.y as i128 + travelled(block.speed, elapsed);
            proof {
                assert(target.blocks[index as int] == old(self).blocks[index as int]@.advance(
                    elapsed as int,
                ));
                assert(target.blocks[index as int].representable());
            }
            block.position.y = y as i64;
            self.blocks.set(index, block);
            index += 1;
        }
        proof {
            assert(self@.blocks =~= target.blocks);
            lemma_advance_blocks_inv(old(self)@, elapsed as int);
        }
    }

    /// One motion tick: the scorer, then the motion integrator for blocks.
    pub fn move_cubes(&mut self, elapsed: u32)
        requires
            old(self).wf(),
            old(self)@.move_cubes_fits(elapsed as int),
        ensures
            final(self).wf(),
            final(self)@ == old(self)@.move_cubes(elapsed as int),
    {
        proof {
            lemma_move_cubes_fits(old(self)@, elapsed as int);
        }
        self.score_tick();
        self.advance_blocks(elapsed);
    }

    /// The motion integrator for the avatar: on each axis the held keys
    /// request a move of the avatar's speed times `elapsed` milliseconds,
    /// and a request that leads outside the boundaries is dropped.
    pub fn move_camera(&mut self, keys: Keys, elapsed: u32)
        requires
            old(self).wf(),
        ensures
            final(self).wf(),
            final(self)@ == old(self)@.move_camera(keys, elapsed as int),
    {
        let distance = travelled(self.avatar.speed, elapsed);
        let bounds = self.config.boundary;
        if keys.left {
            self.avatar.position.x = step_within(
                self.avatar.position.x,
                -distance,
                bounds.x_min,
                bounds.x_max,
            );
        }
        if keys.right {
            self.avatar.position.x = step_within(
                self.avatar.position.x,
                distance,
                bounds.x_min,
                bounds.x_max,
            );
        }
        if keys.back {
            self.avatar.position.z = step_within(
                self.avatar.position.z,
                distance,
                bounds.z_min,
                bounds.z_max,
            );
        }
        if keys.forward {
            self.avatar.position.z = step_within(
                self.avatar.position.z,
                -distance,
                bounds.z_min,
                bounds.z_max,
            );
        }
        proof {
            lemma_move_camera_inv(old(self)@, keys, elapsed as int);
        }
    }

    /// The despawn check: destroys every block that despawns by itself and
    /// has fallen past the bound, counts the population down once for each,
    /// and hands back the identities of the destroyed blocks in spawn order.
    pub fn despawn_cubes(&mut self) -> (destroyed: Vec<u64>)
        requires
            old(self).wf(),
        ensures
            final(self).wf(),
            final(self)@ == old(self)@.despawn_cubes(),
            identity_values(destroyed@) == identities(old(self)@.despawning()),
    {
        let ghost before = old(self)@.blocks;
        let ghost bound = old(self)@.config.despawn_y as int;
        let mut kept: Vec<FallingBlock> = Vec::new();
        let mut destroyed: Vec<u64> = Vec::new();
        let count = self.blocks.len();
        let mut index: usize = 0;
        while index < count
            invariant
                index <= count,
                count == self.blocks.len(),
                self.blocks == old(self).blocks,
                before == old(self)@.blocks,
                before.len() == count,
                bound == self.config.despawn_y,
                block_states(kept@) == before.take(index as int).filter(within_bound(bound)),
                identity_values(destroyed@) == identities(
                    before.take(index as int).filter(past_bound(bound)),
                ),
                destroyed.len() == before.take(index as int).filter(past_bound(bound)).len(),
                destroyed.len() <= index,
                self.cubes.cube_count == count - destroyed.len(),
                self.config == old(self).config,
                self.avatar == old(self).avatar,
                self.cubes.intensity == old(self).cubes.intensity,
                self.death == old(self).death,
                self.score == old(self).score,
                self.counter == old(self).counter,
                self.next_id == old(self).next_id,
            decreases count - index,
        {
            let block = self.blocks[index];
            proof {
                let seen = before.take(index as int);
                assert(before.take(index as int + 1) =~= seen.push(block@));
                seen.lemma_filter_push(block@, within_bound(bound));
                seen.lemma_filter_push(block@, past_bound(bound));
            }
            if block.movable.auto_despawn && block.position.y > self.config.despawn_y {
                let ghost earlier = destroyed@;
                destroyed.push(block.id);
                self.cubes.decrease();
                proof {
                    let gone = before.take(index as int).filter(past_bound(bound));
                    assert forall|k: int| 0 <= k < gone.len() implies identity_values(
                        destroyed@,
                    )[k] == identities(gone.push(block@))[k] by {
                        assert(identity_values(earlier)[k] == identities(gone)[k]);
                    }
                    assert(identity_values(destroyed@) =~= identities(gone.push(block@)));
                }
            } else {
                kept.push(block);
                proof {
                    let stay = before.take(index as int).filter(within_bound(bound));
                    assert(block_states(kept@) =~= stay.push(block@));
                }
            }
            index += 1;
        }
        self.blocks = kept;
        proof {
            assert(before.take(count as int) =~= before);
            lemma_despawn_cubes_inv(old(self)@);
        }
        destroyed
    }

    /// The overlap check: the run is over if some live block contains the
    /// avatar. Every block is examined, and a run that is over stays over.
    pub fn player_collision_checker(&mut self)
        requires
            old(self).wf(),
        ensures
            final(self).wf(),
            final(self)@ == old(self)@.player_collision_checker(),
    {
        let ghost before = old(self)@;
        let count = self.blocks.len();
        let mut index: usize = 0;
        while index < count
            invariant
                index <= count,
                count == self.blocks.len(),
                before == old(self)@,
                self.blocks == old(self).blocks,
                self.death.is_game_over == (before.game_over || exists|k: int|
                    0 <= k < index && #[trigger] before.blocks[k].hits(before.avatar.position)),
                self.config == old(self).config,
                self.avatar == old(self).avatar,
                self.cubes == old(self).cubes,
                self.score == old(self).score,
                self.counter == old(self).counter,
                self.next_id == old(self).next_id,
            decreases count - index,
        {
            let block = self.blocks[index];
            let hit = self.avatar.position.overlaps(&block.position, block.half_extent);
            proof {
                assert(hit == before.blocks[index as int].hits(before.avatar.position));
            }
            if hit {
                self.death.die();
            }
            index += 1;
        }
        proof {
            lemma_player_collision_checker_inv(old(self)@);
        }
    }

    /// Observation of the end of the run. The first time the run is seen to
    /// be over, destroys every block, counts the population down once for
    /// each, and reports the destroyed identities with the final score. On
    /// every other call nothing changes and nothing is reported.
    pub fn death_scene(&mut self) -> (report: Option<Cleanup>)
        requires
            old(self).wf(),
        ensures
            final(self).wf(),
            final(self)@ == old(self)@.death_scene(),
            report is Some <==> old(self)@.cleanup_due(),
            report matches Some(cleanup) ==> cleanup.score == old(self)@.score,
            report matches Some(cleanup) ==> identity_values(cleanup.destroyed@) == identities(
                old(self)@.blocks,
            ),
    {
        if self.death.is_game_over && self.counter.count == 0 {
            let mut destroyed: Vec<u64> = Vec::new();
            let count = self.blocks.len();
            let mut index: usize = 0;
            while index < count
                invariant
                    index <= count,
                    count == self.blocks.len(),
                    self.blocks == old(self).blocks,
                    destroyed.len() == index,
                    forall|k: int| 0 <= k < index ==> destroyed[k] == self.blocks[k].id,
                    self.cubes.cube_count == count - index,
                    self.config == old(self).config,
                    self.avatar == old(self).avatar,
                    self.cubes.intensity == old(self).cubes.intensity,
                    self.death == old(self).death,
                    self.score == old(self).score,
                    self.counter == old(self).counter,
                    self.next_id == old(self).next_id,
                decreases count - index,
            {
                destroyed.push(self.blocks[index].id);
                self.cubes.decrease();
                index += 1;
            }
            self.blocks = Vec::new();
            self.counter.count = self.counter.count + 1;
            proof {
                assert(self@.blocks =~= Seq::<BlockState>::empty());
                assert(identity_values(destroyed@) =~= identities(old(self)@.blocks));
                lemma_death_scene_inv(old(self)@);
            }
            Some(Cleanup { destroyed, score: self.score.score })
        } else {
            None
        }
    }

    /// A difficulty step on speed: every live block gets faster by the
    /// configured increment.
    pub fn increase_speed(&mut self)
        requires
            old(self).wf(),
            old(self)@.increase_speed_fits(),
        ensures
            final(self).wf(),
            final(self)@ == old(self)@.increase_speed(),
    {
        let ghost target = old(self)@.increase_speed();
        let count = self.blocks.len();
        let mut index: usize = 0;
        while index < count
            invariant
                index <= count,
                count == self.blocks.len(),
                count == old(self).blocks.len(),
                target == old(self)@.increase_speed(),
                target.representable(),
                forall|k: int|
                    0 <= k < index ==> (#[trigger] self.blocks[k])@ == old(
                        self,
                    ).blocks[k]@.accelerate(self.config.speed_step as int),
                forall|k: int| index <= k < count ==> #[trigger] self.blocks[k] == old(self).blocks[k],
                self.config == old(self).config,
                self.avatar == old(self).avatar,
                self.cubes == old(self).cubes,
                self.death == old(self).death,
                self.score == old(self).score,
                self.counter == old(self).counter,
                self.next_id == old(self).next_id,
            decreases count - index,
        {
            let mut block = self.blocks[index];
            proof {
                assert(target.blocks[index as int] == old(self).blocks[index as int]@.accelerate(
                    self.config.speed_step as int,
                ));
                assert(target.blocks[index as int].representable());
            }
            block.speed = block.speed + self.config.speed_step;
            self.blocks.set(index, block);
            index += 1;
        }
        proof {
            assert(self@.blocks =~= target.blocks);
            lemma_increase_speed_inv(old(self)@);
        }
    }

    /// A difficulty step on population: the ceiling rises by the configured
    /// increment.
    pub fn increase_intensity(&mut self)
        requires
            old(self).wf(),
            old(self)@.increase_intensity_fits(),
        ensures
            final(self).wf(),
            final(self)@ == old(self)@.increase_intensity(),
    {
        self.cubes.increase_intensity(self.config.intensity_step);
        proof {
            lemma_increase_intensity_inv(old(self)@);
        }
    }

    /// Whether a spawn tick can be stored: `spawn_cubes` and
    /// `spawn_cubes_at` ask for this.
    pub fn spawn_fits(&self) -> (fits: bool)
        ensures
            fits == self@.spawn_fits(),
    {
        self.death.is_game_over || self.cubes.cube_count >= self.cubes.intensity || self.next_id
            < u64::MAX
    }

    /// Whether the score can be stored after one more tick: `score_tick`
    /// asks for this.
    pub fn score_tick_fits(&self) -> (fits: bool)
        ensures
            fits == self@.score_tick_fits(),
    {
        self.death.is_game_over || self.score.score < u64::MAX
    }

    /// Whether the blocks can be stored once they have fallen for `elapsed`
    /// milliseconds: `advance_blocks` asks for this.
    pub fn advance_blocks_fits(&self, elapsed: u32) -> (fits: bool)
        ensures
            fits == self@.advance_blocks_fits(elapsed as int),
    {
        let ghost target = self@.advance_blocks(elapsed as int);
        let count = self.blocks.len();
        let mut index: usize = 0;
        while index < count
            invariant
                index <= count,
                count == self.blocks.len(),
                target == self@.advance_blocks(elapsed as int),
                forall|k: int| 0 <= k < index ==> (#[trigger] target.blocks[k]).representable(),
            decreases count - index,
        {
            let block = self.blocks[index];
            let y: i128 = block.position.y as i128 + travelled(block.speed, elapsed);
            proof {
                assert(target.blocks[index as int] == self.blocks[index as int]@.advance(
                    elapsed as int,
                ));
            }
            if y < i64::MIN as i128 || y > i64::MAX as i128 {
                return false;
            }
            index += 1;
        }
        true
    }

    /// Whether the outcome of a motion tick of `elapsed` milliseconds can be
    /// stored: `move_cubes` asks for this.
    pub fn move_cubes_fits(&self, elapsed: u32) -> (fits: bool)
        ensures
            fits == self@.move_cubes_fits(elapsed as int),
    {
        proof {
            lemma_move_cubes_fits(self@, elapsed as int);
        }
        self.score_tick_fits() && self.advance_blocks_fits(elapsed)
    }

    /// Whether the blocks can be stored once they are faster:
    /// `increase_speed` asks for this.
    pub fn increase_speed_fits(&self) -> (fits: bool)
        ensures
            fits == self@.increase_speed_fits(),
    {
        let ghost target = self@.increase_speed();
        let count = self.blocks.len();
        let mut index: usize = 0;
        while index < count
            invariant
                index <= count,
                count == self.blocks.len(),
                target == self@.increase_speed(),
                forall|k: int| 0 <= k < index ==> (#[trigger] target.blocks[k]).representable(),
            decreases count - index,
        {
            let speed: i128 = self.blocks[index].speed as i128 + self.config.speed_step as i128;
            proof {
                assert(target.blocks[index as int] == self.blocks[index as int]@.accelerate(
                    self.config.speed_step as int,
                ));
            }
            if speed < i64::MIN as i128 || speed > i64::MAX as i128 {
                return false;
            }
            index += 1;
        }
        true
    }

    /// Whether the raised population ceiling can be stored:
    /// `increase_intensity` asks for this.
    pub fn increase_intensity_fits(&self) -> (fits: bool)
        ensures
            fits == self@.increase_intensity_fits(),
    {
        self.cubes.intensity as u64 + self.config.intensity_step as u64 <= u32::MAX as u64
    }

    /// The configuration of the run.
    pub fn config(&self) -> (config: Config)
        ensures
            config == self@.config,
    {
        self.config
    }

    /// The avatar.
    pub fn avatar(&self) -> (avatar: Avatar)
        ensures
            avatar@ == self@.avatar,
    {
        self.avatar
    }

    /// The live blocks, in spawn order.
    pub fn blocks(&self) -> (blocks: &Vec<FallingBlock>)
        ensures
            block_states(blocks@) == self@.blocks,
    {
        &self.blocks
    }

    /// The population counter and its ceiling.
    pub fn cubes(&self) -> (cubes: Cubes)
        ensures
            cubes.cube_count == self@.cube_count,
            cubes.intensity == self@.intensity,
    {
        self.cubes
    }

    /// Whether the run is over.
    pub fn death(&self) -> (death: Death)
        ensures
            death.is_game_over == self@.game_over,
    {
        self.death
    }

    /// The score.
    pub fn score(&self) -> (score: Score)
        ensures
            score.score == self@.score,
    {
        self.score
    }

    /// How many times the board has been cleared.
    pub fn counter(&self) -> (counter: Counter)
        ensures
            counter.count == self@.cleanup_count,
    {
        self.counter
    }

    /// Where the run stands: running, waiting for its board to be cleared,
    /// or ended.
    pub fn phase(&self) -> (phase: Phase)
        ensures
            phase == self@.phase(),
    {
        if !self.death.is_game_over {
            Phase::Running
        } else if self.counter.count == 0 {
            Phase::CleaningUp
        } else {
            Phase::Ended
        }
    }
}

} // verus!
