//! Whole runs: sequences of system invocations, in any order and with any
//! inputs, and what holds of every one of them.

use vstd::prelude::*;
use crate::model::{within_bound, BlockState, Keys, Phase, State};
use crate::preservation::{
    lemma_advance_blocks_inv, lemma_death_scene_inv, lemma_despawn_cubes_inv,
    lemma_despawn_partition, lemma_increase_intensity_inv, lemma_increase_speed_inv,
    lemma_move_camera_inv, lemma_move_cubes_inv, lemma_player_collision_checker_inv,
    lemma_score_tick_inv, lemma_spawn_inv,
};

verus! {

/// One invocation of a system, with its inputs.
pub enum Event {
    /// A spawn tick whose draws came out as `(x, y, z)`.
    Spawn { x: int, y: int, z: int },
    /// A tick of the scorer.
    ScoreTick,
    /// The blocks fall for `elapsed` milliseconds.
    AdvanceBlocks { elapsed: int },
    /// A motion tick of `elapsed` milliseconds: the scorer, then the fall.
    MoveCubes { elapsed: int },
    /// A motion tick of `elapsed` milliseconds for the avatar.
    MoveCamera { keys: Keys, elapsed: int },
    DespawnCubes,
    PlayerCollisionChecker,
    DeathScene,
    IncreaseSpeed,
    IncreaseIntensity,
}

impl Event {
    /// The invocation runs the scorer.
    pub open spec fn scores(self) -> bool {
        self is ScoreTick || self is MoveCubes
    }
}

impl State {
    /// The state after one system invocation.
    pub open spec fn step(self, event: Event) -> State {
        match event {
            Event::Spawn { x, y, z } => self.spawn(x, y, z),
            Event::ScoreTick => self.score_tick(),
            Event::AdvanceBlocks { elapsed } => self.advance_blocks(elapsed),
            Event::MoveCubes { elapsed } => self.move_cubes(elapsed),
            Event::MoveCamera { keys, elapsed } => self.move_camera(keys, elapsed),
            Event::DespawnCubes => self.despawn_cubes(),
            Event::PlayerCollisionChecker => self.player_collision_checker(),
            Event::DeathScene => self.death_scene(),
            Event::IncreaseSpeed => self.increase_speed(),
            Event::IncreaseIntensity => self.increase_intensity(),
        }
    }

    /// The state after a sequence of system invocations.
    pub open spec fn run(self, events: Seq<Event>) -> State
        decreases events.len(),
    {
        if events.len() == 0 {
            self
        } else {
            self.run(events.drop_last()).step(events.last())
        }
    }

    /// How many ticks of a run are scored: the ticks of the scorer, alone or
    /// as part of a motion tick, that begin while the run is not over.
    pub open spec fn survived(self, events: Seq<Event>) -> nat
        decreases events.len(),
    {
        if events.len() == 0 {
            0
        } else {
            let before = self.run(events.drop_last());
            let scored: nat = if events.last().scores() && !before.game_over {
                1
            } else {
                0
            };
            self.survived(events.drop_last()) + scored
        }
    }

    /// How many times a run clears the board: once for each observation of
    /// the end of the run that finds the board not cleared yet.
    pub open spec fn cleanups(self, events: Seq<Event>) -> nat
        decreases events.len(),
    {
        if events.len() == 0 {
            0
        } else {
            let before = self.run(events.drop_last());
            let cleared: nat = if events.last() is DeathScene && before.cleanup_due() {
                1
            } else {
                0
            };
            self.cleanups(events.drop_last()) + cleared
        }
    }
}

/// Every system keeps the invariant of a run.
pub proof fn lemma_step_inv(state: State, event: Event)
    requires
        state.inv(),
    ensures
        state.step(event).inv(),
{
    match event {
        Event::Spawn { x, y, z } => lemma_spawn_inv(state, x, y, z),
        Event::ScoreTick => lemma_score_tick_inv(state),
        Event::AdvanceBlocks { elapsed } => lemma_advance_blocks_inv(state, elapsed),
        Event::MoveCubes { elapsed } => lemma_move_cubes_inv(state, elapsed),
        Event::MoveCamera { keys, elapsed } => lemma_move_camera_inv(state, keys, elapsed),
        Event::DespawnCubes => lemma_despawn_cubes_inv(state),
        Event::PlayerCollisionChecker => lemma_player_collision_checker_inv(state),
        Event::DeathScene => lemma_death_scene_inv(state),
        Event::IncreaseSpeed => lemma_increase_speed_inv(state),
        Event::IncreaseIntensity => lemma_increase_intensity_inv(state),
    }
}

/// Whatever systems run, in whatever order, the population counter equals
/// the number of live blocks. Being a count, it is never negative. The rest
/// of the invariant is kept as well.
pub proof fn theorem_population_counts_live_blocks(start: State, events: Seq<Event>)
    requires
        start.inv(),
    ensures
        start.run(events).inv(),
        start.run(events).cube_count == start.run(events).blocks.len(),
    decreases events.len(),
{
    if events.len() > 0 {
        theorem_population_counts_live_blocks(start, events.drop_last());
        lemma_step_inv(start.run(events.drop_last()), events.last());
    }
}

/// The number of live blocks never exceeds the population ceiling, and the
/// ceiling changes only when it is raised. So as long as no difficulty step
/// raises it, repeated spawn ticks never bring the number of live blocks
/// above the ceiling that the run had at the start.
pub proof fn theorem_spawn_cap(start: State, events: Seq<Event>)
    requires
        start.inv(),
    ensures
        start.run(events).blocks.len() <= start.run(events).intensity,
        (forall|i: int| 0 <= i < events.len() ==> !(events[i] is IncreaseIntensity))
            ==> start.run(events).intensity == start.intensity,
    decreases events.len(),
{
    theorem_population_counts_live_blocks(start, events);
    if events.len() > 0 {
        let earlier = events.drop_last();
        theorem_spawn_cap(start, earlier);
        if forall|i: int| 0 <= i < events.len() ==> !(events[i] is IncreaseIntensity) {
            assert forall|i: int| 0 <= i < earlier.len() implies !(earlier[i] is IncreaseIntensity) by {
                assert(earlier[i] == events[i]);
            }
            assert(!(events[events.len() - 1] is IncreaseIntensity));
        }
    }
}

/// Once a run is over, it stays over whatever systems run afterwards.
pub proof fn theorem_game_over_is_permanent(start: State, events: Seq<Event>)
    requires
        start.game_over,
    ensures
        start.run(events).game_over,
    decreases events.len(),
{
    if events.len() > 0 {
        theorem_game_over_is_permanent(start, events.drop_last());
    }
}

/// Over any run the score grows by exactly the number of scorer ticks that
/// began while the run was not over. Each such tick raises it by one;
/// nothing else changes it; once the run is over it stays what it is.
pub proof fn theorem_score_counts_survived_ticks(start: State, events: Seq<Event>)
    ensures
        start.run(events).score == start.score + start.survived(events),
        start.game_over ==> start.run(events).score == start.score,
    decreases events.len(),
{
    if events.len() > 0 {
        theorem_score_counts_survived_ticks(start, events.drop_last());
        if start.game_over {
            theorem_game_over_is_permanent(start, events.drop_last());
        }
    }
}

/// Over any run the counter that follows the clearing of the board grows by
/// one for each clearing and never exceeds one, so a run clears the board at
/// most once. A run whose board has been cleared never clears it again.
pub proof fn theorem_cleanup_at_most_once(start: State, events: Seq<Event>)
    requires
        start.inv(),
    ensures
        start.run(events).cleanup_count == start.cleanup_count + start.cleanups(events),
        start.cleanup_count + start.cleanups(events) <= 1,
    decreases events.len(),
{
    theorem_population_counts_live_blocks(start, events);
    if events.len() > 0 {
        theorem_cleanup_at_most_once(start, events.drop_last());
    }
}

/// How far a phase lies into a run.
pub open spec fn progress(phase: Phase) -> nat {
    match phase {
        Phase::Running => 0,
        Phase::CleaningUp => 1,
        Phase::Ended => 2,
    }
}

/// A run only moves forward: from running to cleaning up to ended, never
/// back.
pub proof fn theorem_phase_never_goes_back(start: State, events: Seq<Event>)
    requires
        start.inv(),
    ensures
        progress(start.phase()) <= progress(start.run(events).phase()),
{
    theorem_population_counts_live_blocks(start, events);
    theorem_cleanup_at_most_once(start, events);
    if start.game_over {
        theorem_game_over_is_permanent(start, events);
    }
}

/// From the moment a run is over and its board is not cleared, the clearing
/// stays due until the end of the run is observed, and the first observation
/// performs it: all blocks are destroyed and the population counter is back
/// at zero. Together with the bound above, a run that is over and observed
/// clears its board exactly once.
pub proof fn theorem_cleanup_waits_for_observation(start: State, events: Seq<Event>)
    requires
        start.inv(),
        start.cleanup_due(),
        forall|i: int| 0 <= i < events.len() ==> !(events[i] is DeathScene),
    ensures
        start.run(events).cleanup_due(),
        start.cleanups(events) == 0,
        start.cleanups(events.push(Event::DeathScene)) == 1,
        start.run(events.push(Event::DeathScene)).blocks.len() == 0,
        start.run(events.push(Event::DeathScene)).cube_count == 0,
    decreases events.len(),
{
    theorem_population_counts_live_blocks(start, events);
    if events.len() > 0 {
        let earlier = events.drop_last();
        assert forall|i: int| 0 <= i < earlier.len() implies !(earlier[i] is DeathScene) by {
            assert(earlier[i] == events[i]);
        }
        theorem_cleanup_waits_for_observation(start, earlier);
        assert(!(events[events.len() - 1] is DeathScene));
    }
    assert(events.push(Event::DeathScene).drop_last() =~= events);
}

/// A move request that would carry the avatar beyond a boundary leaves the
/// coordinate of that axis as it was. This holds in particular for an avatar
/// that stands on the boundary and asks to go further by any positive
/// distance. The vertical coordinate never changes.
pub proof fn theorem_boundary_clamp(state: State, keys: Keys, elapsed: int)
    ensures
        ({
            let distance = state.avatar.speed * elapsed;
            let from = state.avatar.position;
            let to = state.move_camera(keys, elapsed).avatar.position;
            let bounds = state.config.boundary;
            &&& keys.right && !keys.left && from.x + distance > bounds.x_max ==> to.x == from.x
            &&& keys.left && !keys.right && from.x - distance < bounds.x_min ==> to.x == from.x
            &&& keys.back && !keys.forward && from.z + distance > bounds.z_max ==> to.z == from.z
            &&& keys.forward && !keys.back && from.z - distance < bounds.z_min ==> to.z == from.z
            &&& to.y == from.y
        }),
{
}

/// An avatar inside the boundaries stays inside them.
pub proof fn theorem_avatar_stays_within_boundary(state: State, keys: Keys, elapsed: int)
    requires
        state.config.boundary.contains(state.avatar.position.x, state.avatar.position.z),
    ensures
        ({
            let to = state.move_camera(keys, elapsed).avatar.position;
            state.config.boundary.contains(to.x, to.z)
        }),
{
}

/// Selecting from blocks that all qualify keeps them all.
pub proof fn lemma_selection_of_all(blocks: Seq<BlockState>, select: spec_fn(BlockState) -> bool)
    requires
        forall|i: int| 0 <= i < blocks.len() ==> select(#[trigger] blocks[i]),
    ensures
        blocks.filter(select) == blocks,
    decreases blocks.len(),
{
    reveal(Seq::filter);
    if blocks.len() > 0 {
        let front = blocks.drop_last();
        assert forall|i: int| 0 <= i < front.len() implies select(#[trigger] front[i]) by {
            assert(front[i] == blocks[i]);
        }
        lemma_selection_of_all(front, select);
        assert(select(blocks[blocks.len() - 1]));
        assert(front.push(blocks.last()) =~= blocks);
    }
}

/// A second despawn check in the same tick finds nothing to destroy and
/// counts nothing down, and so does a despawn check on a board that has just
/// been cleared. No block is destroyed twice.
pub proof fn theorem_destroy_is_idempotent(state: State)
    requires
        state.inv(),
    ensures
        state.despawn_cubes().despawning().len() == 0,
        state.despawn_cubes().despawn_cubes() == state.despawn_cubes(),
        state.death_scene().death_scene() == state.death_scene(),
        state.cleanup_due() ==> state.death_scene().despawn_cubes() == state.death_scene(),
{
    broadcast use vstd::seq_lib::group_filter_ensures;

    let bound = state.config.despawn_y as int;
    let once = state.despawn_cubes();
    lemma_despawn_cubes_inv(state);
    assert forall|i: int| 0 <= i < once.blocks.len() implies within_bound(bound)(
        #[trigger] once.blocks[i],
    ) by {
        state.blocks.lemma_filter_pred(within_bound(bound), i);
    }
    lemma_selection_of_all(once.blocks, within_bound(bound));
    lemma_despawn_partition(once.blocks, bound);
    if state.cleanup_due() {
        let cleared = state.death_scene();
        lemma_death_scene_inv(state);
        lemma_despawn_partition(cleared.blocks, bound);
        assert(cleared.blocks.filter(within_bound(bound)) =~= cleared.blocks);
    }
}

/// The despawn check and the overlap check commute whenever no live block
/// is at once past the despawn bound and around the avatar: whichever runs
/// first, the same blocks are destroyed and the run is over in the same
/// cases.
pub proof fn theorem_checks_commute(state: State)
    requires
        forall|i: int|
            0 <= i < state.blocks.len() ==> !(#[trigger] state.blocks[i].is_past(
                state.config.despawn_y as int,
            ) && state.blocks[i].hits(state.avatar.position)),
    ensures
        state.despawn_cubes().player_collision_checker()
            == state.player_collision_checker().despawn_cubes(),
{
    broadcast use vstd::seq_lib::group_filter_ensures;

    let bound = state.config.despawn_y as int;
    let avatar = state.avatar.position;
    let kept = state.blocks.filter(within_bound(bound));
    let after_despawn = state.despawn_cubes();
    if state.collision() {
        let i = choose|i: int| 0 <= i < state.blocks.len() && #[trigger] state.blocks[i].hits(avatar);
        assert(!state.blocks[i].is_past(bound));
        state.blocks.lemma_filter_contains(within_bound(bound), i);
        let k = choose|k: int| 0 <= k < kept.len() && kept[k] == state.blocks[i];
        assert(after_despawn.blocks[k].hits(after_despawn.avatar.position));
    }
    if after_despawn.collision() {
        let k = choose|k: int| 0 <= k < kept.len() && #[trigger] kept[k].hits(avatar);
        assert(kept.contains(kept[k]));
        state.blocks.lemma_filter_contains_rev(within_bound(bound), kept[k]);
        let i = choose|i: int| 0 <= i < state.blocks.len() && state.blocks[i] == kept[k];
        assert(state.blocks[i].hits(avatar));
    }
}

} // verus!
