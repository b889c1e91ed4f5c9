//! Every transition of the model keeps the invariant of a run.

use vstd::prelude::*;
use crate::config::Config;
use crate::model::{ordered_below, past_bound, within_bound, BlockState, Keys, State};

verus! {

/// The despawn check splits the live blocks in two: those that leave and
/// those that stay.
pub proof fn lemma_despawn_partition(blocks: Seq<BlockState>, despawn_y: int)
    ensures
        blocks.filter(within_bound(despawn_y)).len() + blocks.filter(past_bound(despawn_y)).len()
            == blocks.len(),
    decreases blocks.len(),
{
    reveal(Seq::filter);
    if blocks.len() > 0 {
        lemma_despawn_partition(blocks.drop_last(), despawn_y);
    }
}

/// Selecting blocks keeps their order, and with it the order of their
/// identities, and every selected block is one of the given blocks.
pub proof fn lemma_selection_ordered(
    blocks: Seq<BlockState>,
    select: spec_fn(BlockState) -> bool,
    limit: nat,
)
    requires
        ordered_below(blocks, limit),
    ensures
        ordered_below(blocks.filter(select), limit),
        forall|k: int|
            0 <= k < blocks.filter(select).len() ==> blocks.contains(
                #[trigger] blocks.filter(select)[k],
            ),
    decreases blocks.len(),
{
    reveal(Seq::filter);
    let selected = blocks.filter(select);
    if blocks.len() > 0 {
        let front = blocks.drop_last();
        lemma_selection_ordered(front, select, limit);
        let front_selected = front.filter(select);
        assert forall|k: int| 0 <= k < selected.len() implies blocks.contains(
            #[trigger] selected[k],
        ) by {
            if k < front_selected.len() {
                assert(front.contains(front_selected[k]));
                let at = choose|at: int| 0 <= at < front.len() && front[at] == front_selected[k];
                assert(blocks[at] == selected[k]);
            } else {
                assert(blocks[blocks.len() - 1] == selected[k]);
            }
        }
        assert forall|i: int, j: int| 0 <= i < j < selected.len() implies selected[i].id
            < selected[j].id by {
            if j >= front_selected.len() {
                assert(front.contains(front_selected[i]));
                let at = choose|at: int| 0 <= at < front.len() && front[at] == front_selected[i];
                assert(blocks[at].id < blocks[blocks.len() - 1].id);
            }
        }
    }
}

/// A run starts in a state that satisfies the invariant.
pub proof fn lemma_initial_inv(config: Config)
    requires
        config.valid(),
    ensures
        State::initial(config).inv(),
{
}

/// A spawn tick keeps the invariant: the new block is counted, the count
/// stays within the ceiling, and the new identity is above all live ones.
pub proof fn lemma_spawn_inv(state: State, x: int, y: int, z: int)
    requires
        state.inv(),
    ensures
        state.spawn(x, y, z).inv(),
{
}

/// Scoring a tick keeps the invariant: it changes the score only.
pub proof fn lemma_score_tick_inv(state: State)
    requires
        state.inv(),
    ensures
        state.score_tick().inv(),
{
}

/// Falling keeps the invariant: it changes positions only.
pub proof fn lemma_advance_blocks_inv(state: State, elapsed: int)
    requires
        state.inv(),
    ensures
        state.advance_blocks(elapsed).inv(),
{
}

/// A motion tick can be stored exactly when its two halves can.
pub proof fn lemma_move_cubes_fits(state: State, elapsed: int)
    requires
        state.representable(),
    ensures
        state.move_cubes_fits(elapsed) == (state.score_tick_fits() && state.advance_blocks_fits(
            elapsed,
        )),
{
    let scored = state.score_tick();
    let fallen = state.advance_blocks(elapsed);
    let both = state.move_cubes(elapsed);
    assert(both.blocks == fallen.blocks);
    assert(both.score == scored.score);
    if state.score_tick_fits() && state.advance_blocks_fits(elapsed) {
        assert forall|i: int| 0 <= i < both.blocks.len() implies both.blocks[i].representable() by {
            assert(fallen.blocks[i].representable());
        }
    }
    if state.move_cubes_fits(elapsed) {
        assert forall|i: int| 0 <= i < fallen.blocks.len() implies fallen.blocks[i].representable() by {
            assert(both.blocks[i].representable());
        }
        assert forall|i: int| 0 <= i < scored.blocks.len() implies scored.blocks[i].representable() by {
            assert(state.blocks[i].representable());
        }
    }
}

/// A motion tick keeps the invariant: it changes positions and the score
/// only.
pub proof fn lemma_move_cubes_inv(state: State, elapsed: int)
    requires
        state.inv(),
    ensures
        state.move_cubes(elapsed).inv(),
{
}

/// Moving the avatar keeps the invariant: it changes the avatar's position
/// only.
pub proof fn lemma_move_camera_inv(state: State, keys: Keys, elapsed: int)
    requires
        state.inv(),
    ensures
        state.move_camera(keys, elapsed).inv(),
{
}

/// The despawn check keeps the invariant: the counter drops by the number of
/// blocks that leave, and those that stay keep their order.
pub proof fn lemma_despawn_cubes_inv(state: State)
    requires
        state.inv(),
    ensures
        state.despawn_cubes().inv(),
        state.despawn_cubes().cube_count == state.cube_count - state.despawning().len(),
{
    let bound = state.config.despawn_y as int;
    let kept = state.blocks.filter(within_bound(bound));
    lemma_despawn_partition(state.blocks, bound);
    lemma_selection_ordered(state.blocks, within_bound(bound), state.next_id);
    assert forall|k: int| 0 <= k < kept.len() implies kept[k].speed >= 0 by {
        assert(state.blocks.contains(kept[k]));
    }
}

/// The overlap check keeps the invariant: it can only end the run.
pub proof fn lemma_player_collision_checker_inv(state: State)
    requires
        state.inv(),
    ensures
        state.player_collision_checker().inv(),
{
}

/// Clearing the board keeps the invariant: no block is left, the counter is
/// at zero, and the clearing has been counted once.
pub proof fn lemma_death_scene_inv(state: State)
    requires
        state.inv(),
    ensures
        state.death_scene().inv(),
{
}

/// A difficulty step on speed keeps the invariant: the increment is not
/// negative, so no speed becomes negative.
pub proof fn lemma_increase_speed_inv(state: State)
    requires
        state.inv(),
    ensures
        state.increase_speed().inv(),
{
}

/// A difficulty step on population keeps the invariant: the ceiling only
/// rises.
pub proof fn lemma_increase_intensity_inv(state: State)
    requires
        state.inv(),
    ensures
        state.increase_intensity().inv(),
{
}

} // verus!
