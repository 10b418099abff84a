//! One whole physics tick, in the scheduler's dependency order: player
//! movement and velocity integration first, then collision detection and
//! scoring, then the collision sound trigger. The enemy spawner runs on its
//! own, slower interval and is not part of the tick.

use crate::collisions::{
    check_for_collisions, enemy_hit_count, play_collision_sound, surviving_enemies,
    wall_hit_count,
};
use crate::state::GameState;
use crate::systems::{apply_velocity, move_pacman, movers_fit, moved_pacman};
use vstd::prelude::*;

verus! {

/// Run one physics tick under the given held-key state: move the player
/// (clamped to bounds), integrate velocities, run the collision and scoring
/// pass against the moved player, then decide and clear the collision sound.
/// Returns whether the collision sound is to be played this tick. The score
/// never decreases; the well-formedness invariant is preserved.
pub fn tick(state: &mut GameState, left: bool, right: bool, down: bool, up: bool) -> (play: bool)
    requires
        old(state).wf(),
        movers_fit(old(state).movers@),
        old(state).scoreboard.score + old(state).enemies@.len() <= usize::MAX,
        old(state).collision_events + old(state).walls@.len() + old(state).enemies@.len()
            <= usize::MAX,
    ensures
        final(state).wf(),
        final(state).pacman == moved_pacman(old(state).pacman, left, right, down, up),
        final(state).walls@ == old(state).walls@,
        final(state).enemies@ == surviving_enemies(
            moved_pacman(old(state).pacman, left, right, down, up),
            old(state).enemies@,
        ),
        final(state).scoreboard.score == old(state).scoreboard.score + enemy_hit_count(
            moved_pacman(old(state).pacman, left, right, down, up),
            old(state).enemies@,
        ),
        final(state).scoreboard.score >= old(state).scoreboard.score,
        final(state).collision_events == 0,
        play == (old(state).collision_events + wall_hit_count(
            moved_pacman(old(state).pacman, left, right, down, up),
            old(state).walls@,
        ) + enemy_hit_count(
            moved_pacman(old(state).pacman, left, right, down, up),
            old(state).enemies@,
        ) > 0),
        final(state).movers@.len() == old(state).movers@.len(),
        forall|i: int|
            0 <= i < old(state).movers@.len() ==> {
                &&& final(state).movers@[i].position.x == old(state).movers@[i].position.x + old(
                    state,
                ).movers@[i].velocity.x
                &&& final(state).movers@[i].position.y == old(state).movers@[i].position.y + old(
                    state,
                ).movers@[i].velocity.y
                &&& final(state).movers@[i].velocity == old(state).movers@[i].velocity
            },
{
    move_pacman(&mut state.pacman, left, right, down, up);
    apply_velocity(&mut state.movers);
    proof {
        crate::collisions::lemma_enemy_hit_count_le_len(state.pacman, state.enemies@);
        crate::collisions::lemma_wall_hit_count_le_len(state.pacman, state.walls@);
    }
    check_for_collisions(state);
    play_collision_sound(state)
}

} // verus!
