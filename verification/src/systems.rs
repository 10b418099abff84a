//! The per-tick systems that move entities and spawn enemies: player
//! movement with bound clamping, velocity integration, and the random enemy
//! spawner.

use crate::arena::{
    BOTTOM_BOUND, BOTTOM_WALL, LEFT_BOUND, LEFT_WALL, PACMAN_STEP, RIGHT_BOUND, RIGHT_WALL,
    TOP_WALL, UP_BOUND,
};
use crate::geometry::{clamp_i64, clamp_spec, Vec2};
use crate::rng::random_in_range;
use crate::state::{pacman_in_bounds, Enemy, Mover, Pacman};
use vstd::pervasive::VecAdditionalExecFns;
use vstd::prelude::*;

verus! {

/// Direction chosen from two opposing held keys: the negative direction is
/// checked first and takes precedence when both are held.
pub open spec fn direction(neg_held: bool, pos_held: bool) -> int {
    if neg_held {
        -1
    } else if pos_held {
        1
    } else {
        0
    }
}

/// One axis of a player movement step: advance by the chosen direction times
/// the per-tick displacement, then clamp to the given bounds.
pub open spec fn moved_coord(cur: int, neg_held: bool, pos_held: bool, lo: int, hi: int) -> int {
    clamp_spec(cur + direction(neg_held, pos_held) * PACMAN_STEP, lo, hi)
}

/// The player after one movement tick under the given held-key state.
pub open spec fn moved_pacman(p: Pacman, left: bool, right: bool, down: bool, up: bool) -> Pacman {
    Pacman {
        position: Vec2 {
            x: moved_coord(
                p.position.x as int,
                left,
                right,
                LEFT_BOUND as int,
                RIGHT_BOUND as int,
            ) as i64,
            y: moved_coord(
                p.position.y as int,
                down,
                up,
                BOTTOM_BOUND as int,
                UP_BOUND as int,
            ) as i64,
        },
    }
}

/// Advance the player by one physics tick under the given held-key state:
/// each axis moves independently by `PACMAN_STEP` in the chosen direction and
/// is clamped to the arena-derived bounds. Left takes precedence over right,
/// down over up. Always succeeds; the player ends within bounds whatever the
/// input.
pub fn move_pacman(pacman: &mut Pacman, left: bool, right: bool, down: bool, up: bool)
    requires
        pacman_in_bounds(*old(pacman)),
    ensures
        *final(pacman) == moved_pacman(*old(pacman), left, right, down, up),
        pacman_in_bounds(*final(pacman)),
{
    let x_direction: i64 = if left {
        -1
    } else if right {
        1
    } else {
        0
    };
    let y_direction: i64 = if down {
        -1
    } else if up {
        1
    } else {
        0
    };

    let new_x: i64 = pacman.position.x + x_direction * PACMAN_STEP;
    let new_y: i64 = pacman.position.y + y_direction * PACMAN_STEP;

    pacman.position.x = clamp_i64(new_x, LEFT_BOUND, RIGHT_BOUND);
    pacman.position.y = clamp_i64(new_y, BOTTOM_BOUND, UP_BOUND);
}

/// One integration step of this mover stays within `i64`.
pub open spec fn mover_fits(m: Mover) -> bool {
    &&& i64::MIN <= m.position.x + m.velocity.x <= i64::MAX
    &&& i64::MIN <= m.position.y + m.velocity.y <= i64::MAX
}

/// Every mover fits one integration step without leaving `i64`.
pub open spec fn movers_fit(ms: Seq<Mover>) -> bool {
    forall|i: int| 0 <= i < ms.len() ==> mover_fits(#[trigger] ms[i])
}

/// Advance every velocity-bearing entity by its per-tick velocity,
/// unconditionally and without clamping. Only positions change.
pub fn apply_velocity(movers: &mut Vec<Mover>)
    requires
        movers_fit(old(movers)@),
    ensures
        final(movers)@.len() == old(movers)@.len(),
        forall|i: int|
            0 <= i < old(movers)@.len() ==> {
                &&& final(movers)@[i].position.x == old(movers)@[i].position.x
                    + old(movers)@[i].velocity.x
                &&& final(movers)@[i].position.y == old(movers)@[i].position.y
                    + old(movers)@[i].velocity.y
                &&& final(movers)@[i].velocity == old(movers)@[i].velocity
            },
{
    let ghost orig = movers@;
    let mut idx: usize = 0;
    while idx < movers.len()
        invariant
            movers_fit(orig),
            idx <= orig.len(),
            movers@.len() == orig.len(),
            forall|i: int|
                0 <= i < idx ==> {
                    &&& movers@[i].position.x == orig[i].position.x + orig[i].velocity.x
                    &&& movers@[i].position.y == orig[i].position.y + orig[i].velocity.y
                    &&& movers@[i].velocity == orig[i].velocity
                },
            forall|i: int| idx <= i < orig.len() ==> movers@[i] == orig[i],
        decreases orig.len() - idx,
    {
        let m = movers[idx];
        proof {
            assert(m == orig[idx as int]);
            assert(mover_fits(orig[idx as int]));
        }
        let advanced = Mover {
            position: Vec2 { x: m.position.x + m.velocity.x, y: m.position.y + m.velocity.y },
            velocity: m.velocity,
        };
        movers.set(idx, advanced);
        idx += 1;
    }
}

/// A freshly spawned enemy: its center lies in the half-open arena spans.
pub open spec fn enemy_in_spawn_area(e: Enemy) -> bool {
    &&& LEFT_WALL <= e.position.x < RIGHT_WALL
    &&& BOTTOM_WALL <= e.position.y < TOP_WALL
}

/// Create one new enemy at a position sampled independently and uniformly at
/// random within the arena spans, and append it to the live enemies. No cap:
/// enemies accumulate until removed by collision.
pub fn spawn_enemy(enemies: &mut Vec<Enemy>)
    ensures
        final(enemies)@.len() == old(enemies)@.len() + 1,
        final(enemies)@.drop_last() == old(enemies)@,
        enemy_in_spawn_area(final(enemies)@.last()),
{
    let x = random_in_range(LEFT_WALL, RIGHT_WALL);
    let y = random_in_range(BOTTOM_WALL, TOP_WALL);
    enemies.push(Enemy { position: Vec2 { x, y } });
    proof {
        assert(enemies@.drop_last() =~= old(enemies)@);
    }
}

} // verus!
