//! Collision detection and scoring: once per physics tick the player's box is
//! tested against every collider (the four walls and every live enemy). Each
//! overlap emits one collision event; an overlapped enemy is removed and
//! scores one point; walls are solid but unscored. The sound trigger then
//! collapses the events of the tick to a single "play once" decision and
//! clears the queue.

use crate::arena::{WallBundle, ENEMY_SIZE, PACMAN_SIZE};
use crate::geometry::{boxes_overlap, rects_overlap, Vec2};
use crate::state::{Enemy, GameState, Pacman};
use vstd::prelude::*;

verus! {

/// The player's full extents.
pub open spec fn pacman_extents() -> Vec2 {
    Vec2 { x: PACMAN_SIZE, y: PACMAN_SIZE }
}

/// An enemy's full extents.
pub open spec fn enemy_extents() -> Vec2 {
    Vec2 { x: ENEMY_SIZE, y: ENEMY_SIZE }
}

/// The player's box overlaps this enemy's box (strictly, edge contact aside).
pub open spec fn enemy_hit(p: Pacman, e: Enemy) -> bool {
    rects_overlap(p.position, pacman_extents(), e.position, enemy_extents())
}

/// The player's box overlaps this wall's box.
pub open spec fn wall_hit(p: Pacman, w: WallBundle) -> bool {
    rects_overlap(p.position, pacman_extents(), w.position, w.size)
}

/// How many of the walls the player overlaps.
pub open spec fn wall_hit_count(p: Pacman, ws: Seq<WallBundle>) -> int
    decreases ws.len(),
{
    if ws.len() == 0 {
        0
    } else {
        wall_hit_count(p, ws.drop_last()) + if wall_hit(p, ws.last()) {
            1int
        } else {
            0int
        }
    }
}

/// How many of the enemies the player overlaps.
pub open spec fn enemy_hit_count(p: Pacman, es: Seq<Enemy>) -> int
    decreases es.len(),
{
    if es.len() == 0 {
        0
    } else {
        enemy_hit_count(p, es.drop_last()) + if enemy_hit(p, es.last()) {
            1int
        } else {
            0int
        }
    }
}

/// The enemies left after one collision pass: those the player does not
/// overlap, in the order they stood.
pub open spec fn surviving_enemies(p: Pacman, es: Seq<Enemy>) -> Seq<Enemy>
    decreases es.len(),
{
    if es.len() == 0 {
        Seq::<Enemy>::empty()
    } else {
        surviving_enemies(p, es.drop_last()) + if enemy_hit(p, es.last()) {
            Seq::<Enemy>::empty()
        } else {
            seq![es.last()]
        }
    }
}

/// No more walls can be hit than there are.
pub proof fn lemma_wall_hit_count_le_len(p: Pacman, ws: Seq<WallBundle>)
    ensures
        0 <= wall_hit_count(p, ws) <= ws.len(),
    decreases ws.len(),
{
    if ws.len() > 0 {
        lemma_wall_hit_count_le_len(p, ws.drop_last());
    }
}

/// No more enemies can be hit than there are, and exactly the unhit ones
/// survive: survivors and hits together account for every enemy.
pub proof fn lemma_enemy_hit_count_le_len(p: Pacman, es: Seq<Enemy>)
    ensures
        0 <= enemy_hit_count(p, es) <= es.len(),
        surviving_enemies(p, es).len() + enemy_hit_count(p, es) == es.len(),
    decreases es.len(),
{
    if es.len() > 0 {
        lemma_enemy_hit_count_le_len(p, es.drop_last());
    }
}

/// A player box fully disjoint from every collider box leaves everything
/// unchanged: no wall event, no enemy event, no enemy removed — and with the
/// score formula of `check_for_collisions`, no score change.
pub proof fn lemma_disjoint_pass_no_effect(p: Pacman, ws: Seq<WallBundle>, es: Seq<Enemy>)
    requires
        forall|i: int| 0 <= i < ws.len() ==> !wall_hit(p, #[trigger] ws[i]),
        forall|i: int| 0 <= i < es.len() ==> !enemy_hit(p, #[trigger] es[i]),
    ensures
        wall_hit_count(p, ws) == 0,
        enemy_hit_count(p, es) == 0,
        surviving_enemies(p, es) == es,
    decreases ws.len() + es.len(),
{
    if ws.len() > 0 {
        lemma_disjoint_pass_no_effect(p, ws.drop_last(), es);
    } else if es.len() > 0 {
        lemma_disjoint_pass_no_effect(p, ws, es.drop_last());
        assert(surviving_enemies(p, es.drop_last()) + seq![es.last()] =~= es);
    }
}

/// Every enemy that survives a collision pass is one the player does not
/// overlap.
pub proof fn lemma_survivors_unhit(p: Pacman, es: Seq<Enemy>)
    ensures
        forall|i: int|
            0 <= i < surviving_enemies(p, es).len() ==> !enemy_hit(
                p,
                #[trigger] surviving_enemies(p, es)[i],
            ),
    decreases es.len(),
{
    if es.len() > 0 {
        lemma_survivors_unhit(p, es.drop_last());
        let s1 = surviving_enemies(p, es.drop_last());
        let s = surviving_enemies(p, es);
        if enemy_hit(p, es.last()) {
            assert(s =~= s1);
        } else {
            assert forall|i: int| 0 <= i < s.len() implies !enemy_hit(p, #[trigger] s[i]) by {
                if i < s1.len() {
                    assert(s[i] == s1[i]);
                } else {
                    assert(s[i] == es.last());
                }
            }
        }
    }
}

/// A second identical collision pass is a no-op for the enemies: every enemy
/// removed by the first pass is gone, so the second pass hits nothing, emits
/// no enemy event, and removes nothing.
pub proof fn lemma_second_pass_no_enemy_events(p: Pacman, es: Seq<Enemy>)
    ensures
        enemy_hit_count(p, surviving_enemies(p, es)) == 0,
        surviving_enemies(p, surviving_enemies(p, es)) == surviving_enemies(p, es),
{
    lemma_survivors_unhit(p, es);
    lemma_disjoint_pass_no_effect(p, Seq::<WallBundle>::empty(), surviving_enemies(p, es));
}

/// A pass in which the player overlaps exactly one enemy emits exactly one
/// enemy event — so exactly one point is scored — and removes exactly that
/// enemy, leaving the others in their order.
pub proof fn lemma_single_hit(p: Pacman, es: Seq<Enemy>, k: int)
    requires
        0 <= k < es.len(),
        enemy_hit(p, es[k]),
        forall|i: int| 0 <= i < es.len() && i != k ==> !enemy_hit(p, #[trigger] es[i]),
    ensures
        enemy_hit_count(p, es) == 1,
        surviving_enemies(p, es) == es.remove(k),
    decreases es.len(),
{
    if k == es.len() - 1 {
        lemma_disjoint_pass_no_effect(p, Seq::<WallBundle>::empty(), es.drop_last());
        assert(surviving_enemies(p, es) =~= es.remove(k));
    } else {
        lemma_single_hit(p, es.drop_last(), k);
        assert(surviving_enemies(p, es) =~= es.remove(k));
    }
}

/// Run the collision and scoring pass over the current state: test the
/// player's box against every wall and every enemy present at the start of
/// the pass, emit one collision event per overlap, and for each overlapped
/// enemy add one point and remove it. Walls cause events only. The player,
/// the walls and the movers are untouched.
pub fn check_for_collisions(state: &mut GameState)
    requires
        old(state).scoreboard.score + old(state).enemies@.len() <= usize::MAX,
        old(state).collision_events + old(state).walls@.len() + old(state).enemies@.len()
            <= usize::MAX,
    ensures
        final(state).pacman == old(state).pacman,
        final(state).walls@ == old(state).walls@,
        final(state).movers@ == old(state).movers@,
        final(state).enemies@ == surviving_enemies(old(state).pacman, old(state).enemies@),
        final(state).scoreboard.score == old(state).scoreboard.score + enemy_hit_count(
            old(state).pacman,
            old(state).enemies@,
        ),
        final(state).collision_events == old(state).collision_events + wall_hit_count(
            old(state).pacman,
            old(state).walls@,
        ) + enemy_hit_count(old(state).pacman, old(state).enemies@),
{
    let pacman = state.pacman;
    let pacman_size = Vec2 { x: PACMAN_SIZE, y: PACMAN_SIZE };
    let enemy_size = Vec2 { x: ENEMY_SIZE, y: ENEMY_SIZE };
    let ghost walls0 = state.walls@;
    let ghost enemies0 = state.enemies@;

    let mut events: usize = state.collision_events;
    let mut i: usize = 0;
    while i < state.walls.len()
        invariant
            state.pacman == old(state).pacman,
            state.walls@ == old(state).walls@,
            state.enemies@ == old(state).enemies@,
            state.movers@ == old(state).movers@,
            state.scoreboard == old(state).scoreboard,
            pacman == old(state).pacman,
            pacman_size == pacman_extents(),
            walls0 == old(state).walls@,
            enemies0 == old(state).enemies@,
            old(state).collision_events + walls0.len() + enemies0.len() <= usize::MAX,
            i <= walls0.len(),
            events == old(state).collision_events + wall_hit_count(pacman, walls0.take(i as int)),
        decreases walls0.len() - i,
    {
        let w = &state.walls[i];
        let overlap = boxes_overlap(pacman.position, pacman_size, w.position, w.size);
        proof {
            assert(walls0.take(i + 1).drop_last() =~= walls0.take(i as int));
            assert(walls0.take(i + 1).last() == walls0[i as int]);
            lemma_wall_hit_count_le_len(pacman, walls0.take(i as int));
        }
        if overlap {
            events = events + 1;
        }
        i += 1;
    }
    proof {
        assert(walls0.take(walls0.len() as int) =~= walls0);
    }

    let mut survivors: Vec<Enemy> = Vec::new();
    let mut score: usize = state.scoreboard.score;
    let mut j: usize = 0;
    while j < state.enemies.len()
        invariant
            state.pacman == old(state).pacman,
            state.walls@ == old(state).walls@,
            state.enemies@ == old(state).enemies@,
            state.movers@ == old(state).movers@,
            state.scoreboard == old(state).scoreboard,
            pacman == old(state).pacman,
            pacman_size == pacman_extents(),
            enemy_size == enemy_extents(),
            walls0 == old(state).walls@,
            enemies0 == old(state).enemies@,
            old(state).scoreboard.score + enemies0.len() <= usize::MAX,
            old(state).collision_events + walls0.len() + enemies0.len() <= usize::MAX,
            events == old(state).collision_events + wall_hit_count(pacman, walls0)
                + enemy_hit_count(pacman, enemies0.take(j as int)),
            j <= enemies0.len(),
            survivors@ == surviving_enemies(pacman, enemies0.take(j as int)),
            score == old(state).scoreboard.score + enemy_hit_count(
                pacman,
                enemies0.take(j as int),
            ),
        decreases enemies0.len() - j,
    {
        let e = state.enemies[j];
        let overlap = boxes_overlap(pacman.position, pacman_size, e.position, enemy_size);
        proof {
            assert(enemies0.take(j + 1).drop_last() =~= enemies0.take(j as int));
            assert(enemies0.take(j + 1).last() == enemies0[j as int]);
            lemma_enemy_hit_count_le_len(pacman, enemies0.take(j as int));
            lemma_wall_hit_count_le_len(pacman, walls0);
        }
        if overlap {
            score = score + 1;
            events = events + 1;
        } else {
            survivors.push(e);
            proof {
                assert(survivors@ =~= surviving_enemies(pacman, enemies0.take(j + 1)));
            }
        }
        j += 1;
    }
    proof {
        assert(enemies0.take(enemies0.len() as int) =~= enemies0);
    }

    state.enemies = survivors;
    state.scoreboard.score = score;
    state.collision_events = events;
}

/// The sound-trigger decision for this tick: if any collision event is
/// pending, report that the collision sound is to be played once — however
/// many events accumulated — and clear the whole queue; otherwise do nothing.
pub fn play_collision_sound(state: &mut GameState) -> (play: bool)
    ensures
        play == (old(state).collision_events > 0),
        final(state).collision_events == 0,
        final(state).pacman == old(state).pacman,
        final(state).walls@ == old(state).walls@,
        final(state).enemies@ == old(state).enemies@,
        final(state).movers@ == old(state).movers@,
        final(state).scoreboard == old(state).scoreboard,
{
    if state.collision_events > 0 {
        state.collision_events = 0;
        true
    } else {
        false
    }
}

} // verus!
