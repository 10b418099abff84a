//! The simulation state: the player, the four walls, the live enemies, the
//! velocity-bearing movers, the score, and the transient collision-event
//! count of the current tick. `setup` builds the initial state; `wf` is the
//! invariant every tick preserves.

use crate::arena::{
    WallBundle, WallLocation, BOTTOM_BOUND, BOTTOM_WALL, GAP_BETWEEN_PACMAN_AND_FLOOR, LEFT_BOUND,
    RIGHT_BOUND, UP_BOUND,
};
use crate::geometry::Vec2;
use vstd::prelude::*;

verus! {

/// The player entity: a unique square of extent `PACMAN_SIZE`, only its
/// center moves.
#[derive(Clone, Copy, PartialEq, Eq, Structural, Debug)]
pub struct Pacman {
    pub position: Vec2,
}

/// An enemy entity: a square of extent `ENEMY_SIZE` centered at `position`.
#[derive(Clone, Copy, PartialEq, Eq, Structural, Debug)]
pub struct Enemy {
    pub position: Vec2,
}

/// A velocity-bearing entity, advanced by velocity integration. `velocity`
/// is the displacement per physics tick, in subunits.
#[derive(Clone, Copy, PartialEq, Eq, Structural, Debug)]
pub struct Mover {
    pub position: Vec2,
    pub velocity: Vec2,
}

/// The game's score: incremented by exactly one per enemy collision, never
/// decremented.
#[derive(Clone, Copy, PartialEq, Eq, Structural, Debug)]
pub struct Scoreboard {
    pub score: usize,
}

/// The whole simulation state.
pub struct GameState {
    pub pacman: Pacman,
    pub walls: Vec<WallBundle>,
    pub enemies: Vec<Enemy>,
    pub movers: Vec<Mover>,
    pub scoreboard: Scoreboard,
    /// Collision events emitted this tick and not yet consumed by the sound
    /// trigger. Events are valueless; only their number is kept.
    pub collision_events: usize,
}

/// The player's center lies within the arena-derived bounds.
pub open spec fn pacman_in_bounds(p: Pacman) -> bool {
    &&& LEFT_BOUND <= p.position.x <= RIGHT_BOUND
    &&& BOTTOM_BOUND <= p.position.y <= UP_BOUND
}

/// The canonical four walls, one per side, in a fixed order.
pub open spec fn walls_canonical(ws: Seq<WallBundle>) -> bool {
    &&& ws.len() == 4
    &&& ws[0].position == WallLocation::Left.spec_position()
    &&& ws[0].size == WallLocation::Left.spec_size()
    &&& ws[1].position == WallLocation::Right.spec_position()
    &&& ws[1].size == WallLocation::Right.spec_size()
    &&& ws[2].position == WallLocation::Bottom.spec_position()
    &&& ws[2].size == WallLocation::Bottom.spec_size()
    &&& ws[3].position == WallLocation::Top.spec_position()
    &&& ws[3].size == WallLocation::Top.spec_size()
}

impl GameState {
    /// Well-formedness: exactly one player within bounds, and exactly the
    /// four canonical walls, never moved or removed.
    pub open spec fn wf(self) -> bool {
        &&& pacman_in_bounds(self.pacman)
        &&& walls_canonical(self.walls@)
    }
}

/// The player's starting position: centered horizontally, one gap above the
/// bottom wall.
pub open spec fn initial_pacman_position() -> Vec2 {
    Vec2 { x: 0, y: (BOTTOM_WALL + GAP_BETWEEN_PACMAN_AND_FLOOR) as i64 }
}

/// Build the initial state: the player at its starting position, the four
/// walls, no enemies, no movers, score zero, no pending collision events.
pub fn setup() -> (s: GameState)
    ensures
        s.wf(),
        s.pacman.position == initial_pacman_position(),
        s.walls@.len() == 4,
        s.enemies@ == Seq::<Enemy>::empty(),
        s.movers@ == Seq::<Mover>::empty(),
        s.scoreboard.score == 0,
        s.collision_events == 0,
{
    let mut walls: Vec<WallBundle> = Vec::new();
    walls.push(WallBundle::new(WallLocation::Left));
    walls.push(WallBundle::new(WallLocation::Right));
    walls.push(WallBundle::new(WallLocation::Bottom));
    walls.push(WallBundle::new(WallLocation::Top));
    let pacman_y: i64 = BOTTOM_WALL + GAP_BETWEEN_PACMAN_AND_FLOOR;
    GameState {
        pacman: Pacman { position: Vec2 { x: 0, y: pacman_y } },
        walls,
        enemies: Vec::new(),
        movers: Vec::new(),
        scoreboard: Scoreboard { score: 0 },
        collision_events: 0,
    }
}

} // verus!
