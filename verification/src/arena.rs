//! Arena geometry: the wall positions and sizes, the playfield bounds the
//! player is clamped to, and the fixed sizes and speeds of the game's
//! entities. All lengths are in fixed-point subunits (`COORD_SCALE` subunits
//! per world unit); speeds are whole subunits per physics tick.

use crate::geometry::Vec2;
use vstd::prelude::*;

verus! {

/// Physics ticks per second.
pub const TICKS_PER_SECOND: i64 = 60;

/// Fixed-point scale: subunits per world unit. Chosen equal to the tick rate
/// so that a speed in world units per second is a whole number of subunits
/// per tick.
pub const COORD_SCALE: i64 = 60;

/// Player square extent (60 world units).
pub const PACMAN_SIZE: i64 = 60 * COORD_SCALE;

/// Gap between the bottom wall and the player's starting position.
pub const GAP_BETWEEN_PACMAN_AND_FLOOR: i64 = 60 * COORD_SCALE;

/// Player speed in world units per second.
pub const PACMAN_SPEED: i64 = 500;

/// Player displacement per physics tick, in subunits: `PACMAN_SPEED` world
/// units per second times `COORD_SCALE` subunits per unit, spread over
/// `TICKS_PER_SECOND` ticks.
pub const PACMAN_STEP: i64 = 500;

/// Half the player's extent, in subunits.
pub const PACMAN_HALF: i64 = 30 * COORD_SCALE;

/// Half a wall's thickness, in subunits.
pub const WALL_HALF: i64 = 5 * COORD_SCALE;

/// How close the player can get to a wall, in subunits.
pub const PACMAN_PADDING: i64 = 10 * COORD_SCALE;

pub const WALL_THICKNESS: i64 = 10 * COORD_SCALE;

/// x coordinate of the left wall's center line.
pub const LEFT_WALL: i64 = -450 * COORD_SCALE;

/// x coordinate of the right wall's center line.
pub const RIGHT_WALL: i64 = 450 * COORD_SCALE;

/// y coordinate of the bottom wall's center line.
pub const BOTTOM_WALL: i64 = -300 * COORD_SCALE;

/// y coordinate of the top wall's center line.
pub const TOP_WALL: i64 = 300 * COORD_SCALE;

/// Enemy square extent (30 world units).
pub const ENEMY_SIZE: i64 = 30 * COORD_SCALE;

/// Seconds between two enemy spawns.
pub const ENEMY_SPAWN_STEP_SECONDS: i64 = 1;

/// Smallest x the player's center may take: the arena interior, in from the
/// left wall by half its thickness, half the player's size and the padding.
pub const LEFT_BOUND: i64 = LEFT_WALL + WALL_HALF + PACMAN_HALF + PACMAN_PADDING;

/// Largest x the player's center may take, in from the right wall likewise.
pub const RIGHT_BOUND: i64 = RIGHT_WALL - WALL_HALF - PACMAN_HALF - PACMAN_PADDING;

/// Largest y the player's center may take, in from the top wall likewise.
pub const UP_BOUND: i64 = TOP_WALL - WALL_HALF - PACMAN_HALF - PACMAN_PADDING;

/// Smallest y the player's center may take, in from the bottom wall likewise.
pub const BOTTOM_BOUND: i64 = BOTTOM_WALL + WALL_HALF + PACMAN_HALF + PACMAN_PADDING;

/// Which side of the arena a wall is located on.
#[derive(Clone, Copy, PartialEq, Eq, Structural, Debug)]
pub enum WallLocation {
    Left,
    Right,
    Bottom,
    Top,
}

/// The geometry of one wall entity: its center and its full extents.
#[derive(Clone, Copy, PartialEq, Eq, Structural, Debug)]
pub struct WallBundle {
    pub position: Vec2,
    pub size: Vec2,
}

impl WallLocation {
    /// Center of the wall on this side.
    pub open spec fn spec_position(self) -> Vec2 {
        match self {
            WallLocation::Left => Vec2 { x: LEFT_WALL, y: 0 },
            WallLocation::Right => Vec2 { x: RIGHT_WALL, y: 0 },
            WallLocation::Bottom => Vec2 { x: 0, y: BOTTOM_WALL },
            WallLocation::Top => Vec2 { x: 0, y: TOP_WALL },
        }
    }

    pub fn position(&self) -> (p: Vec2)
        ensures
            p == self.spec_position(),
    {
        match self {
            WallLocation::Left => Vec2 { x: LEFT_WALL, y: 0 },
            WallLocation::Right => Vec2 { x: RIGHT_WALL, y: 0 },
            WallLocation::Bottom => Vec2 { x: 0, y: BOTTOM_WALL },
            WallLocation::Top => Vec2 { x: 0, y: TOP_WALL },
        }
    }

    /// Full extents of the wall on this side: vertical walls span the arena
    /// height plus one thickness, horizontal walls the width plus one.
    pub open spec fn spec_size(self) -> Vec2 {
        match self {
            WallLocation::Left | WallLocation::Right => Vec2 {
                x: WALL_THICKNESS,
                y: (TOP_WALL - BOTTOM_WALL + WALL_THICKNESS) as i64,
            },
            WallLocation::Bottom | WallLocation::Top => Vec2 {
                x: (RIGHT_WALL - LEFT_WALL + WALL_THICKNESS) as i64,
                y: WALL_THICKNESS,
            },
        }
    }

    pub fn size(&self) -> (s: Vec2)
        ensures
            s == self.spec_size(),
            s.x > 0 && s.y > 0,
    {
        let arena_height: i64 = TOP_WALL - BOTTOM_WALL;
        let arena_width: i64 = RIGHT_WALL - LEFT_WALL;
        assert(arena_height > 0);
        assert(arena_width > 0);
        match self {
            WallLocation::Left | WallLocation::Right => Vec2 {
                x: WALL_THICKNESS,
                y: arena_height + WALL_THICKNESS,
            },
            WallLocation::Bottom | WallLocation::Top => Vec2 {
                x: arena_width + WALL_THICKNESS,
                y: WALL_THICKNESS,
            },
        }
    }
}

impl WallBundle {
    /// The wall entity on the given side, with the canonical position and
    /// size for that side.
    pub fn new(location: WallLocation) -> (w: WallBundle)
        ensures
            w.position == location.spec_position(),
            w.size == location.spec_size(),
    {
        WallBundle { position: location.position(), size: location.size() }
    }
}

} // verus!
