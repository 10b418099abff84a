//! Core simulation logic of a small 2D arcade game: a player square moves
//! inside a walled arena, periodically spawned enemy squares are removed on
//! contact with the player, and each contact scores a point and signals a
//! collision event.
//!
//! Coordinates are fixed-point integers: one world unit is `COORD_SCALE`
//! subunits, so that a speed given in world units per second advances a whole
//! number of subunits per physics tick.

pub mod arena;
pub mod collisions;
pub mod geometry;
mod rng;
pub mod scoreboard;
pub mod sim;
pub mod state;
pub mod systems;
pub mod timestep;
