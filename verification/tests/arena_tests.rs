use pacman_arena::arena::{
    WallBundle, WallLocation, BOTTOM_BOUND, BOTTOM_WALL, COORD_SCALE, ENEMY_SIZE, LEFT_BOUND,
    LEFT_WALL, PACMAN_SIZE, PACMAN_STEP, RIGHT_BOUND, RIGHT_WALL, TOP_WALL, UP_BOUND,
    WALL_THICKNESS,
};
use pacman_arena::geometry::{boxes_overlap, clamp_i64, Vec2};

#[test]
fn arena_constants_match_world_units() {
    assert_eq!(COORD_SCALE, 60);
    assert_eq!(LEFT_WALL, -450 * 60);
    assert_eq!(RIGHT_WALL, 450 * 60);
    assert_eq!(BOTTOM_WALL, -300 * 60);
    assert_eq!(TOP_WALL, 300 * 60);
    assert_eq!(WALL_THICKNESS, 10 * 60);
    assert_eq!(PACMAN_SIZE, 60 * 60);
    assert_eq!(ENEMY_SIZE, 30 * 60);
}

#[test]
fn player_bounds_derive_from_arena() {
    // left_bound = -450 + 5 + 30 + 10 = -405 world units.
    assert_eq!(LEFT_BOUND, -405 * COORD_SCALE);
    // right_bound = 450 - 5 - 30 - 10 = 405 world units.
    assert_eq!(RIGHT_BOUND, 405 * COORD_SCALE);
    // bottom_bound = -300 + 5 + 30 + 10 = -255 world units.
    assert_eq!(BOTTOM_BOUND, -255 * COORD_SCALE);
    // up_bound = 300 - 5 - 30 - 10 = 255 world units.
    assert_eq!(UP_BOUND, 255 * COORD_SCALE);
}

#[test]
fn one_tick_at_full_speed_moves_a_sixtieth_of_the_speed() {
    // 500 world units per second over 60 ticks per second: one tick moves
    // 500 subunits, which is 500/60 = 8.33... world units.
    assert_eq!(PACMAN_STEP, 500);
    let world_units = PACMAN_STEP as f64 / COORD_SCALE as f64;
    assert!((world_units - 8.333333).abs() < 0.001);
}

#[test]
fn wall_geometry_per_side() {
    let left = WallBundle::new(WallLocation::Left);
    assert_eq!(left.position, Vec2 { x: LEFT_WALL, y: 0 });
    assert_eq!(
        left.size,
        Vec2 { x: WALL_THICKNESS, y: TOP_WALL - BOTTOM_WALL + WALL_THICKNESS }
    );

    let right = WallBundle::new(WallLocation::Right);
    assert_eq!(right.position, Vec2 { x: RIGHT_WALL, y: 0 });
    assert_eq!(right.size, left.size);

    let bottom = WallBundle::new(WallLocation::Bottom);
    assert_eq!(bottom.position, Vec2 { x: 0, y: BOTTOM_WALL });
    assert_eq!(
        bottom.size,
        Vec2 { x: RIGHT_WALL - LEFT_WALL + WALL_THICKNESS, y: WALL_THICKNESS }
    );

    let top = WallBundle::new(WallLocation::Top);
    assert_eq!(top.position, Vec2 { x: 0, y: TOP_WALL });
    assert_eq!(top.size, bottom.size);
}

#[test]
fn overlap_is_strict_at_edge_contact() {
    let size = Vec2 { x: 60, y: 60 };
    let origin = Vec2 { x: 0, y: 0 };
    // Touching exactly at the edge: centers 60 apart, half-extents sum to 60.
    assert!(!boxes_overlap(origin, size, Vec2 { x: 60, y: 0 }, size));
    assert!(!boxes_overlap(origin, size, Vec2 { x: 0, y: -60 }, size));
    // One subunit closer: a real overlap.
    assert!(boxes_overlap(origin, size, Vec2 { x: 59, y: 0 }, size));
    assert!(boxes_overlap(origin, size, Vec2 { x: 0, y: -59 }, size));
    // Overlap on one axis only is no collision.
    assert!(!boxes_overlap(origin, size, Vec2 { x: 10, y: 200 }, size));
    // Identical boxes overlap.
    assert!(boxes_overlap(origin, size, origin, size));
}

#[test]
fn clamp_behaviour() {
    assert_eq!(clamp_i64(5, -10, 10), 5);
    assert_eq!(clamp_i64(-11, -10, 10), -10);
    assert_eq!(clamp_i64(11, -10, 10), 10);
    assert_eq!(clamp_i64(10, -10, 10), 10);
}
