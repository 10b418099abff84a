use pacman_arena::arena::{
    BOTTOM_WALL, GAP_BETWEEN_PACMAN_AND_FLOOR, LEFT_BOUND, LEFT_WALL, PACMAN_STEP, RIGHT_BOUND,
    RIGHT_WALL, TOP_WALL, UP_BOUND, BOTTOM_BOUND,
};
use pacman_arena::collisions::{check_for_collisions, play_collision_sound};
use pacman_arena::geometry::Vec2;
use pacman_arena::sim::tick;
use pacman_arena::state::{setup, Enemy, Mover, Pacman};
use pacman_arena::systems::{apply_velocity, move_pacman, spawn_enemy};

#[test]
fn setup_builds_the_initial_world() {
    let state = setup();
    assert_eq!(
        state.pacman.position,
        Vec2 { x: 0, y: BOTTOM_WALL + GAP_BETWEEN_PACMAN_AND_FLOOR }
    );
    assert_eq!(state.walls.len(), 4);
    assert!(state.enemies.is_empty());
    assert!(state.movers.is_empty());
    assert_eq!(state.scoreboard.score, 0);
    assert_eq!(state.collision_events, 0);
}

#[test]
fn one_tick_holding_right_moves_one_step_unclamped() {
    let mut pacman = Pacman { position: Vec2 { x: 0, y: 0 } };
    move_pacman(&mut pacman, false, true, false, false);
    assert_eq!(pacman.position, Vec2 { x: PACMAN_STEP, y: 0 });
}

#[test]
fn left_takes_precedence_over_right_and_down_over_up() {
    let mut pacman = Pacman { position: Vec2 { x: 0, y: 0 } };
    move_pacman(&mut pacman, true, true, true, true);
    assert_eq!(pacman.position, Vec2 { x: -PACMAN_STEP, y: -PACMAN_STEP });
}

#[test]
fn no_key_held_stands_still() {
    let mut pacman = Pacman { position: Vec2 { x: 123, y: -456 } };
    move_pacman(&mut pacman, false, false, false, false);
    assert_eq!(pacman.position, Vec2 { x: 123, y: -456 });
}

#[test]
fn sustained_input_stays_clamped_to_bounds() {
    let mut pacman = Pacman { position: Vec2 { x: 0, y: 0 } };
    for _ in 0..200 {
        move_pacman(&mut pacman, false, true, false, true);
        assert!(LEFT_BOUND <= pacman.position.x && pacman.position.x <= RIGHT_BOUND);
        assert!(BOTTOM_BOUND <= pacman.position.y && pacman.position.y <= UP_BOUND);
    }
    assert_eq!(pacman.position, Vec2 { x: RIGHT_BOUND, y: UP_BOUND });
    for _ in 0..200 {
        move_pacman(&mut pacman, true, false, true, false);
    }
    assert_eq!(pacman.position, Vec2 { x: LEFT_BOUND, y: BOTTOM_BOUND });
}

#[test]
fn velocity_integration_advances_every_mover() {
    let mut movers = vec![
        Mover { position: Vec2 { x: 0, y: 0 }, velocity: Vec2 { x: 5, y: -3 } },
        Mover { position: Vec2 { x: 100, y: 200 }, velocity: Vec2 { x: 0, y: 7 } },
    ];
    apply_velocity(&mut movers);
    assert_eq!(movers[0].position, Vec2 { x: 5, y: -3 });
    assert_eq!(movers[1].position, Vec2 { x: 100, y: 207 });
    assert_eq!(movers[0].velocity, Vec2 { x: 5, y: -3 });
    apply_velocity(&mut movers);
    assert_eq!(movers[0].position, Vec2 { x: 10, y: -6 });
}

#[test]
fn spawned_enemy_lies_in_the_arena_spans() {
    let mut enemies: Vec<Enemy> = Vec::new();
    spawn_enemy(&mut enemies);
    assert_eq!(enemies.len(), 1);
    let e = enemies[0];
    assert!(LEFT_WALL <= e.position.x && e.position.x < RIGHT_WALL);
    assert!(BOTTOM_WALL <= e.position.y && e.position.y < TOP_WALL);
}

#[test]
fn spawns_vary_and_accumulate_without_cap() {
    let mut enemies: Vec<Enemy> = Vec::new();
    for _ in 0..100 {
        spawn_enemy(&mut enemies);
    }
    assert_eq!(enemies.len(), 100);
    for e in &enemies {
        assert!(LEFT_WALL <= e.position.x && e.position.x < RIGHT_WALL);
        assert!(BOTTOM_WALL <= e.position.y && e.position.y < TOP_WALL);
    }
    let first = enemies[0].position;
    assert!(enemies.iter().any(|e| e.position != first));
}

#[test]
fn disjoint_colliders_leave_everything_unchanged() {
    let mut state = setup();
    // An enemy far from the player: no overlap with the player's box.
    state.enemies.push(Enemy { position: Vec2 { x: 20000, y: 15000 } });
    check_for_collisions(&mut state);
    assert_eq!(state.scoreboard.score, 0);
    assert_eq!(state.collision_events, 0);
    assert_eq!(state.enemies.len(), 1);
}

#[test]
fn overlapping_enemy_scores_once_and_is_removed() {
    let mut state = setup();
    let player_pos = state.pacman.position;
    state.enemies.push(Enemy { position: player_pos });
    check_for_collisions(&mut state);
    assert_eq!(state.scoreboard.score, 1);
    assert_eq!(state.collision_events, 1);
    assert!(state.enemies.is_empty());

    // A second identical pass: the enemy is gone, nothing further happens.
    let played = play_collision_sound(&mut state);
    assert!(played);
    check_for_collisions(&mut state);
    assert_eq!(state.scoreboard.score, 1);
    assert_eq!(state.collision_events, 0);
}

#[test]
fn destruction_does_not_skip_other_enemies_of_the_same_pass() {
    let mut state = setup();
    let player_pos = state.pacman.position;
    let far = Enemy { position: Vec2 { x: 20000, y: 15000 } };
    state.enemies.push(Enemy { position: player_pos });
    state.enemies.push(far);
    state.enemies.push(Enemy { position: Vec2 { x: player_pos.x + 10, y: player_pos.y } });
    check_for_collisions(&mut state);
    // Both overlapping enemies are scored and removed; the far one survives.
    assert_eq!(state.scoreboard.score, 2);
    assert_eq!(state.collision_events, 2);
    assert_eq!(state.enemies.len(), 1);
    assert_eq!(state.enemies[0].position, far.position);
}

#[test]
fn three_events_play_the_sound_once_and_clear_the_queue() {
    let mut state = setup();
    state.collision_events = 3;
    let played = play_collision_sound(&mut state);
    assert!(played);
    assert_eq!(state.collision_events, 0);
    // Nothing pending: no sound.
    let played_again = play_collision_sound(&mut state);
    assert!(!played_again);
    assert_eq!(state.collision_events, 0);
}

#[test]
fn score_is_monotone_over_many_ticks() {
    let mut state = setup();
    for i in 0..120 {
        if i % 10 == 0 {
            spawn_enemy(&mut state.enemies);
        }
        let before = state.scoreboard.score;
        let right = i % 3 != 0;
        let up = i % 2 == 0;
        tick(&mut state, false, right, !up, up);
        assert!(state.scoreboard.score >= before);
        assert!(LEFT_BOUND <= state.pacman.position.x && state.pacman.position.x <= RIGHT_BOUND);
        assert!(
            BOTTOM_BOUND <= state.pacman.position.y && state.pacman.position.y <= UP_BOUND
        );
        assert_eq!(state.collision_events, 0);
    }
}

#[test]
fn a_full_tick_on_an_overlapping_enemy_plays_the_sound() {
    let mut state = setup();
    // Place an enemy exactly where the player will be after moving right.
    let target = Vec2 { x: state.pacman.position.x + PACMAN_STEP, y: state.pacman.position.y };
    state.enemies.push(Enemy { position: target });
    let played = tick(&mut state, false, true, false, false);
    assert!(played);
    assert_eq!(state.scoreboard.score, 1);
    assert!(state.enemies.is_empty());
    assert_eq!(state.collision_events, 0);

    // The next tick finds nothing: no sound, score unchanged.
    let played = tick(&mut state, false, false, false, false);
    assert!(!played);
    assert_eq!(state.scoreboard.score, 1);
}
