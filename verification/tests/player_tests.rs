//! Tests of the player controller: kinematic integration, boundary clamps,
//! friction, timers, aiming and the renderer-facing getters.

use grid_game::player::Player;
use grid_game::vec2::Vec2;

#[test]
fn new_player_initial_state() {
    let p = Player::new();
    assert_eq!(p.position, Vec2 { x: 20_000, y: 20_000 });
    assert_eq!(p.velocity, Vec2 { x: 0, y: 0 });
    assert_eq!(p.jump_counter, 100);
    assert_eq!(p.jump_timer, 0);
    assert_eq!(p.shoot_timer, 0);
    assert_eq!(p.charging_time, 0);
    assert_eq!(p.arm_offset, 8_000);
    assert_eq!(p.arm_direction, Vec2 { x: 1000, y: 0 });
    assert_eq!(p.facing_direction, Vec2 { x: 1000, y: 0 });
    assert!(!p.is_aiming);
}

#[test]
fn clamp_right_edge() {
    // World 320x120, player at (300, 20) moving right at 50 units/s, dt = 1 s:
    // the candidate x of 350 exceeds 310 = 320 - 10, so the position clamps
    // to 310 and the clamp zeroes the horizontal velocity; drift then adds
    // 10 and friction removes 50, and gravity pulls down by 200.
    let mut p = Player::new();
    p.position = Vec2 { x: 300_000, y: 20_000 };
    p.velocity = Vec2 { x: 50_000, y: 0 };
    p.update(1000);
    assert_eq!(p.position, Vec2 { x: 310_000, y: 20_000 });
    assert_eq!(p.velocity.x, -40_000);
    assert_eq!(p.velocity.y, 200_000);
    assert_eq!(p.jump_counter, 100);
}

#[test]
fn landing_resets_jumps_and_zeroes_fall() {
    // Falling onto the floor: the vertical clamp zeroes the fall velocity
    // and resets the jump counter; gravity stops at the floor.
    let mut p = Player::new();
    p.position = Vec2 { x: 20_000, y: 102_000 };
    p.velocity = Vec2 { x: 0, y: 10_000 };
    p.update(1000);
    assert_eq!(p.position.y, 102_000);
    assert_eq!(p.velocity.y, -10_000); // friction of the old velocity remains
    assert_eq!(p.jump_counter, 0);
}

#[test]
fn grounded_aim_lock_brakes_tenfold() {
    let mut p = Player::new();
    p.position = Vec2 { x: 20_000, y: 102_000 };
    p.velocity = Vec2 { x: 10_000, y: 10_000 };
    p.is_aiming = true;
    p.update(1000);
    assert_eq!(p.position, Vec2 { x: 30_000, y: 102_000 });
    assert_eq!(p.velocity.x, -80_000); // 10_000 + drift 10_000 - friction 100_000
    assert_eq!(p.velocity.y, -100_000);
}

#[test]
fn zero_dt_keeps_body_still_and_counts_timers_down() {
    let mut p = Player::new();
    p.velocity = Vec2 { x: 10_000, y: 0 };
    p.shoot_timer = 5;
    p.jump_timer = 7;
    p.update(0);
    assert_eq!(p.position, Vec2 { x: 20_000, y: 20_000 });
    assert_eq!(p.velocity, Vec2 { x: 10_000, y: 0 });
    assert_eq!(p.shoot_timer, 4);
    assert_eq!(p.jump_timer, 6);
}

#[test]
fn gravity_applies_above_floor() {
    let mut p = Player::new();
    p.update(500);
    assert_eq!(p.velocity.y, 100_000); // 200 units/s^2 for half a second
    assert_eq!(p.position, Vec2 { x: 20_000, y: 20_000 });
}

#[test]
fn aim_left_turns_facing() {
    let mut p = Player::new();
    p.aim_in_direction(Vec2 { x: -1000, y: 0 });
    assert_eq!(p.arm_direction, Vec2 { x: -1000, y: 0 });
    assert_eq!(p.facing_direction, Vec2 { x: -1000, y: 0 });
}

#[test]
fn aim_straight_up_keeps_facing() {
    let mut p = Player::new();
    p.aim_in_direction(Vec2 { x: 0, y: -1000 });
    assert_eq!(p.arm_direction, Vec2 { x: 0, y: -1000 });
    assert_eq!(p.facing_direction, Vec2 { x: 1000, y: 0 });
}

#[test]
fn aim_diagonal_is_unit_length() {
    let mut p = Player::new();
    p.aim_in_direction(Vec2 { x: 1000, y: 1000 });
    assert_eq!(p.arm_direction, Vec2 { x: 707, y: 707 });
    assert_eq!(p.facing_direction, Vec2 { x: 1000, y: 0 });
}

#[test]
fn set_is_aiming_toggles_flag() {
    let mut p = Player::new();
    p.set_is_aiming(true);
    assert!(p.is_aiming);
    p.set_is_aiming(false);
    assert!(!p.is_aiming);
}

#[test]
fn gun_position_offsets_along_arm() {
    let p = Player::new();
    assert_eq!(p.gun_position(), Vec2 { x: 30_500, y: 26_500 });
}

#[test]
fn charge_fraction_is_linear() {
    let mut p = Player::new();
    assert_eq!(p.charge_fraction(), 0);
    p.charging_time = 50;
    assert_eq!(p.charge_fraction(), 500);
    p.charging_time = 100;
    assert_eq!(p.charge_fraction(), 1000);
}
