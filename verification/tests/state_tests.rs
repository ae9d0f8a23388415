//! Tests of the simulation state: input sweep, jump gating, charging,
//! firing, the bullet pool tick and the camera tracker.

use grid_game::bullet::{Bullet, BulletType};
use grid_game::state::{InputKey, MainState};
use grid_game::vec2::Vec2;

fn quiet_bullet(cx: i64, cy: i64, hx: i64, hy: i64, vx: i64, vy: i64) -> Bullet {
    Bullet {
        center: Vec2 { x: cx, y: cy },
        half_extents: Vec2 { x: hx, y: hy },
        velocity: Vec2 { x: vx, y: vy },
        damage: 0,
        bullet_type: BulletType::Player,
    }
}

#[test]
fn new_state_is_empty() {
    let ms = MainState::new();
    assert_eq!(ms.camera_target, Vec2 { x: 0, y: 0 });
    assert_eq!(ms.bullets.len(), 0);
    assert!(!ms.input_events.jump);
    assert!(!ms.input_events.charge);
}

#[test]
fn grounded_jump_launches() {
    // Grounded player (y = 102 with an 18-unit body in a 120-unit world),
    // jump counter and timer clear, jump held: the sweep sets the launch
    // velocity, a 20-tick cooldown and one used jump.
    let mut ms = MainState::new();
    ms.player.position = Vec2 { x: 20_000, y: 102_000 };
    ms.player.jump_counter = 0;
    ms.key_down_event(InputKey::Jump);
    ms.process_inputs();
    assert_eq!(ms.player.velocity.y, -150_000);
    assert_eq!(ms.player.jump_timer, 20);
    assert_eq!(ms.player.jump_counter, 1);
}

#[test]
fn jump_does_not_retrigger_while_timer_hot() {
    let mut ms = MainState::new();
    ms.player.jump_counter = 0;
    ms.key_down_event(InputKey::Jump);
    ms.process_inputs();
    ms.player.velocity = Vec2 { x: 0, y: 0 };
    ms.process_inputs(); // timer is 20 now: no further effect
    assert_eq!(ms.player.velocity.y, 0);
    assert_eq!(ms.player.jump_counter, 1);
    assert_eq!(ms.player.jump_timer, 20);
}

#[test]
fn jump_blocked_after_double_jump() {
    let mut ms = MainState::new();
    ms.player.jump_counter = 0;
    ms.key_down_event(InputKey::Jump);
    ms.process_inputs();
    ms.player.jump_timer = 0; // cooldown has elapsed
    ms.process_inputs();
    assert_eq!(ms.player.jump_counter, 2);
    ms.player.jump_timer = 0;
    ms.player.velocity = Vec2 { x: 0, y: 0 };
    ms.process_inputs(); // both jumps used: gate closed
    assert_eq!(ms.player.velocity.y, 0);
    assert_eq!(ms.player.jump_counter, 2);
}

#[test]
fn charge_rises_and_saturates() {
    let mut ms = MainState::new();
    ms.player.charging_time = 99;
    ms.key_down_event(InputKey::ChargeFire);
    ms.process_inputs();
    assert_eq!(ms.player.charging_time, 100);
    ms.process_inputs();
    assert_eq!(ms.player.charging_time, 100); // saturated
}

#[test]
fn charge_unchanged_when_not_held() {
    let mut ms = MainState::new();
    ms.player.charging_time = 40;
    ms.process_inputs();
    assert_eq!(ms.player.charging_time, 40);
}

#[test]
fn full_charge_fire_spawns_big_bullet() {
    // charging_time = 100, release with a cold cooldown: half extents
    // (4, 4), damage 40, charge reset to 0.
    let mut ms = MainState::new();
    ms.player.charging_time = 100;
    ms.key_up_event(InputKey::ChargeFire);
    assert_eq!(ms.bullets.len(), 1);
    assert_eq!(ms.bullets[0].half_extents, Vec2 { x: 4_000, y: 4_000 });
    assert_eq!(ms.bullets[0].damage, 40_000);
    assert_eq!(ms.bullets[0].center, Vec2 { x: 37_000, y: 29_000 });
    assert_eq!(ms.bullets[0].velocity, Vec2 { x: 160_000, y: 0 });
    assert_eq!(ms.player.charging_time, 0);
    assert_eq!(ms.player.shoot_timer, 10);
}

#[test]
fn uncharged_fire_spawns_small_bullet() {
    let mut ms = MainState::new();
    ms.key_up_event(InputKey::ChargeFire);
    assert_eq!(ms.bullets.len(), 1);
    assert_eq!(ms.bullets[0].half_extents, Vec2 { x: 1_000, y: 1_000 });
    assert_eq!(ms.bullets[0].damage, 10_000);
    assert_eq!(ms.bullets[0].center, Vec2 { x: 34_000, y: 29_000 });
    assert_eq!(ms.bullets[0].velocity, Vec2 { x: 160_000, y: 0 });
}

#[test]
fn fire_on_cooldown_is_noop() {
    let mut ms = MainState::new();
    ms.player.shoot_timer = 5;
    ms.player.charging_time = 60;
    ms.key_up_event(InputKey::ChargeFire);
    assert_eq!(ms.bullets.len(), 0);
    assert_eq!(ms.player.charging_time, 60);
    assert_eq!(ms.player.shoot_timer, 5);
}

#[test]
fn movement_adds_impulse_and_aims() {
    let mut ms = MainState::new();
    ms.key_down_event(InputKey::MoveRight);
    ms.process_inputs();
    assert_eq!(ms.player.velocity.x, 2_000);
    assert_eq!(ms.player.arm_direction, Vec2 { x: 1000, y: 0 });
}

#[test]
fn aim_lock_suppresses_movement_but_not_aiming() {
    let mut ms = MainState::new();
    ms.key_down_event(InputKey::AimLock);
    assert!(ms.player.is_aiming);
    ms.key_down_event(InputKey::MoveLeft);
    ms.process_inputs();
    assert_eq!(ms.player.velocity.x, 0);
    assert_eq!(ms.player.arm_direction, Vec2 { x: -1000, y: 0 });
    assert_eq!(ms.player.facing_direction, Vec2 { x: -1000, y: 0 });
    ms.key_up_event(InputKey::AimLock);
    assert!(!ms.player.is_aiming);
}

#[test]
fn diagonal_aim_from_two_keys() {
    let mut ms = MainState::new();
    ms.key_down_event(InputKey::MoveRight);
    ms.key_down_event(InputKey::AimDown);
    ms.process_inputs();
    assert_eq!(ms.player.arm_direction, Vec2 { x: 707, y: 707 });
}

#[test]
fn key_up_clears_held_flag() {
    let mut ms = MainState::new();
    ms.key_down_event(InputKey::Jump);
    assert!(ms.input_events.jump);
    ms.key_up_event(InputKey::Jump);
    assert!(!ms.input_events.jump);
}

#[test]
fn bullet_culling_keeps_overlapping_boxes() {
    // A bullet fully past a world edge goes; one partially overlapping the
    // boundary stays; survivors keep their order.
    let mut ms = MainState::new();
    ms.bullets.push(quiet_bullet(-20_000, 60_000, 4_000, 4_000, 0, 0)); // fully outside
    ms.bullets.push(quiet_bullet(-2_000, 60_000, 4_000, 4_000, 0, 0)); // partial overlap
    ms.bullets.push(quiet_bullet(300_000, 60_000, 4_000, 4_000, 500_000, 0)); // flies out
    ms.bullets.push(quiet_bullet(10_000, 10_000, 4_000, 4_000, 5_000, -2_000)); // stays
    ms.update_bullets(1000);
    assert_eq!(ms.bullets.len(), 2);
    assert_eq!(ms.bullets[0].center, Vec2 { x: -2_000, y: 60_000 });
    assert_eq!(ms.bullets[1].center, Vec2 { x: 15_000, y: 8_000 });
}

#[test]
fn bullets_fly_unconstrained() {
    let mut ms = MainState::new();
    ms.bullets.push(quiet_bullet(10_000, 10_000, 1_000, 1_000, 40_000, 20_000));
    ms.update_bullets(500);
    assert_eq!(ms.bullets.len(), 1);
    assert_eq!(ms.bullets[0].center, Vec2 { x: 30_000, y: 20_000 });
    assert_eq!(ms.bullets[0].velocity, Vec2 { x: 40_000, y: 20_000 });
}

#[test]
fn camera_clamps_to_low_corner() {
    let mut ms = MainState::new();
    ms.player.position = Vec2 { x: 0, y: 0 };
    ms.update_camera();
    assert_eq!(ms.camera_target, Vec2 { x: 80_000, y: 60_000 });
}

#[test]
fn camera_clamps_to_high_corner() {
    let mut ms = MainState::new();
    ms.camera_target = Vec2 { x: 240_000, y: 60_000 };
    ms.player.position = Vec2 { x: 310_000, y: 102_000 };
    ms.update_camera();
    assert_eq!(ms.camera_target, Vec2 { x: 240_000, y: 60_000 });
}

#[test]
fn camera_follows_fractionally() {
    let mut ms = MainState::new();
    ms.camera_target = Vec2 { x: 100_000, y: 60_000 };
    ms.player.position = Vec2 { x: 200_000, y: 60_000 };
    ms.update_camera();
    assert_eq!(ms.camera_target, Vec2 { x: 120_000, y: 60_000 });
}

#[test]
fn tick_orders_inputs_player_bullets_camera() {
    let mut ms = MainState::new();
    ms.update(1000);
    // Nothing held: gravity is the only change to the player; the camera
    // follows the already-updated player position and clamps.
    assert_eq!(ms.player.position, Vec2 { x: 20_000, y: 20_000 });
    assert_eq!(ms.player.velocity, Vec2 { x: 0, y: 200_000 });
    assert_eq!(ms.bullets.len(), 0);
    assert_eq!(ms.camera_target, Vec2 { x: 80_000, y: 60_000 });
}
