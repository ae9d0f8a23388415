//! Per-frame simulation core of a small 2D platformer: kinematic integration
//! with world-boundary clamping, a player controller (jump / charge / aim /
//! fire state), a bullet pool, and a camera tracker.
//!
//! All world coordinates, velocities and durations are fixed-point values:
//! `SCALE` sub-units make one world unit, and one second of elapsed time is
//! `SCALE` ticks of `dt`. Products of two fixed-point values are rescaled with
//! truncating division (see `fixed`).

use vstd::prelude::*;

pub mod bullet;
pub mod fixed;
pub mod player;
pub mod state;
pub mod vec2;

verus! {

/// Fixed-point sub-units per world unit (and per second, for `dt`).
pub const SCALE: i64 = 1000;

/// World width, in sub-units (320 world units).
pub const WORLD_W: i64 = 320_000;

/// World height, in sub-units (120 world units).
pub const WORLD_H: i64 = 120_000;

/// Player body width, in sub-units (10 world units).
pub const PLAYER_W: i64 = 10_000;

/// Player body height, in sub-units (18 world units).
pub const PLAYER_H: i64 = 18_000;

/// Friction coefficient, fixed-point (1.0).
pub const FRICTION: i64 = 1000;

/// Downward gravity acceleration, sub-units per second per second (200).
pub const GRAVITY: i64 = 200_000;

/// Vertical launch velocity set by a jump, sub-units per second (-150).
pub const JUMP_VELOCITY: i64 = -150_000;

/// Horizontal velocity change added per tick of held movement input (2).
pub const MOVE_IMPULSE: i64 = 2_000;

/// Ticks of cooldown started by a jump.
pub const JUMP_COOLDOWN: u32 = 20;

/// Ticks of cooldown started by firing.
pub const SHOOT_COOLDOWN: u32 = 10;

/// Saturation value of the charge accumulator.
pub const CHARGE_MAX: u32 = 100;

/// Distance from the player's body center to the gun muzzle (8 world units).
pub const ARM_OFFSET: i64 = 8_000;

/// Camera viewport width, in sub-units (160 world units).
pub const CAMERA_W: i64 = 160_000;

/// Camera viewport height, in sub-units (120 world units).
pub const CAMERA_H: i64 = 120_000;

/// Camera follow factor per tick, fixed-point (0.2, not scaled by `dt`).
pub const CAMERA_FOLLOW: i64 = 200;

/// Base speed of a fired bullet, sub-units per second (160).
pub const BULLET_SPEED_BASE: i64 = 160_000;

/// Largest velocity component magnitude the stepping functions accept.
/// This bound is forced by 64-bit arithmetic, not by the simulation rules.
pub const VEL_LIMIT: i64 = 1_000_000_000;

/// Largest frame delta-time the stepping functions accept (60 seconds).
/// This bound is forced by 64-bit arithmetic, not by the simulation rules.
pub const DT_LIMIT: i64 = 60_000;

} // verus!
