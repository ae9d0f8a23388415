//! The player controller: a kinematic body (position/velocity integration
//! with world-boundary clamping, gravity, displacement drift and friction)
//! plus jump, aim, charge and fire-cooldown state.

use vstd::prelude::*;
use crate::fixed::{
    clamp_i64, clamp_spec, div_trunc, fmul, lemma_fmul_bound, lemma_tdiv_mag, lemma_tdiv_sign,
    mul_fx, tdiv,
};
use crate::vec2::{normalize, normalize_v, Vec2, Vec2V};
use crate::{
    ARM_OFFSET, CHARGE_MAX, DT_LIMIT, FRICTION, GRAVITY, JUMP_COOLDOWN, MOVE_IMPULSE, PLAYER_H,
    PLAYER_W, SCALE, SHOOT_COOLDOWN, VEL_LIMIT, WORLD_H, WORLD_W,
};

verus! {

/// The player: a kinematic body plus jump / aim / charge / fire state.
#[derive(Clone, Copy, PartialEq, Eq, Structural, Debug)]
pub struct Player {
    pub jump_counter: u32,
    pub jump_timer: u32,
    pub position: Vec2,
    pub velocity: Vec2,
    pub shoot_timer: u32,
    pub charging_time: u32,
    pub arm_offset: i64,
    pub arm_direction: Vec2,
    pub facing_direction: Vec2,
    pub is_aiming: bool,
}

/// Mathematical value of a `Player`.
pub ghost struct PlayerV {
    pub jump_counter: int,
    pub jump_timer: int,
    pub position: Vec2V,
    pub velocity: Vec2V,
    pub shoot_timer: int,
    pub charging_time: int,
    pub arm_offset: int,
    pub arm_direction: Vec2V,
    pub facing_direction: Vec2V,
    pub is_aiming: bool,
}

impl View for Player {
    type V = PlayerV;

    open spec fn view(&self) -> PlayerV {
        PlayerV {
            jump_counter: self.jump_counter as int,
            jump_timer: self.jump_timer as int,
            position: self.position@,
            velocity: self.velocity@,
            shoot_timer: self.shoot_timer as int,
            charging_time: self.charging_time as int,
            arm_offset: self.arm_offset as int,
            arm_direction: self.arm_direction@,
            facing_direction: self.facing_direction@,
            is_aiming: self.is_aiming,
        }
    }
}

impl PlayerV {
    /// Well-formedness: the position is inside the world on both axes, the
    /// aim state is a nonzero fixed-point direction, and every counter is
    /// within its cap. The velocity is unconstrained.
    pub open spec fn wf(self) -> bool {
        &&& 0 <= self.position.x <= WORLD_W - PLAYER_W
        &&& 0 <= self.position.y <= WORLD_H - PLAYER_H
        &&& -SCALE <= self.arm_direction.x <= SCALE
        &&& -SCALE <= self.arm_direction.y <= SCALE
        &&& (self.arm_direction.x != 0 || self.arm_direction.y != 0)
        &&& (self.facing_direction.x == SCALE || self.facing_direction.x == -SCALE)
        &&& self.facing_direction.y == 0
        &&& self.arm_offset == ARM_OFFSET
        &&& 0 <= self.jump_counter <= 100
        &&& 0 <= self.jump_timer <= JUMP_COOLDOWN
        &&& 0 <= self.shoot_timer <= SHOOT_COOLDOWN
        &&& 0 <= self.charging_time <= CHARGE_MAX
    }
}

/// Candidate position before boundary handling: `position + velocity * dt`.
pub open spec fn candidate_pos(p: PlayerV, dt: int) -> Vec2V {
    Vec2V {
        x: p.position.x + fmul(p.velocity.x, dt),
        y: p.position.y + fmul(p.velocity.y, dt),
    }
}

/// The horizontal clamp fires when the candidate leaves `[0, WORLD_W - PLAYER_W]`.
pub open spec fn clamps_x(p: PlayerV, dt: int) -> bool {
    let cx = candidate_pos(p, dt).x;
    cx < 0 || cx + PLAYER_W > WORLD_W
}

/// The vertical clamp fires when the candidate leaves `[0, WORLD_H - PLAYER_H]`.
pub open spec fn clamps_y(p: PlayerV, dt: int) -> bool {
    let cy = candidate_pos(p, dt).y;
    cy < 0 || cy + PLAYER_H > WORLD_H
}

/// Position after the boundary clamp.
pub open spec fn pos_after_clamp(p: PlayerV, dt: int) -> Vec2V {
    let c = candidate_pos(p, dt);
    Vec2V {
        x: if clamps_x(p, dt) {
            clamp_spec(c.x, 0, WORLD_W - PLAYER_W)
        } else {
            c.x
        },
        y: if clamps_y(p, dt) {
            clamp_spec(c.y, 0, WORLD_H - PLAYER_H)
        } else {
            c.y
        },
    }
}

/// Velocity after the boundary clamp: a clamped axis is zeroed.
pub open spec fn vel_after_clamp(p: PlayerV, dt: int) -> Vec2V {
    Vec2V {
        x: if clamps_x(p, dt) {
            0
        } else {
            p.velocity.x
        },
        y: if clamps_y(p, dt) {
            0
        } else {
            p.velocity.y
        },
    }
}

/// Friction is boosted tenfold when the vertical clamp fires while aiming
/// (the grounded braking stance).
pub open spec fn friction_mult(p: PlayerV, dt: int) -> int {
    if clamps_y(p, dt) && p.is_aiming {
        10
    } else {
        1
    }
}

/// One kinematic integration step: candidate move, boundary clamp (zeroing a
/// clamped axis's velocity and resetting the jump counter on a vertical
/// clamp), gravity while above the floor, displacement drift, then friction -
/// in this order.
pub open spec fn physics_step(p: PlayerV, dt: int) -> PlayerV {
    let np = pos_after_clamp(p, dt);
    let v1 = vel_after_clamp(p, dt);
    let fm = friction_mult(p, dt);
    let vy2 = if np.y + PLAYER_H < WORLD_H {
        v1.y + fmul(GRAVITY as int, dt)
    } else {
        v1.y
    };
    let vx3 = v1.x + fmul(np.x - p.position.x, dt) - fmul(
        fmul(FRICTION as int, p.velocity.x),
        dt,
    ) * fm;
    let vy3 = vy2 + fmul(np.y - p.position.y, dt) - fmul(
        fmul(FRICTION as int, p.velocity.y),
        dt,
    ) * fm;
    PlayerV {
        position: np,
        velocity: Vec2V { x: vx3, y: vy3 },
        jump_counter: if clamps_y(p, dt) {
            0
        } else {
            p.jump_counter
        },
        ..p
    }
}

/// Cooldown countdown after integration: each positive timer drops by one.
pub open spec fn timers_step(p: PlayerV) -> PlayerV {
    PlayerV {
        shoot_timer: if p.shoot_timer > 0 {
            p.shoot_timer - 1
        } else {
            p.shoot_timer
        },
        jump_timer: if p.jump_timer > 0 {
            p.jump_timer - 1
        } else {
            p.jump_timer
        },
        ..p
    }
}

/// One full `update` tick of the player: integration, then timers.
pub open spec fn player_update_spec(p: PlayerV, dt: int) -> PlayerV {
    timers_step(physics_step(p, dt))
}

/// Aiming: facing follows the sign of `dir.x` (kept when that is zero), and
/// the arm points along `dir`, rescaled to a fixed-point unit vector.
pub open spec fn aim_spec(p: PlayerV, dir: Vec2V) -> PlayerV {
    PlayerV {
        facing_direction: Vec2V {
            x: if dir.x > 0 {
                SCALE as int
            } else if dir.x < 0 {
                -SCALE as int
            } else {
                p.facing_direction.x
            },
            y: p.facing_direction.y,
        },
        arm_direction: normalize_v(dir),
        ..p
    }
}

/// The initial player state. The jump counter starts above its cap, so no
/// jump is available until the player first lands.
pub open spec fn initial_player() -> PlayerV {
    PlayerV {
        jump_counter: 100,
        jump_timer: 0,
        position: Vec2V { x: 20_000, y: 20_000 },
        velocity: Vec2V { x: 0, y: 0 },
        shoot_timer: 0,
        charging_time: 0,
        arm_offset: ARM_OFFSET as int,
        arm_direction: Vec2V { x: SCALE as int, y: 0 },
        facing_direction: Vec2V { x: SCALE as int, y: 0 },
        is_aiming: false,
    }
}

impl Player {
    /// A freshly spawned player at (20, 20), at rest, aiming right.
    pub fn new() -> (r: Player)
        ensures
            r@ == initial_player(),
            r@.wf(),
    {
        Player {
            jump_counter: 100,
            jump_timer: 0,
            position: Vec2 { x: 20_000, y: 20_000 },
            velocity: Vec2 { x: 0, y: 0 },
            shoot_timer: 0,
            charging_time: 0,
            arm_offset: ARM_OFFSET,
            arm_direction: Vec2 { x: SCALE, y: 0 },
            facing_direction: Vec2 { x: SCALE, y: 0 },
            is_aiming: false,
        }
    }

    /// Points the arm along `direction` (full 360-degree aiming) and turns
    /// the horizontal facing toward the sign of `direction.x`, keeping the
    /// prior facing when that is zero.
    pub fn aim_in_direction(&mut self, direction: Vec2)
        requires
            old(self)@.wf(),
            direction.x != 0 || direction.y != 0,
            -1_400_000_000 <= direction.x <= 1_400_000_000,
            -1_400_000_000 <= direction.y <= 1_400_000_000,
        ensures
            final(self)@ == aim_spec(old(self)@, direction@),
            final(self)@.wf(),
    {
        if direction.x > 0 {
            self.facing_direction = Vec2 { x: SCALE, y: self.facing_direction.y };
        } else if direction.x < 0 {
            self.facing_direction = Vec2 { x: -SCALE, y: self.facing_direction.y };
        }
        self.arm_direction = normalize(direction);
    }

    /// Sets the aim-lock flag, which suppresses horizontal movement input and
    /// boosts grounded friction.
    pub fn set_is_aiming(&mut self, aiming: bool)
        requires
            old(self)@.wf(),
        ensures
            final(self)@ == (PlayerV { is_aiming: aiming, ..old(self)@ }),
            final(self)@.wf(),
    {
        self.is_aiming = aiming;
    }

    /// One tick: kinematic integration per `physics_step`, then the cooldown
    /// countdown per `timers_step`. The velocity and `dt` bounds are forced
    /// by 64-bit arithmetic.
    pub fn update(&mut self, dt: i64)
        requires
            old(self)@.wf(),
            0 <= dt <= DT_LIMIT,
            -(VEL_LIMIT + MOVE_IMPULSE) <= old(self).velocity.x <= VEL_LIMIT + MOVE_IMPULSE,
            -(VEL_LIMIT + MOVE_IMPULSE) <= old(self).velocity.y <= VEL_LIMIT + MOVE_IMPULSE,
        ensures
            final(self)@ == player_update_spec(old(self)@, dt as int),
            final(self)@.wf(),
    {
        let vx = self.velocity.x;
        let vy = self.velocity.y;
        proof {
            lemma_fmul_bound(vx as int, dt as int, VEL_LIMIT + MOVE_IMPULSE, DT_LIMIT as int);
            lemma_fmul_bound(vy as int, dt as int, VEL_LIMIT + MOVE_IMPULSE, DT_LIMIT as int);
        }
        let cx = self.position.x + mul_fx(vx, dt);
        let cy = self.position.y + mul_fx(vy, dt);
        let x_out = cx < 0 || cx + PLAYER_W > WORLD_W;
        let y_out = cy < 0 || cy + PLAYER_H > WORLD_H;
        let nx = if x_out {
            clamp_i64(cx, 0, WORLD_W - PLAYER_W)
        } else {
            cx
        };
        let ny = if y_out {
            clamp_i64(cy, 0, WORLD_H - PLAYER_H)
        } else {
            cy
        };
        let mut nvx: i64 = if x_out {
            0
        } else {
            vx
        };
        let mut nvy: i64 = if y_out {
            0
        } else {
            vy
        };
        if y_out {
            self.jump_counter = 0;
        }
        let aim_brake = y_out && self.is_aiming;
        if ny + PLAYER_H < WORLD_H {
            proof {
                lemma_fmul_bound(GRAVITY as int, dt as int, GRAVITY as int, DT_LIMIT as int);
            }
            nvy = nvy + mul_fx(GRAVITY, dt);
        }
        proof {
            lemma_fmul_bound((nx - self.position.x) as int, dt as int, 320_000, DT_LIMIT as int);
            lemma_fmul_bound((ny - self.position.y) as int, dt as int, 320_000, DT_LIMIT as int);
            lemma_fmul_bound(FRICTION as int, vx as int, FRICTION as int, VEL_LIMIT + MOVE_IMPULSE);
            lemma_fmul_bound(FRICTION as int, vy as int, FRICTION as int, VEL_LIMIT + MOVE_IMPULSE);
        }
        let drift_x = mul_fx(nx - self.position.x, dt);
        let drift_y = mul_fx(ny - self.position.y, dt);
        let f_x = mul_fx(FRICTION, vx);
        let f_y = mul_fx(FRICTION, vy);
        proof {
            lemma_fmul_bound(f_x as int, dt as int, 1_000_002_000, DT_LIMIT as int);
            lemma_fmul_bound(f_y as int, dt as int, 1_000_002_000, DT_LIMIT as int);
        }
        let t_x = mul_fx(f_x, dt);
        let t_y = mul_fx(f_y, dt);
        let ft_x = if aim_brake {
            t_x * 10
        } else {
            t_x
        };
        let ft_y = if aim_brake {
            t_y * 10
        } else {
            t_y
        };
        nvx = nvx + drift_x - ft_x;
        nvy = nvy + drift_y - ft_y;
        self.position = Vec2 { x: nx, y: ny };
        self.velocity = Vec2 { x: nvx, y: nvy };
        if self.shoot_timer > 0 {
            self.shoot_timer = self.shoot_timer - 1;
        }
        if self.jump_timer > 0 {
            self.jump_timer = self.jump_timer - 1;
        }
    }
    /// The gun muzzle position exposed to the renderer: the position plus
    /// half the body size less the gun's own, plus the arm direction at
    /// arm's length.
    pub fn gun_position(&self) -> (r: Vec2)
        requires
            self@.wf(),
        ensures
            r@.x == self@.position.x + 2_500 + fmul(self@.arm_direction.x, ARM_OFFSET as int),
            r@.y == self@.position.y + 6_500 + fmul(self@.arm_direction.y, ARM_OFFSET as int),
    {
        proof {
            lemma_fmul_bound(
                self.arm_direction.x as int,
                ARM_OFFSET as int,
                SCALE as int,
                ARM_OFFSET as int,
            );
            lemma_fmul_bound(
                self.arm_direction.y as int,
                ARM_OFFSET as int,
                SCALE as int,
                ARM_OFFSET as int,
            );
        }
        Vec2 {
            x: self.position.x + 2_500 + mul_fx(self.arm_direction.x, ARM_OFFSET),
            y: self.position.y + 6_500 + mul_fx(self.arm_direction.y, ARM_OFFSET),
        }
    }

    /// Charge fraction in fixed point: 0 when empty, `SCALE` at full charge.
    pub fn charge_fraction(&self) -> (r: i64)
        requires
            self@.wf(),
        ensures
            r as int == tdiv(self@.charging_time * SCALE as int, CHARGE_MAX as int),
            0 <= r <= SCALE,
    {
        proof {
            lemma_tdiv_mag(
                self.charging_time as int * SCALE as int,
                CHARGE_MAX as int,
                SCALE as int,
            );
            lemma_tdiv_sign(self.charging_time as int * SCALE as int, CHARGE_MAX as int);
        }
        div_trunc((self.charging_time as i64) * SCALE, 100)
    }
}

/// Boundary clamp law: one integration step leaves the position inside
/// `[0, WORLD_W - PLAYER_W]` x `[0, WORLD_H - PLAYER_H]` for every starting
/// position and velocity, and an axis whose clamp fired has its velocity
/// zeroed at the clamp stage, before drift and friction are added.
pub proof fn lemma_boundary_clamp(p: PlayerV, dt: int)
    ensures
        0 <= player_update_spec(p, dt).position.x <= WORLD_W - PLAYER_W,
        0 <= player_update_spec(p, dt).position.y <= WORLD_H - PLAYER_H,
        clamps_x(p, dt) ==> vel_after_clamp(p, dt).x == 0,
        clamps_y(p, dt) ==> vel_after_clamp(p, dt).y == 0,
{
}

} // verus!
