//! The simulation state and its per-tick step: input sweep, player update,
//! bullet pool update and camera tracking, in that fixed order.

use vstd::prelude::*;
use crate::bullet::{
    advance_bullet, bullet_wf, bullets_step, bullets_view, Bullet, BulletType, BulletV,
};
use crate::fixed::{
    clamp_i64, clamp_spec, div_trunc, fmul, lemma_fmul_bound, lemma_tdiv_mag, lemma_tdiv_sign,
    mul_fx, tdiv,
};
use crate::player::{
    aim_spec, initial_player, player_update_spec, Player, PlayerV,
};
use crate::vec2::{norm, norm_v, normalize, normalize_v, Vec2, Vec2V};
use crate::{
    BULLET_SPEED_BASE, CAMERA_FOLLOW, CAMERA_H, CAMERA_W, CHARGE_MAX, DT_LIMIT,
    JUMP_COOLDOWN, JUMP_VELOCITY, MOVE_IMPULSE, PLAYER_H, PLAYER_W, SCALE, SHOOT_COOLDOWN,
    VEL_LIMIT, WORLD_H, WORLD_W,
};

verus! {

/// The recognized input identifiers.
#[derive(Clone, Copy, PartialEq, Eq, Structural, Debug)]
pub enum InputKey {
    /// Press requests a jump.
    Jump,
    /// Held to charge the weapon; its release fires.
    ChargeFire,
    /// Move and aim left.
    MoveLeft,
    /// Move and aim right.
    MoveRight,
    /// Aim up.
    AimUp,
    /// Aim down.
    AimDown,
    /// Held to aim-lock: suppresses movement, boosts grounded friction.
    AimLock,
}

/// The set of currently-held continuous inputs, polled once per tick.
#[derive(Clone, Copy, PartialEq, Eq, Structural, Debug)]
pub struct HeldInputs {
    pub jump: bool,
    pub charge: bool,
    pub move_left: bool,
    pub move_right: bool,
    pub aim_up: bool,
    pub aim_down: bool,
}

/// The whole simulation: player, camera target, bullet pool and held inputs.
pub struct MainState {
    pub player: Player,
    pub camera_target: Vec2,
    pub bullets: Vec<Bullet>,
    pub input_events: HeldInputs,
}

/// Mathematical value of a `MainState`.
pub ghost struct StateV {
    pub player: PlayerV,
    pub camera_target: Vec2V,
    pub bullets: Seq<BulletV>,
    pub input_events: HeldInputs,
}

impl View for MainState {
    type V = StateV;

    open spec fn view(&self) -> StateV {
        StateV {
            player: self.player@,
            camera_target: self.camera_target@,
            bullets: bullets_view(self.bullets@),
            input_events: self.input_events,
        }
    }
}

impl StateV {
    /// Well-formedness of the whole simulation state.
    pub open spec fn wf(self) -> bool {
        &&& self.player.wf()
        &&& 0 <= self.camera_target.x <= WORLD_W
        &&& 0 <= self.camera_target.y <= WORLD_H
        &&& forall|i: int| 0 <= i < self.bullets.len() ==> bullet_wf(#[trigger] self.bullets[i])
    }
}

/// The empty held-input set.
pub open spec fn no_inputs() -> HeldInputs {
    HeldInputs {
        jump: false,
        charge: false,
        move_left: false,
        move_right: false,
        aim_up: false,
        aim_down: false,
    }
}

/// The initial simulation state: a fresh player, the camera at the origin,
/// no bullets, nothing held.
pub open spec fn initial_state() -> StateV {
    StateV {
        player: initial_player(),
        camera_target: Vec2V { x: 0, y: 0 },
        bullets: Seq::empty(),
        input_events: no_inputs(),
    }
}

/// The held set with the flag for `key` set to `held` (aim-lock is tracked
/// on the player, not in the held set).
pub open spec fn held_with(h: HeldInputs, key: InputKey, held: bool) -> HeldInputs {
    match key {
        InputKey::Jump => HeldInputs { jump: held, ..h },
        InputKey::ChargeFire => HeldInputs { charge: held, ..h },
        InputKey::MoveLeft => HeldInputs { move_left: held, ..h },
        InputKey::MoveRight => HeldInputs { move_right: held, ..h },
        InputKey::AimUp => HeldInputs { aim_up: held, ..h },
        InputKey::AimDown => HeldInputs { aim_down: held, ..h },
        InputKey::AimLock => h,
    }
}

/// Jump effect of the input sweep: it fires only below the double-jump cap
/// with a cold jump timer, setting the launch velocity, the jump cooldown
/// and one more used jump.
pub open spec fn apply_jump(p: PlayerV, h: HeldInputs) -> PlayerV {
    if h.jump && p.jump_counter < 2 && p.jump_timer == 0 {
        PlayerV {
            velocity: Vec2V { x: p.velocity.x, y: JUMP_VELOCITY as int },
            jump_timer: JUMP_COOLDOWN as int,
            jump_counter: p.jump_counter + 1,
            ..p
        }
    } else {
        p
    }
}

/// Charge effect of the sweep: one tick of charge, saturating at `CHARGE_MAX`.
pub open spec fn apply_charge(p: PlayerV, h: HeldInputs) -> PlayerV {
    if h.charge && p.charging_time < CHARGE_MAX {
        PlayerV { charging_time: p.charging_time + 1, ..p }
    } else {
        p
    }
}

/// Movement effect of the sweep: horizontal impulses, suppressed while the
/// aim-lock is held.
pub open spec fn apply_movement(p: PlayerV, h: HeldInputs) -> PlayerV {
    if p.is_aiming {
        p
    } else {
        let d = (if h.move_right {
            MOVE_IMPULSE as int
        } else {
            0
        }) - (if h.move_left {
            MOVE_IMPULSE as int
        } else {
            0
        });
        PlayerV { velocity: Vec2V { x: p.velocity.x + d, y: p.velocity.y }, ..p }
    }
}

/// The aim vector accumulated from the held directional inputs.
pub open spec fn aim_acc(h: HeldInputs) -> Vec2V {
    Vec2V {
        x: (if h.move_right {
            SCALE as int
        } else {
            0
        }) - (if h.move_left {
            SCALE as int
        } else {
            0
        }),
        y: (if h.aim_down {
            SCALE as int
        } else {
            0
        }) - (if h.aim_up {
            SCALE as int
        } else {
            0
        }),
    }
}

/// One input sweep over the held set: jump, charge and movement effects
/// (each recognized input applies once; the set has no order), then aiming
/// along the accumulated direction when it is nonzero.
pub open spec fn apply_inputs(p: PlayerV, h: HeldInputs) -> PlayerV {
    let p3 = apply_movement(apply_charge(apply_jump(p, h), h), h);
    let a = aim_acc(h);
    if a.x != 0 || a.y != 0 {
        aim_spec(p3, a)
    } else {
        p3
    }
}

/// Low camera bound: half a viewport from the world's left/top edge.
pub open spec fn cam_min_x() -> int {
    CAMERA_W as int / 2
}

/// High horizontal camera bound: half a viewport from the right edge of the
/// world or of the viewport itself, whichever is wider.
pub open spec fn cam_max_x() -> int {
    (if WORLD_W >= CAMERA_W {
        WORLD_W as int
    } else {
        CAMERA_W as int
    }) - CAMERA_W as int / 2
}

/// Low vertical camera bound: half a viewport from the top edge.
pub open spec fn cam_min_y() -> int {
    CAMERA_H as int / 2
}

/// High vertical camera bound: half a viewport from the bottom edge of the
/// world or of the viewport itself, whichever is taller.
pub open spec fn cam_max_y() -> int {
    (if WORLD_H >= CAMERA_H {
        WORLD_H as int
    } else {
        CAMERA_H as int
    }) - CAMERA_H as int / 2
}

/// One camera tick: the target moves a fixed fraction (not scaled by `dt`)
/// toward the point it follows, then is clamped so the viewport never shows
/// past the world edges.
pub open spec fn camera_step(cam: Vec2V, followed: Vec2V) -> Vec2V {
    let nx = cam.x + fmul(followed.x - cam.x, CAMERA_FOLLOW as int);
    let ny = cam.y + fmul(followed.y - cam.y, CAMERA_FOLLOW as int);
    Vec2V {
        x: clamp_spec(nx, cam_min_x(), cam_max_x()),
        y: clamp_spec(ny, cam_min_y(), cam_max_y()),
    }
}

/// The bullet spawned by a fire release: its size interpolates linearly from
/// 1 to 4 world units with the charge fraction, damage is tenfold the size,
/// it starts at the gun muzzle and flies along the arm at the base speed
/// plus the player's speed.
pub open spec fn spawn_bullet(p: PlayerV) -> BulletV {
    let fade = tdiv(p.charging_time * SCALE as int, CHARGE_MAX as int);
    let size = SCALE as int + fmul(3 * SCALE as int, fade);
    let dir = normalize_v(p.arm_direction);
    let speed = BULLET_SPEED_BASE as int + norm_v(p.velocity);
    BulletV {
        center: Vec2V {
            x: p.position.x + PLAYER_W as int / 2 + fmul(p.arm_direction.x, p.arm_offset + size),
            y: p.position.y + PLAYER_H as int / 2 + fmul(p.arm_direction.y, p.arm_offset + size),
        },
        half_extents: Vec2V { x: size, y: size },
        velocity: Vec2V { x: fmul(dir.x, speed), y: fmul(dir.y, speed) },
        damage: 10 * size,
        bullet_type: BulletType::Player,
    }
}

/// A fire release: a no-op while the shoot cooldown is hot; otherwise it
/// starts the cooldown, appends exactly one bullet and resets the charge.
pub open spec fn fire_spec(s: StateV) -> StateV {
    if s.player.shoot_timer == 0 {
        StateV {
            player: PlayerV {
                shoot_timer: SHOOT_COOLDOWN as int,
                charging_time: 0,
                ..s.player
            },
            bullets: s.bullets.push(spawn_bullet(s.player)),
            ..s
        }
    } else {
        s
    }
}

/// A key press: the aim-lock engages on its edge; the key's held flag turns
/// on.
pub open spec fn key_down_spec(s: StateV, key: InputKey) -> StateV {
    let p = if key == InputKey::AimLock {
        PlayerV { is_aiming: true, ..s.player }
    } else {
        s.player
    };
    StateV { player: p, input_events: held_with(s.input_events, key, true), ..s }
}

/// A key release: the aim-lock disengages, a charge-fire release fires, and
/// the key's held flag turns off.
pub open spec fn key_up_spec(s: StateV, key: InputKey) -> StateV {
    let s1 = if key == InputKey::AimLock {
        StateV { player: PlayerV { is_aiming: false, ..s.player }, ..s }
    } else if key == InputKey::ChargeFire {
        fire_spec(s)
    } else {
        s
    };
    StateV { input_events: held_with(s1.input_events, key, false), ..s1 }
}

/// One simulation tick, in fixed order: input sweep, player integration,
/// bullet pool tick, camera tick following the already-updated player.
pub open spec fn state_update_spec(s: StateV, dt: int) -> StateV {
    let p = player_update_spec(apply_inputs(s.player, s.input_events), dt);
    StateV {
        player: p,
        bullets: bullets_step(s.bullets, dt),
        camera_target: camera_step(s.camera_target, p.position),
        input_events: s.input_events,
    }
}

impl MainState {
    /// A fresh simulation: new player, camera at the origin, empty pool.
    pub fn new() -> (r: MainState)
        ensures
            r@ == initial_state(),
            r@.wf(),
    {
        let r = MainState {
            player: Player::new(),
            camera_target: Vec2 { x: 0, y: 0 },
            bullets: Vec::new(),
            input_events: HeldInputs {
                jump: false,
                charge: false,
                move_left: false,
                move_right: false,
                aim_up: false,
                aim_down: false,
            },
        };
        proof {
            assert(bullets_view(r.bullets@) =~= Seq::<BulletV>::empty());
        }
        r
    }

    /// One tick of input polling: jump, charge and movement effects from the
    /// held set, then aiming along the accumulated direction if any.
    pub fn process_inputs(&mut self)
        requires
            old(self)@.wf(),
            -VEL_LIMIT <= old(self).player.velocity.x <= VEL_LIMIT,
        ensures
            final(self)@ == (StateV {
                player: apply_inputs(old(self)@.player, old(self).input_events),
                ..old(self)@
            }),
            final(self)@.wf(),
    {
        let h = self.input_events;
        if h.jump && self.player.jump_counter < 2 && self.player.jump_timer == 0 {
            self.player.velocity = Vec2 { x: self.player.velocity.x, y: JUMP_VELOCITY };
            self.player.jump_timer = JUMP_COOLDOWN;
            self.player.jump_counter = self.player.jump_counter + 1;
        }
        if h.charge && self.player.charging_time < CHARGE_MAX {
            self.player.charging_time = self.player.charging_time + 1;
        }
        if !self.player.is_aiming {
            let mut dvx: i64 = 0;
            if h.move_right {
                dvx = dvx + MOVE_IMPULSE;
            }
            if h.move_left {
                dvx = dvx - MOVE_IMPULSE;
            }
            self.player.velocity = Vec2 {
                x: self.player.velocity.x + dvx,
                y: self.player.velocity.y,
            };
        }
        let mut ax: i64 = 0;
        let mut ay: i64 = 0;
        if h.move_right {
            ax = ax + SCALE;
        }
        if h.move_left {
            ax = ax - SCALE;
        }
        if h.aim_down {
            ay = ay + SCALE;
        }
        if h.aim_up {
            ay = ay - SCALE;
        }
        if ax != 0 || ay != 0 {
            self.player.aim_in_direction(Vec2 { x: ax, y: ay });
        }
    }

    /// Moves the camera target a fixed fraction toward the player, then
    /// clamps it so the viewport stays inside the world.
    pub fn update_camera(&mut self)
        requires
            old(self)@.wf(),
        ensures
            final(self)@ == (StateV {
                camera_target: camera_step(old(self)@.camera_target, old(self)@.player.position),
                ..old(self)@
            }),
            final(self)@.wf(),
            cam_min_x() <= final(self).camera_target.x as int <= cam_max_x(),
            cam_min_y() <= final(self).camera_target.y as int <= cam_max_y(),
    {
        let dx = self.player.position.x - self.camera_target.x;
        let dy = self.player.position.y - self.camera_target.y;
        proof {
            lemma_fmul_bound(dx as int, CAMERA_FOLLOW as int, 640_000, CAMERA_FOLLOW as int);
            lemma_fmul_bound(dy as int, CAMERA_FOLLOW as int, 640_000, CAMERA_FOLLOW as int);
        }
        let nx = self.camera_target.x + mul_fx(dx, CAMERA_FOLLOW);
        let ny = self.camera_target.y + mul_fx(dy, CAMERA_FOLLOW);
        let max_w = if WORLD_W >= CAMERA_W {
            WORLD_W
        } else {
            CAMERA_W
        };
        let max_h = if WORLD_H >= CAMERA_H {
            WORLD_H
        } else {
            CAMERA_H
        };
        self.camera_target = Vec2 {
            x: clamp_i64(nx, 80_000, max_w - 80_000),
            y: clamp_i64(ny, 60_000, max_h - 60_000),
        };
    }

    /// One pool tick: advances every bullet by `velocity * dt` and drops the
    /// bullets whose box no longer overlaps the world; survivors keep their
    /// relative order.
    pub fn update_bullets(&mut self, dt: i64)
        requires
            old(self)@.wf(),
            0 <= dt <= DT_LIMIT,
        ensures
            final(self)@ == (StateV {
                bullets: bullets_step(old(self)@.bullets, dt as int),
                ..old(self)@
            }),
            final(self)@.wf(),
    {
        let ghost all = bullets_view(self.bullets@);
        let n = self.bullets.len();
        let mut kept: Vec<Bullet> = Vec::new();
        let mut i: usize = 0;
        while i < n
            invariant
                i <= n,
                n == self.bullets.len(),
                *self == *old(self),
                self@.wf(),
                0 <= dt <= DT_LIMIT,
                all == bullets_view(self.bullets@),
                bullets_view(kept@) == bullets_step(all.take(i as int), dt as int),
                forall|j: int| 0 <= j < kept@.len() ==> bullet_wf(#[trigger] kept@[j]@),
            decreases n - i,
        {
            let b = self.bullets[i];
            proof {
                assert(self@.bullets[i as int] == b@);
                assert(bullet_wf(self@.bullets[i as int]));
                assert(all[i as int] == b@);
                lemma_fmul_bound(b.velocity.x as int, dt as int, 2_100_000_000, DT_LIMIT as int);
                lemma_fmul_bound(b.velocity.y as int, dt as int, 2_100_000_000, DT_LIMIT as int);
            }
            let nb = Bullet {
                center: Vec2 {
                    x: b.center.x + mul_fx(b.velocity.x, dt),
                    y: b.center.y + mul_fx(b.velocity.y, dt),
                },
                ..b
            };
            proof {
                assert(nb@ == advance_bullet(all[i as int], dt as int));
                assert(all.take(i as int + 1).drop_last() =~= all.take(i as int));
                assert(all.take(i as int + 1).last() == all[i as int]);
            }
            let keep = nb.center.x + nb.half_extents.x >= 0 && nb.center.x - nb.half_extents.x
                <= WORLD_W && nb.center.y + nb.half_extents.y >= 0 && nb.center.y
                - nb.half_extents.y <= WORLD_H;
            if keep {
                kept.push(nb);
                proof {
                    assert(bullets_view(kept@) =~= bullets_step(
                        all.take(i as int + 1),
                        dt as int,
                    ));
                }
            }
            i = i + 1;
        }
        proof {
            assert(all.take(n as int) =~= all);
        }
        self.bullets = kept;
    }

    /// Fires if the shoot cooldown is cold: starts the cooldown, spawns one
    /// bullet sized and damaging per the charge, and resets the charge. A
    /// release during the cooldown is silently ignored.
    pub fn on_fire_release(&mut self)
        requires
            old(self)@.wf(),
            -VEL_LIMIT <= old(self).player.velocity.x <= VEL_LIMIT,
            -VEL_LIMIT <= old(self).player.velocity.y <= VEL_LIMIT,
        ensures
            final(self)@ == fire_spec(old(self)@),
            final(self)@.wf(),
    {
        if self.player.shoot_timer == 0 {
            self.player.shoot_timer = SHOOT_COOLDOWN;
            let c = self.player.charging_time as i64;
            proof {
                lemma_tdiv_mag(c as int * SCALE as int, CHARGE_MAX as int, SCALE as int);
                lemma_tdiv_sign(c as int * SCALE as int, CHARGE_MAX as int);
            }
            let fade = div_trunc(c * SCALE, 100);
            proof {
                lemma_fmul_bound(3 * SCALE as int, fade as int, 3 * SCALE as int, SCALE as int);
                lemma_tdiv_sign(3 * SCALE as int * fade as int, SCALE as int);
            }
            let size = SCALE + mul_fx(3 * SCALE, fade);
            let muzzle = self.player.arm_offset + size;
            proof {
                lemma_fmul_bound(
                    self.player.arm_direction.x as int,
                    muzzle as int,
                    SCALE as int,
                    12_000,
                );
                lemma_fmul_bound(
                    self.player.arm_direction.y as int,
                    muzzle as int,
                    SCALE as int,
                    12_000,
                );
            }
            let bx = self.player.position.x + 5_000 + mul_fx(self.player.arm_direction.x, muzzle);
            let by = self.player.position.y + 9_000 + mul_fx(self.player.arm_direction.y, muzzle);
            let dir = normalize(self.player.arm_direction);
            let speed = BULLET_SPEED_BASE + norm(self.player.velocity);
            proof {
                lemma_fmul_bound(dir.x as int, speed as int, SCALE as int, 2_000_160_000);
                lemma_fmul_bound(dir.y as int, speed as int, SCALE as int, 2_000_160_000);
            }
            let bullet = Bullet {
                center: Vec2 { x: bx, y: by },
                half_extents: Vec2 { x: size, y: size },
                velocity: Vec2 { x: mul_fx(dir.x, speed), y: mul_fx(dir.y, speed) },
                damage: 10 * size,
                bullet_type: BulletType::Player,
            };
            let ghost before = bullets_view(self.bullets@);
            self.bullets.push(bullet);
            self.player.charging_time = 0;
            proof {
                assert(bullets_view(self.bullets@) =~= before.push(bullet@));
            }
        }
    }

    /// A key press: engages the aim-lock on its edge and records the key as
    /// held.
    pub fn key_down_event(&mut self, key: InputKey)
        requires
            old(self)@.wf(),
        ensures
            final(self)@ == key_down_spec(old(self)@, key),
            final(self)@.wf(),
    {
        if key == InputKey::AimLock {
            self.player.is_aiming = true;
        }
        self.set_held(key, true);
        proof {
            assert(self@.bullets == old(self)@.bullets);
            assert forall|i: int| 0 <= i < self@.bullets.len() implies bullet_wf(
                #[trigger] self@.bullets[i],
            ) by {
                assert(bullet_wf(old(self)@.bullets[i]));
            }
        }
    }

    /// A key release: disengages the aim-lock, fires on a charge-fire
    /// release, and records the key as no longer held.
    pub fn key_up_event(&mut self, key: InputKey)
        requires
            old(self)@.wf(),
            -VEL_LIMIT <= old(self).player.velocity.x <= VEL_LIMIT,
            -VEL_LIMIT <= old(self).player.velocity.y <= VEL_LIMIT,
        ensures
            final(self)@ == key_up_spec(old(self)@, key),
            final(self)@.wf(),
    {
        self.set_held(key, false);
        proof {
            assert(self@.bullets == old(self)@.bullets);
            assert forall|i: int| 0 <= i < self@.bullets.len() implies bullet_wf(
                #[trigger] self@.bullets[i],
            ) by {
                assert(bullet_wf(old(self)@.bullets[i]));
            }
            assert(self@.wf());
        }
        if key == InputKey::AimLock {
            self.player.is_aiming = false;
            proof {
                assert(self@.bullets == old(self)@.bullets);
                assert forall|i: int| 0 <= i < self@.bullets.len() implies bullet_wf(
                    #[trigger] self@.bullets[i],
                ) by {
                    assert(bullet_wf(old(self)@.bullets[i]));
                }
            }
        } else if key == InputKey::ChargeFire {
            self.on_fire_release();
        }
    }

    /// Records whether `key` is currently held.
    fn set_held(&mut self, key: InputKey, held: bool)
        ensures
            *final(self) == (MainState {
                input_events: held_with(old(self).input_events, key, held),
                ..*old(self)
            }),
    {
        match key {
            InputKey::Jump => {
                self.input_events.jump = held;
            },
            InputKey::ChargeFire => {
                self.input_events.charge = held;
            },
            InputKey::MoveLeft => {
                self.input_events.move_left = held;
            },
            InputKey::MoveRight => {
                self.input_events.move_right = held;
            },
            InputKey::AimUp => {
                self.input_events.aim_up = held;
            },
            InputKey::AimDown => {
                self.input_events.aim_down = held;
            },
            InputKey::AimLock => {},
        }
    }

    /// One simulation tick in fixed order: input sweep, player update,
    /// bullet pool update, camera update (which reads the already-updated
    /// player position).
    pub fn update(&mut self, dt: i64)
        requires
            old(self)@.wf(),
            0 <= dt <= DT_LIMIT,
            -VEL_LIMIT <= old(self).player.velocity.x <= VEL_LIMIT,
            -VEL_LIMIT <= old(self).player.velocity.y <= VEL_LIMIT,
        ensures
            final(self)@ == state_update_spec(old(self)@, dt as int),
            final(self)@.wf(),
    {
        self.process_inputs();
        self.player.update(dt);
        self.update_bullets(dt);
        self.update_camera();
    }
}

/// Jump gating law: a held jump takes effect only when fewer than two jumps
/// are used and the jump timer is cold; it then sets the launch velocity,
/// the jump cooldown and one more used jump - and, the timer now being hot,
/// an immediate second sweep leaves all jump state unchanged.
pub proof fn lemma_jump_gating(p: PlayerV, h: HeldInputs)
    ensures
        (h.jump && p.jump_counter < 2 && p.jump_timer == 0) ==> apply_jump(p, h).velocity.y
            == JUMP_VELOCITY && apply_jump(p, h).jump_timer == JUMP_COOLDOWN && apply_jump(
            p,
            h,
        ).jump_counter == p.jump_counter + 1,
        !(p.jump_counter < 2 && p.jump_timer == 0) ==> apply_jump(p, h) == p,
        apply_jump(apply_jump(p, h), h) == apply_jump(p, h),
        apply_inputs(p, h).jump_timer == apply_jump(p, h).jump_timer,
        apply_inputs(p, h).jump_counter == apply_jump(p, h).jump_counter,
        apply_inputs(p, h).velocity.y == apply_jump(p, h).velocity.y,
{
}

/// Charge monotonicity law: an input sweep never lowers the charge, raises
/// it only while the charge input is held, saturates it at `CHARGE_MAX`,
/// and a fire release with a cold cooldown resets it to exactly zero.
pub proof fn lemma_charge_monotone(p: PlayerV, h: HeldInputs, s: StateV)
    requires
        0 <= p.charging_time <= CHARGE_MAX,
        s.player.shoot_timer == 0,
    ensures
        p.charging_time <= apply_inputs(p, h).charging_time <= CHARGE_MAX,
        !h.charge ==> apply_inputs(p, h).charging_time == p.charging_time,
        fire_spec(s).player.charging_time == 0,
{
}

/// Fire cooldown law: a release with a hot cooldown changes nothing; with a
/// cold cooldown it starts the 10-tick cooldown and appends exactly one
/// bullet whose half extents (and tenfold damage) grow linearly with the
/// charge: 1 world unit at charge 0, 4 at full charge.
pub proof fn lemma_fire_cooldown(s: StateV)
    requires
        0 <= s.player.charging_time <= CHARGE_MAX,
    ensures
        s.player.shoot_timer > 0 ==> fire_spec(s) == s,
        s.player.shoot_timer == 0 ==> fire_spec(s).player.shoot_timer == SHOOT_COOLDOWN,
        s.player.shoot_timer == 0 ==> fire_spec(s).bullets == s.bullets.push(
            spawn_bullet(s.player),
        ),
        s.player.shoot_timer == 0 ==> fire_spec(s).bullets.len() == s.bullets.len() + 1,
        spawn_bullet(s.player).half_extents.x == SCALE + 30 * s.player.charging_time,
        spawn_bullet(s.player).half_extents.y == SCALE + 30 * s.player.charging_time,
        spawn_bullet(s.player).damage == 10 * (SCALE + 30 * s.player.charging_time),
{
    let c = s.player.charging_time;
    vstd::arithmetic::div_mod::lemma_div_by_multiple(10 * c, 100);
    assert(tdiv(c * SCALE as int, CHARGE_MAX as int) == 10 * c);
    vstd::arithmetic::div_mod::lemma_div_by_multiple(30 * c, 1000);
    assert(3 * SCALE as int * (10 * c) == 30 * c * 1000) by (nonlinear_arith);
    assert(fmul(3 * SCALE as int, 10 * c) == 30 * c);
}

/// Camera clamp law: wherever the followed point and the prior target are,
/// the new target stays within `[viewport/2, max(world, viewport) -
/// viewport/2]` on both axes.
pub proof fn lemma_camera_clamp(cam: Vec2V, followed: Vec2V)
    ensures
        cam_min_x() <= camera_step(cam, followed).x <= cam_max_x(),
        cam_min_y() <= camera_step(cam, followed).y <= cam_max_y(),
{
}

} // verus!
