//! In-flight projectiles: axis-aligned boxes advanced each tick with no
//! clamping, gravity or friction, and culled once their box no longer
//! overlaps the world rectangle.

use vstd::prelude::*;
use crate::fixed::fmul;
use crate::vec2::{Vec2, Vec2V};
use crate::{WORLD_H, WORLD_W};

verus! {

/// Who fired a bullet. Enemy bullets are part of the type for forward
/// extension; the current controller only spawns player bullets.
#[derive(Clone, Copy, PartialEq, Eq, Structural, Debug)]
pub enum BulletType {
    Player,
    Enemy,
}

/// An in-flight projectile: an axis-aligned box with a velocity and damage.
#[derive(Clone, Copy, PartialEq, Eq, Structural, Debug)]
pub struct Bullet {
    pub center: Vec2,
    pub half_extents: Vec2,
    pub velocity: Vec2,
    pub damage: i64,
    pub bullet_type: BulletType,
}

/// Mathematical value of a `Bullet`.
pub ghost struct BulletV {
    pub center: Vec2V,
    pub half_extents: Vec2V,
    pub velocity: Vec2V,
    pub damage: int,
    pub bullet_type: BulletType,
}

impl View for Bullet {
    type V = BulletV;

    open spec fn view(&self) -> BulletV {
        BulletV {
            center: self.center@,
            half_extents: self.half_extents@,
            velocity: self.velocity@,
            damage: self.damage as int,
            bullet_type: self.bullet_type,
        }
    }
}

/// Bounds on a stored bullet, forced by 64-bit arithmetic: spawned and
/// surviving bullets sit near the world rectangle with a bounded speed.
pub open spec fn bullet_wf(b: BulletV) -> bool {
    &&& -1_000_000 <= b.center.x <= 1_000_000
    &&& -1_000_000 <= b.center.y <= 1_000_000
    &&& 0 <= b.half_extents.x <= 10_000
    &&& 0 <= b.half_extents.y <= 10_000
    &&& -2_100_000_000 <= b.velocity.x <= 2_100_000_000
    &&& -2_100_000_000 <= b.velocity.y <= 2_100_000_000
}

/// A bullet advanced by `center += velocity * dt`: bullets are unconstrained
/// projectiles.
pub open spec fn advance_bullet(b: BulletV, dt: int) -> BulletV {
    BulletV {
        center: Vec2V {
            x: b.center.x + fmul(b.velocity.x, dt),
            y: b.center.y + fmul(b.velocity.y, dt),
        },
        ..b
    }
}

/// A bullet is kept while some part of its box `center +/- half_extents`
/// still overlaps the world rectangle on both axes.
pub open spec fn overlaps_world(b: BulletV) -> bool {
    &&& b.center.x + b.half_extents.x >= 0
    &&& b.center.x - b.half_extents.x <= WORLD_W
    &&& b.center.y + b.half_extents.y >= 0
    &&& b.center.y - b.half_extents.y <= WORLD_H
}

/// Value sequence of a bullet vector.
pub open spec fn bullets_view(s: Seq<Bullet>) -> Seq<BulletV> {
    s.map_values(|b: Bullet| b@)
}

/// One pool tick: every bullet advances, and the survivors - in their
/// original order - are exactly those whose box still overlaps the world.
pub open spec fn bullets_step(s: Seq<BulletV>, dt: int) -> Seq<BulletV>
    decreases s.len(),
{
    if s.len() == 0 {
        Seq::empty()
    } else {
        let rest = bullets_step(s.drop_last(), dt);
        let a = advance_bullet(s.last(), dt);
        if overlaps_world(a) {
            rest.push(a)
        } else {
            rest
        }
    }
}

/// Every survivor of a pool tick overlaps the world, and every advanced
/// bullet that overlaps the world is among the survivors.
pub proof fn lemma_bullets_step_members(s: Seq<BulletV>, dt: int)
    ensures
        forall|j: int|
            0 <= j < bullets_step(s, dt).len() ==> overlaps_world(
                #[trigger] bullets_step(s, dt)[j],
            ),
        forall|i: int|
            0 <= i < s.len() && overlaps_world(advance_bullet(s[i], dt)) ==> bullets_step(
                s,
                dt,
            ).contains(advance_bullet(s[i], dt)),
    decreases s.len(),
{
    if s.len() > 0 {
        lemma_bullets_step_members(s.drop_last(), dt);
        let rest = bullets_step(s.drop_last(), dt);
        let out = bullets_step(s, dt);
        assert forall|i: int|
            0 <= i < s.len() && overlaps_world(advance_bullet(s[i], dt)) implies out.contains(
            advance_bullet(s[i], dt),
        ) by {
            let a = advance_bullet(s[i], dt);
            if i == s.len() - 1 {
                assert(out[out.len() - 1] == a);
            } else {
                assert(s.drop_last()[i] == s[i]);
                assert(rest.contains(a));
                let j = choose|j: int| 0 <= j < rest.len() && rest[j] == a;
                assert(out[j] == a);
            }
        }
    }
}

/// Culling law: after a pool tick, an advanced bullet is retained exactly
/// when part of its box still overlaps the world rectangle; one fully past
/// any world edge is gone.
pub proof fn lemma_bullet_culling(s: Seq<BulletV>, dt: int, i: int)
    requires
        0 <= i < s.len(),
    ensures
        overlaps_world(advance_bullet(s[i], dt)) ==> bullets_step(s, dt).contains(
            advance_bullet(s[i], dt),
        ),
        !overlaps_world(advance_bullet(s[i], dt)) ==> !bullets_step(s, dt).contains(
            advance_bullet(s[i], dt),
        ),
{
    lemma_bullets_step_members(s, dt);
    let a = advance_bullet(s[i], dt);
    if !overlaps_world(a) && bullets_step(s, dt).contains(a) {
        let j = choose|j: int|
            0 <= j < bullets_step(s, dt).len() && bullets_step(s, dt)[j] == a;
        assert(overlaps_world(bullets_step(s, dt)[j]));
        assert(false);
    }
}

} // verus!
