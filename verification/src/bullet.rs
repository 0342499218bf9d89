//! Bullets: transient projectiles fired by the player.

use vstd::prelude::*;
use crate::entities::{bb_from, BoundingBox, Collider, Color, Drawable, Position, PULSE_WRAP};
use crate::math::{clamp_coord, clamped_add, pulse_spec, pulse_value, scale_by_time,
    velocity_step};
use crate::vector::Vector2d;

verus! {

/// Full bullet extent, in milli-units (4 units square).
pub const BULLET_SIZE: i64 = 4000;

/// Speed factor applied to the aim direction, per second.
pub const BULLET_SPEED: i64 = 300;

/// Largest aim direction component a bullet accepts; scaled by the speed
/// factor it stays within the velocity range.
pub const DIRECTION_LIMIT: i64 = 6_000_000;

#[derive(Clone, Copy, Debug, PartialEq, Eq, Structural)]
pub struct Bullet {
    pub pos: Vector2d,
    pub width: i64,
    pub height: i64,
    pub color: Color,
    pub vel: Vector2d,
    /// Age in milliseconds, wrapped at the pulse period so the cosmetic wave
    /// repeats exactly.
    pub life_time: i64,
}

/// Bullet fields stay within the ranges the motion arithmetic needs.
pub open spec fn bullet_wf(b: Bullet) -> bool {
    &&& -crate::COORD_LIMIT <= b.pos.x <= crate::COORD_LIMIT
    &&& -crate::COORD_LIMIT <= b.pos.y <= crate::COORD_LIMIT
    &&& b.width == BULLET_SIZE
    &&& b.height == BULLET_SIZE
    &&& -crate::VEL_LIMIT <= b.vel.x <= crate::VEL_LIMIT
    &&& -crate::VEL_LIMIT <= b.vel.y <= crate::VEL_LIMIT
    &&& 0 <= b.life_time < PULSE_WRAP
}

/// The bullet a constructor call builds: it starts at `pos` with velocity
/// `direction` scaled by the speed factor.
pub open spec fn bullet_new_spec(pos: Vector2d, direction: Vector2d) -> Bullet {
    Bullet {
        pos,
        width: BULLET_SIZE,
        height: BULLET_SIZE,
        color: Color { r: 1000, g: 700, b: 700, a: 1000 },
        vel: Vector2d {
            x: (direction.x * BULLET_SPEED) as i64,
            y: (direction.y * BULLET_SPEED) as i64,
        },
        life_time: 0,
    }
}

/// The bullet after one tick of `delta` milliseconds: position integrated by
/// the velocity, age advanced, and the red channel pulsing with age.
pub open spec fn bullet_stepped(b: Bullet, delta: int) -> Bullet {
    let life = (b.life_time + delta) % (PULSE_WRAP as int);
    Bullet {
        pos: Vector2d {
            x: clamp_coord(b.pos.x + scale_by_time(b.vel.x as int, delta)) as i64,
            y: clamp_coord(b.pos.y + scale_by_time(b.vel.y as int, delta)) as i64,
        },
        width: b.width,
        height: b.height,
        color: Color { r: pulse_spec(700, 1000, life, 1000) as i64, g: b.color.g, b: b.color.b, a: b.color.a },
        vel: b.vel,
        life_time: life as i64,
    }
}

impl Bullet {
    pub fn new(pos: Vector2d, direction: Vector2d) -> (r: Bullet)
        requires
            -crate::COORD_LIMIT <= pos.x <= crate::COORD_LIMIT,
            -crate::COORD_LIMIT <= pos.y <= crate::COORD_LIMIT,
            -DIRECTION_LIMIT <= direction.x <= DIRECTION_LIMIT,
            -DIRECTION_LIMIT <= direction.y <= DIRECTION_LIMIT,
        ensures
            r == bullet_new_spec(pos, direction),
            bullet_wf(r),
    {
        Bullet {
            pos,
            width: BULLET_SIZE,
            height: BULLET_SIZE,
            color: Color { r: 1000, g: 700, b: 700, a: 1000 },
            life_time: 0,
            vel: direction.mul(BULLET_SPEED),
        }
    }

    pub fn update(&mut self, delta: i64)
        requires
            bullet_wf(*old(self)),
            0 <= delta <= crate::DELTA_MAX,
        ensures
            *final(self) == bullet_stepped(*old(self), delta as int),
            bullet_wf(*final(self)),
    {
        self.life_time = (self.life_time + delta) % PULSE_WRAP;
        self.pos.x = clamped_add(self.pos.x, velocity_step(self.vel.x, delta));
        self.pos.y = clamped_add(self.pos.y, velocity_step(self.vel.y, delta));
        self.color.r = pulse_value(700, 1000, self.life_time, 1000);
    }
}

impl Position for Bullet {
    open spec fn inv(&self) -> bool {
        bullet_wf(*self)
    }

    open spec fn pos(&self) -> Vector2d {
        self.pos
    }

    fn get_position(&self) -> (r: Vector2d) {
        self.pos
    }

    fn set_x(&mut self, x: i64) {
        self.pos.x = x;
    }

    fn set_y(&mut self, y: i64) {
        self.pos.y = y;
    }
}

impl Collider for Bullet {
    open spec fn bounding_box(&self) -> BoundingBox {
        bb_from(self.pos, self.width as int, self.height as int)
    }

    fn get_bounding_box(&self) -> (r: BoundingBox) {
        BoundingBox {
            left: self.pos.x - self.width / 2,
            right: self.pos.x + self.width / 2,
            top: self.pos.y + self.height / 2,
            bottom: self.pos.y - self.height / 2,
        }
    }
}

impl Drawable for Bullet {
    open spec fn color(&self) -> Color {
        self.color
    }

    fn get_color(&self) -> (r: Color) {
        self.color
    }
}

} // verus!
