//! Enemies: spawned hostiles that home toward the player.

use vstd::prelude::*;
use crate::entities::{bb_from, BoundingBox, Collider, Color, Drawable, Position, PULSE_WRAP};
use crate::math::{clamp_coord, clamped_add, pulse_spec, pulse_value};
use crate::vector::{normalized, Vector2d};

verus! {

/// Base enemy extent, in milli-units (10 units square).
pub const ENEMY_SIZE: i64 = 10_000;

/// Amplitude of the cosmetic size pulse, in milli-units.
pub const ENEMY_PULSE: i64 = 5000;

#[derive(Clone, Copy, Debug, PartialEq, Eq, Structural)]
pub enum EnemyType {
    Normal,
}

#[derive(Clone, Copy, Debug, PartialEq, Eq, Structural)]
pub struct Enemy {
    pub enemy_type: EnemyType,
    pub pos: Vector2d,
    pub width: i64,
    pub height: i64,
    pub color: Color,
    /// Age in milliseconds, wrapped at the pulse period so the cosmetic wave
    /// repeats exactly.
    pub life_time: i64,
}

/// Enemy fields stay within the ranges the motion arithmetic needs.
pub open spec fn enemy_wf(e: Enemy) -> bool {
    &&& -crate::COORD_LIMIT <= e.pos.x <= crate::COORD_LIMIT
    &&& -crate::COORD_LIMIT <= e.pos.y <= crate::COORD_LIMIT
    &&& ENEMY_SIZE <= e.width <= ENEMY_SIZE + ENEMY_PULSE
    &&& ENEMY_SIZE <= e.height <= ENEMY_SIZE + ENEMY_PULSE
    &&& 0 <= e.life_time < PULSE_WRAP
}

/// The enemy a constructor call builds.
pub open spec fn enemy_new_spec(enemy_type: EnemyType, pos: Vector2d) -> Enemy {
    Enemy {
        enemy_type,
        pos,
        life_time: 0,
        width: ENEMY_SIZE,
        height: ENEMY_SIZE,
        color: Color { r: 100, g: 1000, b: 100, a: 11_000 },
    }
}

/// The enemy after one tick: it ages, takes one unit-length step straight
/// toward the player (standing still when it sits exactly on the player),
/// and its extents pulse cosmetically with age.
pub open spec fn enemy_stepped(e: Enemy, player_pos: Vector2d, delta: int) -> Enemy {
    let life = (e.life_time + delta) % (PULSE_WRAP as int);
    let dx = e.pos.x - player_pos.x;
    let dy = e.pos.y - player_pos.y;
    let pos = if dx == 0 && dy == 0 {
        e.pos
    } else {
        let n = normalized(Vector2d { x: dx as i64, y: dy as i64 });
        Vector2d {
            x: clamp_coord(e.pos.x - n.x) as i64,
            y: clamp_coord(e.pos.y - n.y) as i64,
        }
    };
    Enemy {
        enemy_type: e.enemy_type,
        pos,
        width: (ENEMY_SIZE + pulse_spec(0, ENEMY_PULSE as int, life, 600)) as i64,
        height: (ENEMY_SIZE + pulse_spec(0, ENEMY_PULSE as int, life, 800)) as i64,
        color: e.color,
        life_time: life as i64,
    }
}

impl Enemy {
    pub fn new(enemy_type: EnemyType, pos: Vector2d) -> (r: Enemy)
        requires
            -crate::COORD_LIMIT <= pos.x <= crate::COORD_LIMIT,
            -crate::COORD_LIMIT <= pos.y <= crate::COORD_LIMIT,
        ensures
            r == enemy_new_spec(enemy_type, pos),
            enemy_wf(r),
    {
        Enemy {
            enemy_type,
            pos,
            life_time: 0,
            width: ENEMY_SIZE,
            height: ENEMY_SIZE,
            color: Color { r: 100, g: 1000, b: 100, a: 11_000 },
        }
    }

    pub fn update(&mut self, player_pos: Vector2d, delta: i64)
        requires
            enemy_wf(*old(self)),
            -crate::COORD_LIMIT <= player_pos.x <= crate::COORD_LIMIT,
            -crate::COORD_LIMIT <= player_pos.y <= crate::COORD_LIMIT,
            0 <= delta <= crate::DELTA_MAX,
        ensures
            *final(self) == enemy_stepped(*old(self), player_pos, delta as int),
            enemy_wf(*final(self)),
    {
        self.life_time = (self.life_time + delta) % PULSE_WRAP;
        match self.enemy_type {
            EnemyType::Normal => {
                let dx = self.pos.x - player_pos.x;
                let dy = self.pos.y - player_pos.y;
                if dx != 0 || dy != 0 {
                    proof {
                        assert(dx * dx + dy * dy > 0) by (nonlinear_arith)
                            requires dx != 0 || dy != 0,
                        ;
                    }
                    let mut direction = Vector2d::new(dx, dy);
                    direction.normalize();
                    let step = direction.mul(-1);
                    self.pos.x = clamped_add(self.pos.x, step.x);
                    self.pos.y = clamped_add(self.pos.y, step.y);
                }
                self.width = ENEMY_SIZE + pulse_value(0, ENEMY_PULSE, self.life_time, 600);
                self.height = ENEMY_SIZE + pulse_value(0, ENEMY_PULSE, self.life_time, 800);
            }
        }
    }
}

impl Position for Enemy {
    open spec fn inv(&self) -> bool {
        enemy_wf(*self)
    }

    open spec fn pos(&self) -> Vector2d {
        self.pos
    }

    fn get_position(&self) -> (r: Vector2d) {
        self.pos
    }

    fn set_x(&mut self, x: i64) {
        self.pos.x = x;
    }

    fn set_y(&mut self, y: i64) {
        self.pos.y = y;
    }
}

impl Collider for Enemy {
    open spec fn bounding_box(&self) -> BoundingBox {
        bb_from(self.pos, self.width as int, self.height as int)
    }

    fn get_bounding_box(&self) -> (r: BoundingBox) {
        BoundingBox {
            left: self.pos.x - self.width / 2,
            right: self.pos.x + self.width / 2,
            top: self.pos.y + self.height / 2,
            bottom: self.pos.y - self.height / 2,
        }
    }
}

impl Drawable for Enemy {
    open spec fn color(&self) -> Color {
        self.color
    }

    fn get_color(&self) -> (r: Color) {
        self.color
    }
}

} // verus!
