//! Static arena boundary segments.

use vstd::prelude::*;
use crate::entities::{bb_from, BoundingBox, Collider, Color, Drawable, Position};
use crate::vector::Vector2d;

verus! {

/// Largest wall center coordinate magnitude; well inside the player's
/// coordinate range, so a player pushed flush against a wall stays in range.
pub const WALL_POS_LIMIT: i64 = 100_000_000_000;

/// Largest wall extent, enough for the boundary of the largest world.
pub const WALL_EXTENT_LIMIT: i64 = 1_000_000_000;

#[derive(Clone, Copy, Debug, PartialEq, Eq, Structural)]
pub struct Wall {
    pub pos: Vector2d,
    pub width: i64,
    pub height: i64,
    pub color: Color,
}

/// Wall fields stay within the ranges the collision arithmetic needs.
pub open spec fn wall_wf(w: Wall) -> bool {
    &&& -WALL_POS_LIMIT <= w.pos.x <= WALL_POS_LIMIT
    &&& -WALL_POS_LIMIT <= w.pos.y <= WALL_POS_LIMIT
    &&& 0 <= w.width <= WALL_EXTENT_LIMIT
    &&& 0 <= w.height <= WALL_EXTENT_LIMIT
}

/// The wall a constructor call builds.
pub open spec fn wall_new_spec(pos: Vector2d, width: int, height: int) -> Wall {
    Wall {
        pos,
        width: width as i64,
        height: height as i64,
        color: Color { r: 1000, g: 100, b: 100, a: 1000 },
    }
}

impl Wall {
    pub fn new(pos: Vector2d, width: i64, height: i64) -> (r: Wall)
        requires
            -WALL_POS_LIMIT <= pos.x <= WALL_POS_LIMIT,
            -WALL_POS_LIMIT <= pos.y <= WALL_POS_LIMIT,
            0 <= width <= WALL_EXTENT_LIMIT,
            0 <= height <= WALL_EXTENT_LIMIT,
        ensures
            r == wall_new_spec(pos, width as int, height as int),
            wall_wf(r),
    {
        Wall { pos, width, height, color: Color { r: 1000, g: 100, b: 100, a: 1000 } }
    }
}

impl Position for Wall {
    open spec fn inv(&self) -> bool {
        wall_wf(*self)
    }

    open spec fn pos(&self) -> Vector2d {
        self.pos
    }

    fn get_position(&self) -> (r: Vector2d) {
        self.pos
    }

    fn set_x(&mut self, x: i64) {
        self.pos.x = x;
    }

    fn set_y(&mut self, y: i64) {
        self.pos.y = y;
    }
}

impl Collider for Wall {
    open spec fn bounding_box(&self) -> BoundingBox {
        bb_from(self.pos, self.width as int, self.height as int)
    }

    fn get_bounding_box(&self) -> (r: BoundingBox) {
        BoundingBox {
            left: self.pos.x - self.width / 2,
            right: self.pos.x + self.width / 2,
            top: self.pos.y + self.height / 2,
            bottom: self.pos.y - self.height / 2,
        }
    }
}

impl Drawable for Wall {
    open spec fn color(&self) -> Color {
        self.color
    }

    fn get_color(&self) -> (r: Color) {
        self.color
    }
}

} // verus!
