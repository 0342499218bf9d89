//! The player: moved by held keys, fires bullets on a cooldown, and is
//! pushed out of walls along each reported intersection side.

use vstd::prelude::*;
use crate::bullet::{bullet_new_spec, Bullet};
use crate::cooldown::{cooldown_restarted, cooldown_stepped, cooldown_wf, Cooldown};
use crate::entities::{bb_from, BoundingBox, Collider, Color, Drawable, Intersection, Position,
    Side, AMOUNT_LIMIT};
use crate::math::{clamp_coord, clamped_add};
use crate::vector::{len_of, Vector2d};
use crate::GameInput;

verus! {

/// Full player extent, in milli-units (10 units square).
pub const PLAYER_SIZE: i64 = 10_000;

/// Movement step per tick, in milli-units (1.5 units).
pub const PLAYER_STEP: i64 = 1500;

/// Movement step per tick while the fast-move modifier is held (10 units).
pub const PLAYER_FAST_STEP: i64 = 10_000;

/// Delay between shots, in milliseconds.
pub const SHOOT_COOLDOWN: i64 = 100;

#[derive(Clone, Copy, Debug, PartialEq, Eq, Structural)]
pub struct Player {
    pub pos: Vector2d,
    pub width: i64,
    pub height: i64,
    pub color: Color,
    pub shoot_cooldown: Cooldown,
}

/// Player fields stay within the ranges the motion arithmetic needs.
pub open spec fn player_wf(p: Player) -> bool {
    &&& -crate::COORD_LIMIT <= p.pos.x <= crate::COORD_LIMIT
    &&& -crate::COORD_LIMIT <= p.pos.y <= crate::COORD_LIMIT
    &&& p.width == PLAYER_SIZE
    &&& p.height == PLAYER_SIZE
    &&& cooldown_wf(p.shoot_cooldown)
}

/// The player a constructor call builds.
pub open spec fn player_new_spec() -> Player {
    Player {
        pos: Vector2d { x: 480_000, y: 270_000 },
        width: PLAYER_SIZE,
        height: PLAYER_SIZE,
        color: Color { r: 1000, g: 1000, b: 1000, a: 1000 },
        shoot_cooldown: Cooldown { current: SHOOT_COOLDOWN, cool_down: SHOOT_COOLDOWN },
    }
}

/// The position after one tick of held movement keys: each held direction
/// contributes a full step, applied in the order up, down, left, right, so
/// holding two keys at once moves diagonally by a full step on each axis.
pub open spec fn moved_pos(p: Vector2d, input: GameInput) -> Vector2d {
    let step: int = if input.space {
        PLAYER_FAST_STEP as int
    } else {
        PLAYER_STEP as int
    };
    let y1 = if input.up_key {
        clamp_coord(p.y + step)
    } else {
        p.y as int
    };
    let y2 = if input.down_key {
        clamp_coord(y1 - step)
    } else {
        y1
    };
    let x1 = if input.left_key {
        clamp_coord(p.x - step)
    } else {
        p.x as int
    };
    let x2 = if input.right_key {
        clamp_coord(x1 + step)
    } else {
        x1
    };
    Vector2d { x: x2 as i64, y: y2 as i64 }
}

/// The aim direction accumulated from the held shoot intents: each held
/// direction contributes one unit on its axis.
pub open spec fn fire_direction(input: GameInput) -> Vector2d {
    Vector2d {
        x: ((if input.shoot_right {
            1000int
        } else {
            0int
        }) - (if input.shoot_left {
            1000int
        } else {
            0int
        })) as i64,
        y: ((if input.shoot_up {
            1000int
        } else {
            0int
        }) - (if input.shoot_down {
            1000int
        } else {
            0int
        })) as i64,
    }
}

/// Whether a shot leaves the barrel this tick: the advanced cooldown has
/// elapsed and the aim direction is longer than half a unit (which filters
/// exactly the zero direction).
pub open spec fn player_fires(stepped_cd: Cooldown, input: GameInput) -> bool {
    stepped_cd.current < 0 && len_of(fire_direction(input)) > 500
}

/// The player after one tick: cooldown advanced (and wound back up whenever
/// it had elapsed), position moved by the held keys.
pub open spec fn player_updated(p: Player, input: GameInput, delta: int) -> Player {
    let cd1 = cooldown_stepped(p.shoot_cooldown, delta);
    let cd2 = if cd1.current < 0 {
        cooldown_restarted(cd1)
    } else {
        cd1
    };
    Player {
        pos: moved_pos(p.pos, input),
        width: p.width,
        height: p.height,
        color: p.color,
        shoot_cooldown: cd2,
    }
}

/// The bullets appended by one tick: exactly one, from the player's moved
/// position along the aim direction, whenever a shot leaves the barrel.
pub open spec fn fired_bullets(p: Player, input: GameInput, delta: int) -> Seq<Bullet> {
    if player_fires(cooldown_stepped(p.shoot_cooldown, delta), input) {
        seq![bullet_new_spec(moved_pos(p.pos, input), fire_direction(input))]
    } else {
        Seq::empty()
    }
}

/// One intersection applied to the player: the affected coordinate is set
/// from the position read once before the loop (`base`), pushed out along
/// the reported side by the reported amount.
pub open spec fn apply_hit(base: Vector2d, cur: (int, int), hit: Intersection) -> (int, int) {
    match hit.hit_side {
        Side::Left => (base.x + hit.amount, cur.1),
        Side::Right => (base.x - hit.amount, cur.1),
        Side::Top => (cur.0, base.y - hit.amount),
        Side::Bottom => (cur.0, base.y + hit.amount),
    }
}

/// All intersections of one tick applied in order, each against the same
/// base position.
pub open spec fn apply_hits(base: Vector2d, hits: Seq<Intersection>) -> (int, int)
    decreases hits.len(),
{
    if hits.len() == 0 {
        (base.x as int, base.y as int)
    } else {
        apply_hit(base, apply_hits(base, hits.drop_last()), hits.last())
    }
}

impl Player {
    pub fn new() -> (r: Player)
        ensures
            r == player_new_spec(),
            player_wf(r),
    {
        Player {
            pos: Vector2d { x: 480_000, y: 270_000 },
            width: PLAYER_SIZE,
            height: PLAYER_SIZE,
            color: Color { r: 1000, g: 1000, b: 1000, a: 1000 },
            shoot_cooldown: Cooldown::new(SHOOT_COOLDOWN),
        }
    }

    /// One tick: advance the fire cooldown, move by the held keys, then
    /// fire if the cooldown allows and a shoot intent is held.
    pub fn update(&mut self, input: &GameInput, bullets: &mut Vec<Bullet>, delta: i64)
        requires
            player_wf(*old(self)),
            0 <= delta <= crate::DELTA_MAX,
        ensures
            *final(self) == player_updated(*old(self), *input, delta as int),
            player_wf(*final(self)),
            final(bullets)@ == old(bullets)@ + fired_bullets(*old(self), *input, delta as int),
    {
        self.shoot_cooldown.update(delta);
        self.update_pos(input);
        self.fire_bullets(input, bullets);
    }

    fn update_pos(&mut self, input: &GameInput)
        ensures
            final(self).pos == moved_pos(old(self).pos, *input),
            final(self).width == old(self).width,
            final(self).height == old(self).height,
            final(self).color == old(self).color,
            final(self).shoot_cooldown == old(self).shoot_cooldown,
    {
        let step: i64 = if input.space {
            PLAYER_FAST_STEP
        } else {
            PLAYER_STEP
        };
        if input.up_key {
            self.pos.y = clamped_add(self.pos.y, step);
        }
        if input.down_key {
            self.pos.y = clamped_add(self.pos.y, -step);
        }
        if input.left_key {
            self.pos.x = clamped_add(self.pos.x, -step);
        }
        if input.right_key {
            self.pos.x = clamped_add(self.pos.x, step);
        }
    }

    fn fire_bullets(&mut self, input: &GameInput, bullets: &mut Vec<Bullet>)
        requires
            -crate::COORD_LIMIT <= old(self).pos.x <= crate::COORD_LIMIT,
            -crate::COORD_LIMIT <= old(self).pos.y <= crate::COORD_LIMIT,
        ensures
            final(self).pos == old(self).pos,
            final(self).width == old(self).width,
            final(self).height == old(self).height,
            final(self).color == old(self).color,
            final(self).shoot_cooldown == if old(self).shoot_cooldown.current < 0 {
                cooldown_restarted(old(self).shoot_cooldown)
            } else {
                old(self).shoot_cooldown
            },
            final(bullets)@ == old(bullets)@ + if player_fires(old(self).shoot_cooldown, *input) {
                seq![bullet_new_spec(old(self).pos, fire_direction(*input))]
            } else {
                Seq::<Bullet>::empty()
            },
    {
        let mut direction = Vector2d::new(0, 0);
        if self.shoot_cooldown.is_elapsed() {
            self.shoot_cooldown.restart();
            if input.shoot_right {
                direction.x = direction.x + 1000;
            }
            if input.shoot_left {
                direction.x = direction.x - 1000;
            }
            if input.shoot_up {
                direction.y = direction.y + 1000;
            }
            if input.shoot_down {
                direction.y = direction.y - 1000;
            }
            assert(direction == fire_direction(*input));
            if direction.len() > 500 {
                let bullet = Bullet::new(self.get_position(), direction);
                bullets.push(bullet);
            } else {
                assert(bullets@ =~= bullets@ + Seq::<Bullet>::empty());
            }
        } else {
            assert(bullets@ =~= bullets@ + Seq::<Bullet>::empty());
        }
    }

    /// Pushes the player out along every reported intersection, each applied
    /// against the position read once before the loop.
    pub fn handle_collisions(&mut self, intersections: Option<Vec<Intersection>>)
        requires
            -crate::COORD_LIMIT <= old(self).pos.x <= crate::COORD_LIMIT,
            -crate::COORD_LIMIT <= old(self).pos.y <= crate::COORD_LIMIT,
            intersections matches Some(v) ==> forall|i: int|
                0 <= i < v@.len() ==> 0 <= (#[trigger] v@[i]).amount <= AMOUNT_LIMIT,
        ensures
            final(self).width == old(self).width,
            final(self).height == old(self).height,
            final(self).color == old(self).color,
            final(self).shoot_cooldown == old(self).shoot_cooldown,
            match intersections {
                Some(v) => (final(self).pos.x as int, final(self).pos.y as int) == apply_hits(
                    old(self).pos,
                    v@,
                ),
                None => final(self).pos == old(self).pos,
            },
    {
        let base_x = self.pos.x;
        let base_y = self.pos.y;
        match intersections {
            Some(inter) => {
                let ghost base = old(self).pos;
                let mut idx: usize = 0;
                while idx < inter.len()
                    invariant
                        idx <= inter.len(),
                        base == old(self).pos,
                        base_x == base.x,
                        base_y == base.y,
                        -crate::COORD_LIMIT <= base.x <= crate::COORD_LIMIT,
                        -crate::COORD_LIMIT <= base.y <= crate::COORD_LIMIT,
                        forall|i: int| 0 <= i < inter@.len() ==> 0 <= (#[trigger] inter@[i]).amount
                            <= AMOUNT_LIMIT,
                        (self.pos.x as int, self.pos.y as int) == apply_hits(
                            base,
                            inter@.subrange(0, idx as int),
                        ),
                        self.width == old(self).width,
                        self.height == old(self).height,
                        self.color == old(self).color,
                        self.shoot_cooldown == old(self).shoot_cooldown,
                    decreases inter.len() - idx,
                {
                    let hit = inter[idx];
                    match hit.hit_side {
                        Side::Left => {
                            self.pos.x = base_x + hit.amount;
                        }
                        Side::Right => {
                            self.pos.x = base_x - hit.amount;
                        }
                        Side::Top => {
                            self.pos.y = base_y - hit.amount;
                        }
                        Side::Bottom => {
                            self.pos.y = base_y + hit.amount;
                        }
                    }
                    idx = idx + 1;
                    proof {
                        let pre = inter@.subrange(0, idx - 1);
                        let cur = inter@.subrange(0, idx as int);
                        assert(cur.drop_last() =~= pre);
                        assert(cur.last() == inter@[idx - 1]);
                    }
                }
                proof {
                    assert(inter@.subrange(0, inter@.len() as int) =~= inter@);
                }
            }
            None => {}
        }
    }
}

impl Position for Player {
    open spec fn inv(&self) -> bool {
        player_wf(*self)
    }

    open spec fn pos(&self) -> Vector2d {
        self.pos
    }

    fn get_position(&self) -> (r: Vector2d) {
        self.pos
    }

    fn set_x(&mut self, x: i64) {
        self.pos.x = x;
    }

    fn set_y(&mut self, y: i64) {
        self.pos.y = y;
    }
}

impl Collider for Player {
    open spec fn bounding_box(&self) -> BoundingBox {
        bb_from(self.pos, self.width as int, self.height as int)
    }

    fn get_bounding_box(&self) -> (r: BoundingBox) {
        BoundingBox {
            left: self.pos.x - self.width / 2,
            right: self.pos.x + self.width / 2,
            top: self.pos.y + self.height / 2,
            bottom: self.pos.y - self.height / 2,
        }
    }
}

impl Drawable for Player {
    open spec fn color(&self) -> Color {
        self.color
    }

    fn get_color(&self) -> (r: Color) {
        self.color
    }
}

} // verus!
