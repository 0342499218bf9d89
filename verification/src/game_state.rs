//! The world and its per-frame simulation step.
//!
//! A tick runs in a strict order: the enemy-spawn timer (possibly placing one
//! new enemy), bullet motion and boundary culling, enemy homing, the player's
//! movement and firing, player-versus-wall resolution, bullet-versus-enemy
//! kill resolution, and finally the render list, grouped as bullets, player,
//! enemies, walls.

use vstd::prelude::*;
use crate::bullet::{bullet_stepped, bullet_wf, Bullet};
use crate::cooldown::{cooldown_restarted, cooldown_stepped, cooldown_wf, Cooldown};
use crate::enemies::{enemy_new_spec, enemy_stepped, enemy_wf, Enemy, EnemyType};
use crate::entities::{bb_from, bb_in_range, check_intersection, intersect,
    lemma_intersection_amount_bounds, BoundingBox, Collider, Drawable, Intersection, Position,
    AMOUNT_LIMIT};
use crate::player::{apply_hit, apply_hits, fired_bullets, player_updated, player_wf, Player,
    PLAYER_SIZE};
use crate::rng::RandomSource;
use crate::vector::Vector2d;
use crate::wall::{wall_new_spec, wall_wf, Wall};
use crate::{GameInput, GameTime, Renderable};

verus! {

/// Smallest accepted world extent, in milli-units: wide enough that the
/// spawn sampling range is nonempty.
pub const WORLD_MIN: i64 = 20_000;

/// Largest accepted world extent, in milli-units (one million units).
pub const WORLD_MAX: i64 = 1_000_000_000;

/// Delay between enemy spawns, in milliseconds.
pub const SPAWN_COOLDOWN: i64 = 250;

/// Margin kept from the world edge when placing an enemy, in milli-units.
pub const SPAWN_MARGIN: i64 = 5000;

/// Smallest distance from the player at which an enemy may appear, in
/// milli-units (100 units).
pub const SPAWN_EXCLUSION: i64 = 100_000;

/// Candidate positions tried per spawn before giving the tick up; bounds the
/// rejection sampling so an unlucky or cramped world cannot stall a tick.
pub const SPAWN_TRIES: usize = 32;

pub struct GameState {
    pub frame: u32,
    pub time: GameTime,
    pub player: Player,
    pub walls: Vec<Wall>,
    pub bullets: Vec<Bullet>,
    pub enemies: Vec<Enemy>,
    pub enemy_spawn: Cooldown,
    pub world_size_x: i64,
    pub world_size_y: i64,
}

/// Every entity and timer of the world is within its ranges and the world
/// extents are accepted ones.
pub open spec fn state_wf(s: GameState) -> bool {
    &&& player_wf(s.player)
    &&& forall|i: int| 0 <= i < s.bullets@.len() ==> bullet_wf(#[trigger] s.bullets@[i])
    &&& forall|i: int| 0 <= i < s.enemies@.len() ==> enemy_wf(#[trigger] s.enemies@[i])
    &&& forall|i: int| 0 <= i < s.walls@.len() ==> wall_wf(#[trigger] s.walls@[i])
    &&& cooldown_wf(s.enemy_spawn)
    &&& WORLD_MIN <= s.world_size_x <= WORLD_MAX
    &&& WORLD_MIN <= s.world_size_y <= WORLD_MAX
}

/// All bullets advanced by one tick.
pub open spec fn stepped_bullets(bs: Seq<Bullet>, delta: int) -> Seq<Bullet> {
    Seq::new(bs.len(), |i: int| bullet_stepped(bs[i], delta))
}

/// A bullet's center is still inside the world.
pub open spec fn bullet_in_bounds(b: Bullet, wx: int, wy: int) -> bool {
    &&& 0 <= b.pos.x <= wx
    &&& 0 <= b.pos.y <= wy
}

/// The bullets that survive boundary culling, in order: exactly those whose
/// center has not crossed the world edge.
pub open spec fn culled_bullets(bs: Seq<Bullet>, wx: int, wy: int) -> Seq<Bullet> {
    bs.filter(|b: Bullet| bullet_in_bounds(b, wx, wy))
}

/// All enemies advanced by one tick of homing toward the player.
pub open spec fn stepped_enemies(es: Seq<Enemy>, player_pos: Vector2d, delta: int) -> Seq<
    Enemy,
> {
    Seq::new(es.len(), |i: int| enemy_stepped(es[i], player_pos, delta))
}

/// Whether this bullet's box overlaps this enemy's box.
pub open spec fn bullet_hits_enemy(b: Bullet, e: Enemy) -> bool {
    intersect(b.bounding_box(), e.bounding_box()) is Some
}

/// Whether any bullet of the volley overlaps this enemy.
pub open spec fn enemy_is_hit(bs: Seq<Bullet>, e: Enemy) -> bool {
    exists|i: int| 0 <= i < bs.len() && bullet_hits_enemy(#[trigger] bs[i], e)
}

/// Whether this bullet overlaps any enemy.
pub open spec fn bullet_hits_some(b: Bullet, es: Seq<Enemy>) -> bool {
    exists|j: int| 0 <= j < es.len() && bullet_hits_enemy(b, #[trigger] es[j])
}

/// The enemies that survive kill resolution, in order: exactly those no
/// bullet overlaps. An enemy overlapped by several bullets is removed once.
pub open spec fn surviving_enemies(bs: Seq<Bullet>, es: Seq<Enemy>) -> Seq<Enemy> {
    es.filter(|e: Enemy| !enemy_is_hit(bs, e))
}

/// The bullets that survive kill resolution, in order: exactly those that
/// overlap no enemy. A bullet overlapping several enemies is removed once.
pub open spec fn surviving_bullets(bs: Seq<Bullet>, es: Seq<Enemy>) -> Seq<Bullet> {
    bs.filter(|b: Bullet| !bullet_hits_some(b, es))
}

/// The intersections the player's box reports against each wall, in wall
/// order, overlapping walls only.
pub open spec fn wall_hits(pbb: BoundingBox, walls: Seq<Wall>) -> Seq<Intersection>
    decreases walls.len(),
{
    if walls.len() == 0 {
        Seq::empty()
    } else {
        wall_hits(pbb, walls.drop_last()) + match intersect(pbb, walls.last().bounding_box()) {
            Some(hit) => seq![hit],
            None => Seq::empty(),
        }
    }
}

/// The spawn timer after one tick: advanced, and wound back up whenever it
/// had elapsed (whether or not a position was found for the new enemy).
pub open spec fn spawn_cd_next(cd: Cooldown, delta: int) -> Cooldown {
    let cd1 = cooldown_stepped(cd, delta);
    if cd1.current < 0 {
        cooldown_restarted(cd1)
    } else {
        cd1
    }
}

/// Whether the spawn timer elapses this tick.
pub open spec fn spawn_elapsed(cd: Cooldown, delta: int) -> bool {
    cooldown_stepped(cd, delta).current < 0
}

/// A freshly spawned enemy: a new `Normal` enemy placed inside the world
/// with the edge margin kept, at least the exclusion distance from the
/// player.
pub open spec fn valid_spawn(s: GameState, e: Enemy) -> bool {
    &&& e == enemy_new_spec(EnemyType::Normal, e.pos)
    &&& SPAWN_MARGIN <= e.pos.x < s.world_size_x - SPAWN_MARGIN
    &&& SPAWN_MARGIN <= e.pos.y < s.world_size_y - SPAWN_MARGIN
    &&& (e.pos.x - s.player.pos.x) * (e.pos.x - s.player.pos.x) + (e.pos.y - s.player.pos.y) * (
    e.pos.y - s.player.pos.y) >= SPAWN_EXCLUSION * SPAWN_EXCLUSION
}

/// What one tick may append to the enemy list before homing: nothing when
/// the spawn timer has not elapsed, and at most one validly placed enemy
/// when it has (none when no candidate position was accepted).
pub open spec fn spawn_ok(s: GameState, delta: int, sp: Seq<Enemy>) -> bool {
    &&& sp.len() <= 1
    &&& (!spawn_elapsed(s.enemy_spawn, delta) ==> sp.len() == 0)
    &&& (sp.len() == 1 ==> spawn_elapsed(s.enemy_spawn, delta) && valid_spawn(s, sp[0]))
}

/// The render list of a tick: one rectangle with its color per surviving
/// bullet, then the player, then each enemy, then each wall.
pub open spec fn render_list(bs: Seq<Bullet>, p: Player, es: Seq<Enemy>, ws: Seq<Wall>) -> Seq<
    Renderable,
> {
    Seq::new(bs.len(), |i: int| Renderable { rect: bs[i].bounding_box(), color: bs[i].color() })
        + seq![Renderable { rect: p.bounding_box(), color: p.color() }] + Seq::new(
        es.len(),
        |i: int| Renderable { rect: es[i].bounding_box(), color: es[i].color() },
    ) + Seq::new(
        ws.len(),
        |i: int| Renderable { rect: ws[i].bounding_box(), color: ws[i].color() },
    )
}

/// How one tick with appended spawns `sp` relates the old world, the new
/// world and the emitted render list: each phase in the fixed order, each
/// defined by its spec function.
pub open spec fn step_rel(
    o: GameState,
    n: GameState,
    out: Seq<Renderable>,
    input: GameInput,
    elapsed: int,
    delta: int,
    sp: Seq<Enemy>,
) -> bool {
    let b1 = culled_bullets(
        stepped_bullets(o.bullets@, delta),
        o.world_size_x as int,
        o.world_size_y as int,
    );
    let e2 = stepped_enemies(o.enemies@ + sp, o.player.pos, delta);
    let p1 = player_updated(o.player, input, delta);
    let b2 = b1 + fired_bullets(o.player, input, delta);
    let hits = wall_hits(bb_from(p1.pos, PLAYER_SIZE as int, PLAYER_SIZE as int), o.walls@);
    let pp = apply_hits(p1.pos, hits);
    let p2 = Player {
        pos: Vector2d { x: pp.0 as i64, y: pp.1 as i64 },
        width: p1.width,
        height: p1.height,
        color: p1.color,
        shoot_cooldown: p1.shoot_cooldown,
    };
    let b3 = surviving_bullets(b2, e2);
    let e3 = surviving_enemies(b2, e2);
    &&& n.frame == if o.frame < u32::MAX {
        o.frame + 1
    } else {
        o.frame as int
    }
    &&& n.time.time_elapsed == elapsed
    &&& n.time.delta == delta
    &&& n.player == p2
    &&& n.walls@ == o.walls@
    &&& n.bullets@ == b3
    &&& n.enemies@ == e3
    &&& n.enemy_spawn == spawn_cd_next(o.enemy_spawn, delta)
    &&& n.world_size_x == o.world_size_x
    &&& n.world_size_y == o.world_size_y
    &&& out == render_list(b3, p2, e3, o.walls@)
}

/// The full tick relation: for some admissible spawn outcome, the worlds and
/// the render list are related by the phase chain.
pub open spec fn ticked(
    o: GameState,
    n: GameState,
    out: Seq<Renderable>,
    input: GameInput,
    elapsed: int,
    delta: int,
) -> bool {
    exists|sp: Seq<Enemy>| spawn_ok(o, delta, sp) && step_rel(o, n, out, input, elapsed, delta, sp)
}

/// The walls of a fresh world: four boundary segments just inside the world
/// edges, sized from the world extents.
pub open spec fn initial_walls(sx: int, sy: int) -> Seq<Wall> {
    seq![
        wall_new_spec(Vector2d { x: 2000, y: (sy / 2) as i64 }, 4000, sy),
        wall_new_spec(Vector2d { x: (sx - 2000) as i64, y: (sy / 2) as i64 }, 4000, sy),
        wall_new_spec(Vector2d { x: (sx / 2) as i64, y: 2000 }, sx, 4000),
        wall_new_spec(Vector2d { x: (sx / 2) as i64, y: (sy - 2000) as i64 }, sx, 4000),
    ]
}

/// The player of a fresh world, standing at the world center.
pub open spec fn initial_player(sx: int, sy: int) -> Player {
    Player {
        pos: Vector2d { x: (sx / 2) as i64, y: (sy / 2) as i64 },
        width: PLAYER_SIZE,
        height: PLAYER_SIZE,
        color: crate::entities::Color { r: 1000, g: 1000, b: 1000, a: 1000 },
        shoot_cooldown: Cooldown {
            current: crate::player::SHOOT_COOLDOWN,
            cool_down: crate::player::SHOOT_COOLDOWN,
        },
    }
}

/// Every intersection the walls report has a positive amount within the
/// range bound, and applying them all lands each affected coordinate flush
/// against a wall edge — so the player's coordinates stay in range.
proof fn lemma_wall_hits_apply_in_range(base: Vector2d, pbb: BoundingBox, walls: Seq<Wall>)
    requires
        pbb == bb_from(base, PLAYER_SIZE as int, PLAYER_SIZE as int),
        -crate::COORD_LIMIT <= base.x <= crate::COORD_LIMIT,
        -crate::COORD_LIMIT <= base.y <= crate::COORD_LIMIT,
        forall|i: int| 0 <= i < walls.len() ==> wall_wf(#[trigger] walls[i]),
    ensures
        ({
            let hits = wall_hits(pbb, walls);
            let pp = apply_hits(base, hits);
            &&& forall|k: int| 0 <= k < hits.len() ==> 0 <= (#[trigger] hits[k]).amount
                <= AMOUNT_LIMIT
            &&& -crate::COORD_LIMIT <= pp.0 <= crate::COORD_LIMIT
            &&& -crate::COORD_LIMIT <= pp.1 <= crate::COORD_LIMIT
        }),
    decreases walls.len(),
{
    let hits = wall_hits(pbb, walls);
    let pp = apply_hits(base, hits);
    if walls.len() == 0 {
        assert(hits =~= Seq::<Intersection>::empty());
    } else {
        let prefix = walls.drop_last();
        lemma_wall_hits_apply_in_range(base, pbb, prefix);
        let hits0 = wall_hits(pbb, prefix);
        let pp0 = apply_hits(base, hits0);
        let w = walls.last();
        let wbb = w.bounding_box();
        assert(wall_wf(w));
        match intersect(pbb, wbb) {
            None => {
                assert(hits =~= hits0);
            }
            Some(h) => {
                assert(hits =~= hits0.push(h));
                assert(hits.drop_last() =~= hits0);
                assert(hits.last() == h);
                assert(pp == apply_hit(base, pp0, h));
                lemma_intersection_amount_bounds(pbb, wbb);
                assert(forall|k: int| 0 <= k < hits.len() ==> 0 <= (#[trigger] hits[k]).amount
                    <= AMOUNT_LIMIT) by {
                    assert(forall|k: int| 0 <= k < hits0.len() ==> hits[k] == #[trigger] hits0[k]);
                }
                match h.hit_side {
                    crate::entities::Side::Left => {
                        assert(pp.0 == wbb.right + PLAYER_SIZE / 2);
                    }
                    crate::entities::Side::Right => {
                        assert(pp.0 == wbb.left - PLAYER_SIZE / 2);
                    }
                    crate::entities::Side::Top => {
                        assert(pp.1 == wbb.bottom - PLAYER_SIZE / 2);
                    }
                    crate::entities::Side::Bottom => {
                        assert(pp.1 == wbb.top + PLAYER_SIZE / 2);
                    }
                }
            }
        }
    }
}

/// The boundary law: in the tick on which a moved bullet's center crosses
/// the world edge the bullet is removed — none survives out of bounds, and
/// none lingers an extra tick — while every moved bullet still in bounds is
/// kept.
pub proof fn lemma_bullet_culling(bs: Seq<Bullet>, delta: int, wx: int, wy: int)
    ensures
        ({
            let moved = stepped_bullets(bs, delta);
            let kept = culled_bullets(moved, wx, wy);
            &&& forall|k: int| 0 <= k < kept.len() ==> bullet_in_bounds(
                #[trigger] kept[k],
                wx,
                wy,
            )
            &&& forall|i: int| 0 <= i < moved.len() && bullet_in_bounds(
                #[trigger] moved[i],
                wx,
                wy,
            ) ==> kept.contains(moved[i])
        }),
{
    let moved = stepped_bullets(bs, delta);
    let kept = culled_bullets(moved, wx, wy);
    let pred = |b: Bullet| bullet_in_bounds(b, wx, wy);
    assert forall|k: int| 0 <= k < kept.len() implies bullet_in_bounds(
        #[trigger] kept[k],
        wx,
        wy,
    ) by {
        moved.lemma_filter_pred(pred, k);
    }
    assert forall|i: int| 0 <= i < moved.len() && bullet_in_bounds(
        #[trigger] moved[i],
        wx,
        wy,
    ) implies kept.contains(moved[i]) by {
        moved.lemma_filter_contains(pred, i);
    }
}

/// The kill-resolution law: a bullet overlapping two enemies at once
/// removes both enemies, and is itself removed, each exactly once — the
/// surviving lists are selections of the originals, never longer.
pub proof fn lemma_kill_resolution(bs: Seq<Bullet>, es: Seq<Enemy>, i: int, j1: int, j2: int)
    requires
        0 <= i < bs.len(),
        0 <= j1 < es.len(),
        0 <= j2 < es.len(),
        bullet_hits_enemy(bs[i], es[j1]),
        bullet_hits_enemy(bs[i], es[j2]),
    ensures
        !surviving_enemies(bs, es).contains(es[j1]),
        !surviving_enemies(bs, es).contains(es[j2]),
        !surviving_bullets(bs, es).contains(bs[i]),
        surviving_enemies(bs, es).len() <= es.len(),
        surviving_bullets(bs, es).len() <= bs.len(),
{
    let epred = |e: Enemy| !enemy_is_hit(bs, e);
    let bpred = |b: Bullet| !bullet_hits_some(b, es);
    let se = surviving_enemies(bs, es);
    let sb = surviving_bullets(bs, es);
    es.lemma_filter_len(epred);
    bs.lemma_filter_len(bpred);
    if se.contains(es[j1]) {
        let k = choose|k: int| 0 <= k < se.len() && se[k] == es[j1];
        es.lemma_filter_pred(epred, k);
        assert(enemy_is_hit(bs, es[j1]));
    }
    if se.contains(es[j2]) {
        let k = choose|k: int| 0 <= k < se.len() && se[k] == es[j2];
        es.lemma_filter_pred(epred, k);
        assert(enemy_is_hit(bs, es[j2]));
    }
    if sb.contains(bs[i]) {
        let k = choose|k: int| 0 <= k < sb.len() && sb[k] == bs[i];
        bs.lemma_filter_pred(bpred, k);
        assert(bullet_hits_some(bs[i], es));
    }
}

/// Whether a bullet overlaps any enemy of the list.
fn bullet_hits_some_exec(b: &Bullet, enemies: &Vec<Enemy>) -> (r: bool)
    requires
        bullet_wf(*b),
        forall|j: int| 0 <= j < enemies@.len() ==> enemy_wf(#[trigger] enemies@[j]),
    ensures
        r == bullet_hits_some(*b, enemies@),
{
    let bb = b.get_bounding_box();
    let mut j: usize = 0;
    while j < enemies.len()
        invariant
            j <= enemies@.len(),
            bullet_wf(*b),
            forall|k: int| 0 <= k < enemies@.len() ==> enemy_wf(#[trigger] enemies@[k]),
            bb == b.bounding_box(),
            bb_in_range(bb),
            forall|k: int| 0 <= k < j ==> !bullet_hits_enemy(*b, #[trigger] enemies@[k]),
        decreases enemies@.len() - j,
    {
        let ebb = enemies[j].get_bounding_box();
        if check_intersection(&bb, &ebb).is_some() {
            return true;
        }
        j = j + 1;
    }
    false
}

/// Whether any bullet of the list overlaps the enemy.
fn enemy_is_hit_exec(bullets: &Vec<Bullet>, e: &Enemy) -> (r: bool)
    requires
        enemy_wf(*e),
        forall|i: int| 0 <= i < bullets@.len() ==> bullet_wf(#[trigger] bullets@[i]),
    ensures
        r == enemy_is_hit(bullets@, *e),
{
    let ebb = e.get_bounding_box();
    let mut i: usize = 0;
    while i < bullets.len()
        invariant
            i <= bullets@.len(),
            enemy_wf(*e),
            forall|k: int| 0 <= k < bullets@.len() ==> bullet_wf(#[trigger] bullets@[k]),
            ebb == e.bounding_box(),
            bb_in_range(ebb),
            forall|k: int| 0 <= k < i ==> !bullet_hits_enemy(#[trigger] bullets@[k], *e),
        decreases bullets@.len() - i,
    {
        let bb = bullets[i].get_bounding_box();
        if check_intersection(&bb, &ebb).is_some() {
            return true;
        }
        i = i + 1;
    }
    false
}

impl GameState {
    /// Advances the spawn timer and, when it elapses, tries to place one new
    /// enemy; the appended spawns are returned for the step's accounting.
    fn update_enemy_spawn<R: RandomSource>(&mut self, rng: &mut R, delta: i64) -> (sp: Ghost<
        Seq<Enemy>,
    >)
        requires
            state_wf(*old(self)),
            0 <= delta <= crate::DELTA_MAX,
        ensures
            final(self).frame == old(self).frame,
            final(self).time == old(self).time,
            final(self).player == old(self).player,
            final(self).walls == old(self).walls,
            final(self).bullets == old(self).bullets,
            final(self).world_size_x == old(self).world_size_x,
            final(self).world_size_y == old(self).world_size_y,
            final(self).enemy_spawn == spawn_cd_next(old(self).enemy_spawn, delta as int),
            spawn_ok(*old(self), delta as int, sp@),
            final(self).enemies@ == old(self).enemies@ + sp@,
            state_wf(*final(self)),
    {
        self.enemy_spawn.update(delta);
        if self.enemy_spawn.is_elapsed() {
            let sp = self.spawn_enemy(rng);
            self.enemy_spawn.restart();
            sp
        } else {
            proof {
                assert(self.enemies@ =~= self.enemies@ + Seq::<Enemy>::empty());
            }
            Ghost(Seq::empty())
        }
    }

    /// Rejection-samples a spawn position: up to `SPAWN_TRIES` uniform draws
    /// inside the margin-inset world, accepting the first far enough from
    /// the player. When every candidate is too close, no enemy appears this
    /// tick — the bounded retry that keeps a cramped world from stalling.
    fn spawn_enemy<R: RandomSource>(&mut self, rng: &mut R) -> (sp: Ghost<Seq<Enemy>>)
        requires
            state_wf(*old(self)),
        ensures
            final(self).frame == old(self).frame,
            final(self).time == old(self).time,
            final(self).player == old(self).player,
            final(self).walls == old(self).walls,
            final(self).bullets == old(self).bullets,
            final(self).world_size_x == old(self).world_size_x,
            final(self).world_size_y == old(self).world_size_y,
            final(self).enemy_spawn == old(self).enemy_spawn,
            sp@.len() <= 1,
            sp@.len() == 1 ==> valid_spawn(*old(self), sp@[0]),
            final(self).enemies@ == old(self).enemies@ + sp@,
            state_wf(*final(self)),
    {
        let mut tries: usize = 0;
        while tries < SPAWN_TRIES
            invariant
                state_wf(*self),
                *self == *old(self),
            decreases SPAWN_TRIES - tries,
        {
            let x = rng.random_in_range(SPAWN_MARGIN, self.world_size_x - SPAWN_MARGIN);
            let y = rng.random_in_range(SPAWN_MARGIN, self.world_size_y - SPAWN_MARGIN);
            let dx = (x as i128) - (self.player.pos.x as i128);
            let dy = (y as i128) - (self.player.pos.y as i128);
            proof {
                assert(dx * dx <= 2_000_000_000_000i128 * 2_000_000_000_000i128)
                    by (nonlinear_arith)
                    requires -2_000_000_000_000 <= dx <= 2_000_000_000_000,
                ;
                assert(dy * dy <= 2_000_000_000_000i128 * 2_000_000_000_000i128)
                    by (nonlinear_arith)
                    requires -2_000_000_000_000 <= dy <= 2_000_000_000_000,
                ;
                assert(0 <= dx * dx && 0 <= dy * dy) by (nonlinear_arith);
                assert((SPAWN_EXCLUSION as i128) * (SPAWN_EXCLUSION as i128)
                    == 10_000_000_000i128) by (nonlinear_arith)
                    requires SPAWN_EXCLUSION == 100_000,
                ;
            }
            let d2 = dx * dx + dy * dy;
            if d2 >= (SPAWN_EXCLUSION as i128) * (SPAWN_EXCLUSION as i128) {
                let e = Enemy::new(EnemyType::Normal, Vector2d::new(x, y));
                self.enemies.push(e);
                proof {
                    assert(self.enemies@ =~= old(self).enemies@ + seq![e]);
                }
                let ghost spawned: Seq<Enemy> = seq![e];
                return Ghost(spawned);
            }
            tries = tries + 1;
        }
        proof {
            assert(self.enemies@ =~= self.enemies@ + Seq::<Enemy>::empty());
        }
        Ghost(Seq::empty())
    }

    /// Integrates every bullet and culls the ones whose center has crossed
    /// the world edge, in one pass.
    fn update_bullets(&mut self, delta: i64)
        requires
            state_wf(*old(self)),
            0 <= delta <= crate::DELTA_MAX,
        ensures
            final(self).frame == old(self).frame,
            final(self).time == old(self).time,
            final(self).player == old(self).player,
            final(self).walls == old(self).walls,
            final(self).enemies == old(self).enemies,
            final(self).enemy_spawn == old(self).enemy_spawn,
            final(self).world_size_x == old(self).world_size_x,
            final(self).world_size_y == old(self).world_size_y,
            final(self).bullets@ == culled_bullets(
                stepped_bullets(old(self).bullets@, delta as int),
                old(self).world_size_x as int,
                old(self).world_size_y as int,
            ),
            state_wf(*final(self)),
    {
        let ghost stepped = stepped_bullets(self.bullets@, delta as int);
        let ghost wx = self.world_size_x as int;
        let ghost wy = self.world_size_y as int;
        let ghost pred = |b: Bullet| bullet_in_bounds(b, wx, wy);
        let mut kept: Vec<Bullet> = Vec::new();
        let mut i: usize = 0;
        proof {
            reveal(Seq::filter);
            assert(stepped.subrange(0, 0) =~= Seq::<Bullet>::empty());
            assert(Seq::<Bullet>::empty().filter(pred) =~= Seq::<Bullet>::empty());
        }
        while i < self.bullets.len()
            invariant
                i <= self.bullets@.len(),
                state_wf(*self),
                *self == *old(self),
                0 <= delta <= crate::DELTA_MAX,
                stepped == stepped_bullets(self.bullets@, delta as int),
                wx == self.world_size_x as int,
                wy == self.world_size_y as int,
                pred == (|b: Bullet| bullet_in_bounds(b, wx, wy)),
                kept@ == stepped.subrange(0, i as int).filter(pred),
                forall|k: int| 0 <= k < kept@.len() ==> bullet_wf(#[trigger] kept@[k]),
            decreases self.bullets@.len() - i,
        {
            let mut b = self.bullets[i];
            b.update(delta);
            proof {
                assert(b == stepped[i as int]);
            }
            if !(b.pos.x < 0 || b.pos.x > self.world_size_x || b.pos.y < 0 || b.pos.y
                > self.world_size_y) {
                kept.push(b);
            }
            i = i + 1;
            proof {
                reveal(Seq::filter);
                let pre = stepped.subrange(0, i - 1);
                let cur = stepped.subrange(0, i as int);
                assert(cur.drop_last() =~= pre);
                assert(cur.last() == stepped[i - 1]);
                assert(cur.filter(pred) == if pred(cur.last()) {
                    pre.filter(pred).push(cur.last())
                } else {
                    pre.filter(pred)
                });
            }
        }
        proof {
            assert(stepped.subrange(0, stepped.len() as int) =~= stepped);
        }
        self.bullets = kept;
    }

    /// Homes every enemy one step toward the player.
    fn update_enemies(&mut self, delta: i64)
        requires
            state_wf(*old(self)),
            0 <= delta <= crate::DELTA_MAX,
        ensures
            final(self).frame == old(self).frame,
            final(self).time == old(self).time,
            final(self).player == old(self).player,
            final(self).walls == old(self).walls,
            final(self).bullets == old(self).bullets,
            final(self).enemy_spawn == old(self).enemy_spawn,
            final(self).world_size_x == old(self).world_size_x,
            final(self).world_size_y == old(self).world_size_y,
            final(self).enemies@ == stepped_enemies(
                old(self).enemies@,
                old(self).player.pos,
                delta as int,
            ),
            state_wf(*final(self)),
    {
        let player_pos = self.player.get_position();
        let mut i: usize = 0;
        while i < self.enemies.len()
            invariant
                i <= self.enemies@.len(),
                player_wf(self.player),
                player_pos == self.player.pos,
                0 <= delta <= crate::DELTA_MAX,
                self.frame == old(self).frame,
                self.time == old(self).time,
                self.player == old(self).player,
                self.walls == old(self).walls,
                self.bullets == old(self).bullets,
                self.enemy_spawn == old(self).enemy_spawn,
                self.world_size_x == old(self).world_size_x,
                self.world_size_y == old(self).world_size_y,
                state_wf(*old(self)),
                self.enemies@.len() == old(self).enemies@.len(),
                forall|k: int| 0 <= k < i ==> self.enemies@[k] == enemy_stepped(
                    #[trigger] old(self).enemies@[k],
                    player_pos,
                    delta as int,
                ),
                forall|k: int| i <= k < self.enemies@.len() ==> self.enemies@[k]
                    == #[trigger] old(self).enemies@[k],
            decreases self.enemies@.len() - i,
        {
            let mut e = self.enemies[i];
            proof {
                assert(e == old(self).enemies@[i as int]);
                assert(enemy_wf(e));
            }
            e.update(player_pos, delta);
            self.enemies.set(i, e);
            i = i + 1;
        }
        proof {
            assert(self.enemies@ =~= stepped_enemies(
                old(self).enemies@,
                old(self).player.pos,
                delta as int,
            ));
            assert(forall|k: int| 0 <= k < self.enemies@.len() ==> enemy_wf(
                #[trigger] self.enemies@[k],
            ));
        }
    }

    /// Collects the player's intersections against every wall, in wall
    /// order; `None` when there are none.
    fn check_player_walls_intersections(&self) -> (r: Option<Vec<Intersection>>)
        requires
            state_wf(*self),
        ensures
            ({
                let hits = wall_hits(self.player.bounding_box(), self.walls@);
                match r {
                    Some(v) => v@ == hits && hits.len() > 0,
                    None => hits.len() == 0,
                }
            }),
    {
        let pbb = self.player.get_bounding_box();
        let mut results: Vec<Intersection> = Vec::new();
        let mut i: usize = 0;
        proof {
            assert(self.walls@.subrange(0, 0) =~= Seq::<Wall>::empty());
        }
        while i < self.walls.len()
            invariant
                i <= self.walls@.len(),
                state_wf(*self),
                pbb == self.player.bounding_box(),
                bb_in_range(pbb),
                results@ == wall_hits(pbb, self.walls@.subrange(0, i as int)),
            decreases self.walls@.len() - i,
        {
            let wbb = self.walls[i].get_bounding_box();
            let hit = check_intersection(&pbb, &wbb);
            match hit {
                Some(h) => {
                    results.push(h);
                }
                None => {}
            }
            i = i + 1;
            proof {
                let pre = self.walls@.subrange(0, i - 1);
                let cur = self.walls@.subrange(0, i as int);
                assert(cur.drop_last() =~= pre);
                assert(cur.last() == self.walls@[i - 1]);
            }
        }
        proof {
            assert(self.walls@.subrange(0, self.walls@.len() as int) =~= self.walls@);
        }
        if results.len() > 0 {
            Some(results)
        } else {
            None
        }
    }

    /// Removes every enemy some bullet overlaps and every bullet that
    /// overlaps some enemy, each exactly once, in one marking pass per list.
    fn check_bullets_enemies_intersections(&mut self)
        requires
            state_wf(*old(self)),
        ensures
            final(self).frame == old(self).frame,
            final(self).time == old(self).time,
            final(self).player == old(self).player,
            final(self).walls == old(self).walls,
            final(self).enemy_spawn == old(self).enemy_spawn,
            final(self).world_size_x == old(self).world_size_x,
            final(self).world_size_y == old(self).world_size_y,
            final(self).bullets@ == surviving_bullets(old(self).bullets@, old(self).enemies@),
            final(self).enemies@ == surviving_enemies(old(self).bullets@, old(self).enemies@),
            state_wf(*final(self)),
    {
        let ghost bs0 = self.bullets@;
        let ghost es0 = self.enemies@;
        let ghost bpred = |b: Bullet| !bullet_hits_some(b, es0);
        let ghost epred = |e: Enemy| !enemy_is_hit(bs0, e);

        let mut kept_bullets: Vec<Bullet> = Vec::new();
        let mut i: usize = 0;
        proof {
            reveal(Seq::filter);
            assert(bs0.subrange(0, 0) =~= Seq::<Bullet>::empty());
        }
        while i < self.bullets.len()
            invariant
                i <= self.bullets@.len(),
                state_wf(*self),
                *self == *old(self),
                bs0 == self.bullets@,
                es0 == self.enemies@,
                bpred == (|b: Bullet| !bullet_hits_some(b, es0)),
                kept_bullets@ == bs0.subrange(0, i as int).filter(bpred),
                forall|k: int| 0 <= k < kept_bullets@.len() ==> bullet_wf(
                    #[trigger] kept_bullets@[k],
                ),
            decreases self.bullets@.len() - i,
        {
            let b = self.bullets[i];
            if !bullet_hits_some_exec(&b, &self.enemies) {
                kept_bullets.push(b);
            }
            i = i + 1;
            proof {
                reveal(Seq::filter);
                let pre = bs0.subrange(0, i - 1);
                let cur = bs0.subrange(0, i as int);
                assert(cur.drop_last() =~= pre);
                assert(cur.last() == bs0[i - 1]);
            }
        }
        proof {
            assert(bs0.subrange(0, bs0.len() as int) =~= bs0);
        }

        let mut kept_enemies: Vec<Enemy> = Vec::new();
        let mut j: usize = 0;
        proof {
            reveal(Seq::filter);
            assert(es0.subrange(0, 0) =~= Seq::<Enemy>::empty());
        }
        while j < self.enemies.len()
            invariant
                j <= self.enemies@.len(),
                state_wf(*self),
                *self == *old(self),
                bs0 == self.bullets@,
                es0 == self.enemies@,
                epred == (|e: Enemy| !enemy_is_hit(bs0, e)),
                kept_enemies@ == es0.subrange(0, j as int).filter(epred),
                forall|k: int| 0 <= k < kept_enemies@.len() ==> enemy_wf(
                    #[trigger] kept_enemies@[k],
                ),
            decreases self.enemies@.len() - j,
        {
            let e = self.enemies[j];
            if !enemy_is_hit_exec(&self.bullets, &e) {
                kept_enemies.push(e);
            }
            j = j + 1;
            proof {
                reveal(Seq::filter);
                let pre = es0.subrange(0, j - 1);
                let cur = es0.subrange(0, j as int);
                assert(cur.drop_last() =~= pre);
                assert(cur.last() == es0[j - 1]);
            }
        }
        proof {
            assert(es0.subrange(0, es0.len() as int) =~= es0);
        }

        self.bullets = kept_bullets;
        self.enemies = kept_enemies;
    }

    /// Emits the tick's render list: bullets, player, enemies, walls, in
    /// that stable group order.
    fn build_render_list(&self) -> (out: Vec<Renderable>)
        requires
            state_wf(*self),
        ensures
            out@ == render_list(self.bullets@, self.player, self.enemies@, self.walls@),
    {
        let mut out: Vec<Renderable> = Vec::new();
        let mut i: usize = 0;
        while i < self.bullets.len()
            invariant
                i <= self.bullets@.len(),
                state_wf(*self),
                out@.len() == i,
                forall|k: int| 0 <= k < i ==> out@[k] == (Renderable {
                    rect: (#[trigger] self.bullets@[k]).bounding_box(),
                    color: self.bullets@[k].color(),
                }),
            decreases self.bullets@.len() - i,
        {
            let rect = self.bullets[i].get_bounding_box();
            let color = self.bullets[i].get_color();
            out.push(Renderable { rect, color });
            i = i + 1;
        }
        let rect = self.player.get_bounding_box();
        let color = self.player.get_color();
        out.push(Renderable { rect, color });
        let ghost nb = self.bullets@.len() as int;
        let mut j: usize = 0;
        while j < self.enemies.len()
            invariant
                j <= self.enemies@.len(),
                state_wf(*self),
                nb == self.bullets@.len() as int,
                out@.len() == nb + 1 + j,
                forall|k: int| 0 <= k < nb ==> out@[k] == (Renderable {
                    rect: (#[trigger] self.bullets@[k]).bounding_box(),
                    color: self.bullets@[k].color(),
                }),
                out@[nb] == (Renderable {
                    rect: self.player.bounding_box(),
                    color: self.player.color(),
                }),
                forall|k: int| 0 <= k < j ==> out@[nb + 1 + k] == (Renderable {
                    rect: (#[trigger] self.enemies@[k]).bounding_box(),
                    color: self.enemies@[k].color(),
                }),
            decreases self.enemies@.len() - j,
        {
            let rect = self.enemies[j].get_bounding_box();
            let color = self.enemies[j].get_color();
            out.push(Renderable { rect, color });
            j = j + 1;
        }
        let ghost ne = self.enemies@.len() as int;
        let mut k: usize = 0;
        while k < self.walls.len()
            invariant
                k <= self.walls@.len(),
                state_wf(*self),
                nb == self.bullets@.len() as int,
                ne == self.enemies@.len() as int,
                out@.len() == nb + 1 + ne + k,
                forall|m: int| 0 <= m < nb ==> out@[m] == (Renderable {
                    rect: (#[trigger] self.bullets@[m]).bounding_box(),
                    color: self.bullets@[m].color(),
                }),
                out@[nb] == (Renderable {
                    rect: self.player.bounding_box(),
                    color: self.player.color(),
                }),
                forall|m: int| 0 <= m < ne ==> out@[nb + 1 + m] == (Renderable {
                    rect: (#[trigger] self.enemies@[m]).bounding_box(),
                    color: self.enemies@[m].color(),
                }),
                forall|m: int| 0 <= m < k ==> out@[nb + 1 + ne + m] == (Renderable {
                    rect: (#[trigger] self.walls@[m]).bounding_box(),
                    color: self.walls@[m].color(),
                }),
            decreases self.walls@.len() - k,
        {
            let rect = self.walls[k].get_bounding_box();
            let color = self.walls[k].get_color();
            out.push(Renderable { rect, color });
            k = k + 1;
        }
        proof {
            assert(out@ =~= render_list(self.bullets@, self.player, self.enemies@, self.walls@));
        }
        out
    }

    /// One full simulation tick in the fixed phase order: spawn, bullet
    /// motion and culling, enemy homing, player movement and firing,
    /// player-wall resolution, bullet-enemy kill resolution; returns the
    /// render list of the surviving entities.
    pub fn update<R: RandomSource>(
        &mut self,
        input: &GameInput,
        rng: &mut R,
        time_elapsed: i64,
        delta: i64,
    ) -> (out: Vec<Renderable>)
        requires
            state_wf(*old(self)),
            0 <= delta <= crate::DELTA_MAX,
            0 <= time_elapsed,
        ensures
            state_wf(*final(self)),
            ticked(*old(self), *final(self), out@, *input, time_elapsed as int, delta as int),
    {
        self.frame = if self.frame < u32::MAX {
            self.frame + 1
        } else {
            self.frame
        };
        self.time.time_elapsed = time_elapsed;
        self.time.delta = delta;
        let sp = self.update_enemy_spawn(rng, delta);
        self.update_bullets(delta);
        self.update_enemies(delta);
        let ghost b1 = self.bullets@;
        let ghost e2 = self.enemies@;
        self.player.update(input, &mut self.bullets, delta);
        let ghost p1 = self.player;
        let ghost b2 = self.bullets@;
        proof {
            let p0 = old(self).player;
            let fired = fired_bullets(p0, *input, delta as int);
            if fired.len() > 0 {
                assert(-crate::COORD_LIMIT <= crate::player::moved_pos(p0.pos, *input).x
                    <= crate::COORD_LIMIT);
                assert(-crate::COORD_LIMIT <= crate::player::moved_pos(p0.pos, *input).y
                    <= crate::COORD_LIMIT);
                assert(bullet_wf(fired[0]));
            }
            assert(forall|k: int| 0 <= k < b2.len() ==> bullet_wf(#[trigger] b2[k])) by {
                assert(forall|k: int| 0 <= k < b1.len() ==> b2[k] == #[trigger] b1[k]);
                assert(forall|k: int| b1.len() <= k < b2.len() ==> b2[k] == #[trigger] fired[k
                    - b1.len()]);
            }
            assert(state_wf(*self));
        }
        let intersections = self.check_player_walls_intersections();
        let ghost hits = wall_hits(p1.bounding_box(), self.walls@);
        proof {
            assert(p1.bounding_box() == bb_from(p1.pos, PLAYER_SIZE as int, PLAYER_SIZE as int));
            lemma_wall_hits_apply_in_range(p1.pos, p1.bounding_box(), self.walls@);
        }
        self.player.handle_collisions(intersections);
        proof {
            if hits.len() == 0 {
                assert(apply_hits(p1.pos, hits) == (p1.pos.x as int, p1.pos.y as int));
            }
            assert((self.player.pos.x as int, self.player.pos.y as int) == apply_hits(
                p1.pos,
                hits,
            ));
            assert(player_wf(self.player));
            assert(state_wf(*self));
        }
        self.check_bullets_enemies_intersections();
        let out = self.build_render_list();
        proof {
            let o = *old(self);
            let d = delta as int;
            assert(spawn_ok(o, d, sp@));
            assert(step_rel(o, *self, out@, *input, time_elapsed as int, d, sp@));
            assert(ticked(o, *self, out@, *input, time_elapsed as int, d));
        }
        out
    }

    /// A fresh world: boundary walls sized from the world extents, the
    /// player at the world center, one enemy in the lower-left region, no
    /// bullets, and the spawn timer wound up.
    pub fn new(size_x: i64, size_y: i64) -> (r: GameState)
        requires
            WORLD_MIN <= size_x <= WORLD_MAX,
            WORLD_MIN <= size_y <= WORLD_MAX,
        ensures
            state_wf(r),
            r.frame == 0,
            r.time == (GameTime { time_elapsed: 0, delta: 0 }),
            r.player == initial_player(size_x as int, size_y as int),
            r.walls@ == initial_walls(size_x as int, size_y as int),
            r.bullets@ == Seq::<Bullet>::empty(),
            r.enemies@ == seq![enemy_new_spec(EnemyType::Normal, Vector2d { x: 100_000, y: 100_000 })],
            r.enemy_spawn == (Cooldown { current: SPAWN_COOLDOWN, cool_down: SPAWN_COOLDOWN }),
            r.world_size_x == size_x,
            r.world_size_y == size_y,
    {
        let mut player = Player::new();
        player.pos.x = size_x / 2;
        player.pos.y = size_y / 2;

        let mut walls: Vec<Wall> = Vec::new();
        walls.push(Wall::new(Vector2d::new(2000, size_y / 2), 4000, size_y));
        walls.push(Wall::new(Vector2d::new(size_x - 2000, size_y / 2), 4000, size_y));
        walls.push(Wall::new(Vector2d::new(size_x / 2, 2000), size_x, 4000));
        walls.push(Wall::new(Vector2d::new(size_x / 2, size_y - 2000), size_x, 4000));

        let mut enemies: Vec<Enemy> = Vec::new();
        enemies.push(Enemy::new(EnemyType::Normal, Vector2d::new(100_000, 100_000)));

        proof {
            assert(walls@ =~= initial_walls(size_x as int, size_y as int));
            assert(enemies@ =~= seq![
                enemy_new_spec(EnemyType::Normal, Vector2d { x: 100_000, y: 100_000 }),
            ]);
        }
        GameState {
            frame: 0,
            time: GameTime::new(),
            player,
            walls,
            bullets: Vec::new(),
            enemies,
            enemy_spawn: Cooldown::new(SPAWN_COOLDOWN),
            world_size_x: size_x,
            world_size_y: size_y,
        }
    }
}

} // verus!
