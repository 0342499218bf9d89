use game_core::bullet::Bullet;
use game_core::cooldown::Cooldown;
use game_core::enemies::{Enemy, EnemyType};
use game_core::game_state::GameState;
use game_core::rng::{RandomSource, SeededRandom};
use game_core::vector::Vector2d;
use game_core::{game_loop, is_quit_message, GameInput};

/// A test source that always answers with the low end of the range.
struct LowRandom;

impl RandomSource for LowRandom {
    fn random_in_range(&mut self, min: i64, _max: i64) -> i64 {
        min
    }
}

#[test]
fn test_elapsed() {
    let mut c = Cooldown::new(1000);
    assert_eq!(c.is_elapsed(), false);
    c.update(1100);
    assert_eq!(c.is_elapsed(), true);
    c.restart();
    assert_eq!(c.is_elapsed(), false);
    c.update(100);
    assert_eq!(c.is_elapsed(), false);
    c.update(100);
    assert_eq!(c.is_elapsed(), false);
    c.update(1100);
    assert_eq!(c.is_elapsed(), true);
    c.set_cooldown(500);
    c.restart();
    assert_eq!(c.is_elapsed(), false);
    c.update(600);
    assert_eq!(c.is_elapsed(), true);
}

#[test]
fn test_loop() {
    let mut state = GameState::new(960_000, 540_000);
    let mut rng = SeededRandom::new(7);
    let input = GameInput::new();
    let ret = game_loop(&mut state, &mut rng, &input, 100, 100);
    println!("{:?}", ret.0);
}

#[test]
fn cooldown_elapses_strictly_after_duration() {
    let mut c = Cooldown::new(300);
    c.restart();
    assert!(!c.is_elapsed());
    c.update(100);
    c.update(100);
    c.update(100);
    // updates summing to exactly the duration: still not elapsed
    assert!(!c.is_elapsed());
    c.update(1);
    assert!(c.is_elapsed());
}

#[test]
fn first_tick_render_list_of_fresh_world() {
    let mut gs = GameState::new(960_000, 540_000);
    assert_eq!(gs.player.pos, Vector2d::new(480_000, 270_000));
    let mut rng = SeededRandom::new(1);
    let input = GameInput::new();
    let out = gs.update(&input, &mut rng, 100, 100);
    // no bullets, the player, the one initial enemy, four walls
    assert_eq!(out.len(), 6);
    assert_eq!(gs.bullets.len(), 0);
    assert_eq!(gs.enemies.len(), 1);
    // the player rect: centered at the world center, half-extents 5 units
    let player_rect = out[0].rect;
    assert_eq!(player_rect.left, 475_000);
    assert_eq!(player_rect.right, 485_000);
    assert_eq!(player_rect.bottom, 265_000);
    assert_eq!(player_rect.top, 275_000);
    // the four boundary walls close off the world edges
    let left_wall = out[2].rect;
    assert_eq!(left_wall.left, 0);
    assert_eq!(left_wall.right, 4000);
    assert_eq!(left_wall.bottom, 0);
    assert_eq!(left_wall.top, 540_000);
    let right_wall = out[3].rect;
    assert_eq!(right_wall.left, 956_000);
    assert_eq!(right_wall.right, 960_000);
    let bottom_wall = out[4].rect;
    assert_eq!(bottom_wall.bottom, 0);
    assert_eq!(bottom_wall.top, 4000);
    assert_eq!(bottom_wall.left, 0);
    assert_eq!(bottom_wall.right, 960_000);
    let top_wall = out[5].rect;
    assert_eq!(top_wall.bottom, 536_000);
    assert_eq!(top_wall.top, 540_000);
    // tick bookkeeping
    assert_eq!(gs.frame, 1);
    assert_eq!(gs.time.time_elapsed, 100);
    assert_eq!(gs.time.delta, 100);
}

#[test]
fn wall_overlap_pushes_player_flush_within_a_tick() {
    let mut gs = GameState::new(960_000, 540_000);
    let mut rng = SeededRandom::new(1);
    let input = GameInput::new();
    // stand the player overlapping the left wall by three units
    gs.player.pos.x = 6000;
    let _ = gs.update(&input, &mut rng, 0, 0);
    // pushed out along the shallow axis: left edge flush with the wall's
    // right edge
    assert_eq!(gs.player.pos, Vector2d::new(9000, 270_000));
}

#[test]
fn shoot_right_spawns_one_bullet_at_player_position() {
    let mut gs = GameState::new(960_000, 540_000);
    let mut rng = SeededRandom::new(1);
    let mut input = GameInput::new();
    input.shoot_right = true;
    // a delta that takes the fresh fire cooldown just past elapsed
    let out = gs.update(&input, &mut rng, 150, 150);
    assert_eq!(gs.bullets.len(), 1);
    let b = &gs.bullets[0];
    assert_eq!(b.pos, Vector2d::new(480_000, 270_000));
    assert_eq!(b.vel, Vector2d::new(300_000, 0));
    // the bullet leads the render list
    assert_eq!(out[0].rect.left, 478_000);
    assert_eq!(out[0].rect.right, 482_000);
    // holding the key through the next tick does not fire again before the
    // cooldown winds down
    let _ = gs.update(&input, &mut rng, 200, 50);
    assert_eq!(gs.bullets.len(), 1);
}

#[test]
fn bullet_is_culled_on_the_tick_its_center_crosses_the_edge() {
    let mut gs = GameState::new(960_000, 540_000);
    let mut rng = SeededRandom::new(1);
    let input = GameInput::new();
    // both fly right at 300 units per second
    gs.bullets.push(Bullet::new(Vector2d::new(950_000, 270_000), Vector2d::new(1000, 0)));
    gs.bullets.push(Bullet::new(Vector2d::new(900_000, 270_000), Vector2d::new(1000, 0)));
    // and one flies left, just inside the low edge
    gs.bullets.push(Bullet::new(Vector2d::new(20_000, 135_000), Vector2d::new(-1000, 0)));
    let _ = gs.update(&input, &mut rng, 100, 100);
    // 950 + 30 crosses 960 and is gone this very tick; 900 + 30 stays;
    // 20 - 30 crosses 0 and is gone
    assert_eq!(gs.bullets.len(), 1);
    assert_eq!(gs.bullets[0].pos, Vector2d::new(930_000, 270_000));
    // the survivor lingers no extra tick either
    let _ = gs.update(&input, &mut rng, 200, 100);
    assert_eq!(gs.bullets.len(), 1);
    assert_eq!(gs.bullets[0].pos, Vector2d::new(960_000, 270_000));
    let _ = gs.update(&input, &mut rng, 300, 100);
    assert_eq!(gs.bullets.len(), 0);
}

#[test]
fn one_bullet_kills_both_overlapped_enemies_and_is_removed_once() {
    let mut gs = GameState::new(960_000, 540_000);
    let mut rng = SeededRandom::new(1);
    let input = GameInput::new();
    gs.enemies.clear();
    gs.enemies.push(Enemy::new(EnemyType::Normal, Vector2d::new(500_000, 270_000)));
    gs.enemies.push(Enemy::new(EnemyType::Normal, Vector2d::new(500_500, 270_000)));
    // a stationary bullet overlapping both enemies
    gs.bullets.push(Bullet::new(Vector2d::new(500_200, 270_000), Vector2d::new(0, 0)));
    let _ = gs.update(&input, &mut rng, 0, 0);
    assert_eq!(gs.enemies.len(), 0);
    assert_eq!(gs.bullets.len(), 0);
}

#[test]
fn enemy_homes_one_unit_per_tick_toward_player() {
    let mut e = Enemy::new(EnemyType::Normal, Vector2d::new(110_000, 100_000));
    // homing speed does not scale with the delta
    e.update(Vector2d::new(100_000, 100_000), 0);
    assert_eq!(e.pos, Vector2d::new(109_000, 100_000));
    e.update(Vector2d::new(100_000, 100_000), 100);
    assert_eq!(e.pos, Vector2d::new(108_000, 100_000));
    // an enemy standing exactly on the player stays put
    let mut d = Enemy::new(EnemyType::Normal, Vector2d::new(100_000, 100_000));
    d.update(Vector2d::new(100_000, 100_000), 100);
    assert_eq!(d.pos, Vector2d::new(100_000, 100_000));
}

#[test]
fn bullet_integrates_velocity_and_pulses() {
    let mut b = Bullet::new(Vector2d::new(100_000, 100_000), Vector2d::new(1000, 0));
    b.update(100);
    assert_eq!(b.pos, Vector2d::new(130_000, 100_000));
    assert_eq!(b.life_time, 100);
    assert_eq!(b.color.r, 760);
    assert_eq!(b.color.g, 700);
}

#[test]
fn spawn_waits_for_its_cooldown_and_keeps_its_distance() {
    let mut gs = GameState::new(960_000, 540_000);
    let mut rng = LowRandom;
    let input = GameInput::new();
    // first tick: 250 ms spawn timer minus 100 has not elapsed
    let _ = gs.update(&input, &mut rng, 100, 100);
    assert_eq!(gs.enemies.len(), 1);
    // second tick crosses the timer; the low corner is far from the player
    let _ = gs.update(&input, &mut rng, 300, 200);
    assert_eq!(gs.enemies.len(), 2);
    let spawned = &gs.enemies[1];
    // placed at the margin corner, then homed one unit toward the player
    assert!(5000 <= spawned.pos.x && spawned.pos.x <= 6000);
    assert!(5000 <= spawned.pos.y && spawned.pos.y <= 6000);
}

#[test]
fn spawn_gives_up_in_a_cramped_world() {
    // the whole sampling region is within the exclusion radius of the player
    let mut gs = GameState::new(30_000, 30_000);
    gs.enemies.clear();
    let mut rng = SeededRandom::new(99);
    let input = GameInput::new();
    let _ = gs.update(&input, &mut rng, 300, 300);
    // the timer elapsed but every candidate was rejected: no spawn, no hang
    assert_eq!(gs.enemies.len(), 0);
}

#[test]
fn quit_frame_short_circuits_the_tick() {
    let mut state = GameState::new(960_000, 540_000);
    let mut rng = SeededRandom::new(7);
    let mut input = GameInput::new();
    input.quit_key = true;
    input.right_key = true;
    let (quit, out) = game_loop(&mut state, &mut rng, &input, 100, 100);
    assert!(quit);
    assert!(out.is_empty());
    // no mutation happened on the quit frame
    assert_eq!(state.frame, 0);
    assert_eq!(state.player.pos, Vector2d::new(480_000, 270_000));
    assert_eq!(state.enemies.len(), 1);

    input.quit_key = false;
    let (quit2, out2) = game_loop(&mut state, &mut rng, &input, 100, 100);
    assert!(!quit2);
    assert_eq!(out2.len(), 6);
    assert_eq!(state.frame, 1);
}

#[test]
fn seeded_random_is_deterministic_and_in_range() {
    let mut a = SeededRandom::new(42);
    let mut b = SeededRandom::new(42);
    let mut i: u32 = 0;
    while i < 200 {
        let x = a.random_in_range(5000, 955_000);
        let y = b.random_in_range(5000, 955_000);
        assert_eq!(x, y);
        assert!(5000 <= x && x < 955_000);
        i += 1;
    }
    let mut c = SeededRandom::new(43);
    let first_a = SeededRandom::new(42).random_in_range(0, 1_000_000_000);
    let first_c = c.random_in_range(0, 1_000_000_000);
    assert_ne!(first_a, first_c);
}

#[test]
fn input_starts_empty_and_quit_message_is_recognized() {
    let input = GameInput::new();
    assert!(!input.up_key && !input.down_key && !input.left_key && !input.right_key);
    assert!(!input.shoot_up && !input.shoot_down && !input.shoot_left && !input.shoot_right);
    assert!(!input.quit_key && !input.space);
    assert!(is_quit_message(161));
    assert!(!is_quit_message(160));
    assert!(!is_quit_message(0));
}
