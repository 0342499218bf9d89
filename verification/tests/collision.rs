use game_core::entities::{check_intersection, BoundingBox, Collider, Drawable, Intersection,
    Position, Side};
use game_core::wall::Wall;
use game_core::player::Player;
use game_core::vector::Vector2d;
use game_core::GameInput;

fn bb(left: i64, right: i64, bottom: i64, top: i64) -> BoundingBox {
    BoundingBox { left, right, top, bottom }
}

#[test]
fn separated_boxes_do_not_intersect() {
    // apart on x
    let a = bb(0, 10_000, 0, 10_000);
    let b = bb(20_000, 30_000, 0, 10_000);
    assert!(check_intersection(&a, &b).is_none());
    // apart on y
    let c = bb(0, 10_000, 20_000, 30_000);
    assert!(check_intersection(&a, &c).is_none());
    // touching edges do not count as overlap
    let d = bb(10_000, 20_000, 0, 10_000);
    assert!(check_intersection(&a, &d).is_none());
}

#[test]
fn shallow_overlap_reports_side_and_depth() {
    let other = bb(10_000, 20_000, 0, 10_000);
    // subject's right edge one unit past the other's left edge
    let subject = bb(1000, 11_000, 0, 10_000);
    let hit = check_intersection(&subject, &other).unwrap();
    assert_eq!(hit, Intersection { hit_side: Side::Right, amount: 1000 });
    // the symmetric case: subject's left edge one unit past the other's right
    let subject2 = bb(19_000, 29_000, 0, 10_000);
    let hit2 = check_intersection(&subject2, &other).unwrap();
    assert_eq!(hit2, Intersection { hit_side: Side::Left, amount: 1000 });
}

#[test]
fn vertical_overlap_reports_top_and_bottom() {
    let other = bb(0, 10_000, 10_000, 20_000);
    // subject's top edge one unit past the other's bottom edge
    let subject = bb(0, 10_000, 1000, 11_000);
    let hit = check_intersection(&subject, &other).unwrap();
    assert_eq!(hit, Intersection { hit_side: Side::Top, amount: 1000 });
    let subject2 = bb(0, 10_000, 19_000, 29_000);
    let hit2 = check_intersection(&subject2, &other).unwrap();
    assert_eq!(hit2, Intersection { hit_side: Side::Bottom, amount: 1000 });
}

#[test]
fn intersection_query_is_stable() {
    let a = bb(1000, 11_000, 0, 10_000);
    let b = bb(10_000, 20_000, 0, 10_000);
    let first = check_intersection(&a, &b);
    let second = check_intersection(&a, &b);
    assert_eq!(first, second);
}

#[test]
fn tie_breaks_in_fixed_side_order() {
    // identical boxes: every candidate ties, left wins
    let a = bb(0, 10_000, 0, 10_000);
    let hit = check_intersection(&a, &a).unwrap();
    assert_eq!(hit.hit_side, Side::Left);
    assert_eq!(hit.amount, 10_000);
}

#[test]
fn collisions_push_player_from_base_position() {
    let mut p = Player::new();
    let hits = vec![
        Intersection { hit_side: Side::Left, amount: 500 },
        Intersection { hit_side: Side::Top, amount: 300 },
    ];
    p.handle_collisions(Some(hits));
    // both pushes apply against the position read once before the loop
    assert_eq!(p.pos, Vector2d::new(480_500, 269_700));

    // a later x push overrides an earlier one; y stays put
    let mut q = Player::new();
    let hits2 = vec![
        Intersection { hit_side: Side::Left, amount: 500 },
        Intersection { hit_side: Side::Right, amount: 200 },
    ];
    q.handle_collisions(Some(hits2));
    assert_eq!(q.pos, Vector2d::new(479_800, 270_000));

    let mut r = Player::new();
    r.handle_collisions(None);
    assert_eq!(r.pos, Vector2d::new(480_000, 270_000));
}

#[test]
fn entity_capabilities_on_a_wall() {
    let mut w = Wall::new(Vector2d::new(10_000, 20_000), 4000, 8000);
    assert_eq!(w.get_position(), Vector2d::new(10_000, 20_000));
    w.set_x(12_000);
    w.set_y(22_000);
    let rect = w.get_bounding_box();
    assert_eq!(rect.left, 10_000);
    assert_eq!(rect.right, 14_000);
    assert_eq!(rect.bottom, 18_000);
    assert_eq!(rect.top, 26_000);
    let c = w.get_color();
    assert_eq!(c.r, 1000);
    assert_eq!(c.g, 100);
    assert_eq!(c.b, 100);
}

#[test]
fn player_moves_by_held_keys() {
    let mut p = Player::new();
    let mut bullets = Vec::new();
    let mut input = GameInput::new();
    input.right_key = true;
    p.update(&input, &mut bullets, 10);
    assert_eq!(p.pos, Vector2d::new(481_500, 270_000));

    input.space = true;
    input.up_key = true;
    p.update(&input, &mut bullets, 10);
    // fast modifier: a full 10-unit step on each held axis
    assert_eq!(p.pos, Vector2d::new(491_500, 280_000));
    assert!(bullets.is_empty());
}
