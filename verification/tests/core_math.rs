use game_core::math::{clamped_add, isqrt, pulse_value, velocity_step};
use game_core::vector::Vector2d;

#[test]
fn test_norm() {
    let mut v = Vector2d::new(10_000, 10_000);
    v.normalize();
    assert_eq!(v.x, 707);
}

#[test]
fn test_set() {
    let mut v = Vector2d::new(10_000, 10_000);
    v.set(1000, 2000);
    assert_eq!(v.x, 1000);
    assert_eq!(v.y, 2000);
}

#[test]
fn vector_add_sub_mul() {
    let mut v = Vector2d::new(1500, -2500);
    v.add(&Vector2d::new(500, 500));
    assert_eq!(v, Vector2d::new(2000, -2000));
    v.sub(&Vector2d::new(3000, -3000));
    assert_eq!(v, Vector2d::new(-1000, 1000));
    let w = v.mul(-3);
    assert_eq!(w, Vector2d::new(3000, -3000));
}

#[test]
fn vector_len_exact() {
    let v = Vector2d::new(3000, 4000);
    assert_eq!(v.len(), 5000);
    let w = Vector2d::new(10, 10);
    assert_eq!(w.len(), 14);
    let z = Vector2d::new(0, -7000);
    assert_eq!(z.len(), 7000);
}

#[test]
fn normalize_unit_length_within_tolerance() {
    let mut v = Vector2d::new(10_000, 10_000);
    v.normalize();
    let len = v.len();
    assert!(998 <= len && len <= 1000);
    assert_eq!(len, 999);

    let mut w = Vector2d::new(-123_456, 654_321);
    w.normalize();
    let wl = w.len();
    assert!(998 <= wl && wl <= 1000);
}

#[test]
fn normalize_negative_components() {
    let mut v = Vector2d::new(-3000, -4000);
    v.normalize();
    assert_eq!(v.x, -600);
    assert_eq!(v.y, -800);
}

#[test]
fn isqrt_exact_values() {
    assert_eq!(isqrt(0), 0);
    assert_eq!(isqrt(1), 1);
    assert_eq!(isqrt(2), 1);
    assert_eq!(isqrt(3), 1);
    assert_eq!(isqrt(4), 2);
    assert_eq!(isqrt(10_000_000_000), 100_000);
    assert_eq!(isqrt(10_000_000_001), 100_000);
    assert_eq!(isqrt(9_999_999_999), 99_999);
}

#[test]
fn pulse_rises_and_falls() {
    assert_eq!(pulse_value(700, 1000, 0, 1000), 700);
    assert_eq!(pulse_value(700, 1000, 250, 1000), 850);
    assert_eq!(pulse_value(700, 1000, 500, 1000), 1000);
    assert_eq!(pulse_value(700, 1000, 750, 1000), 850);
    // one full period later the wave repeats
    assert_eq!(pulse_value(700, 1000, 1250, 1000), 850);
    // the wave never leaves its band
    let mut t: i64 = 0;
    while t < 3000 {
        let v = pulse_value(0, 5000, t, 600);
        assert!(0 <= v && v <= 5000);
        t += 37;
    }
}

#[test]
fn clamped_add_saturates() {
    assert_eq!(clamped_add(5, 10), 15);
    assert_eq!(clamped_add(999_999_999_999, 5000), 1_000_000_000_000);
    assert_eq!(clamped_add(-999_999_999_999, -5000), -1_000_000_000_000);
}

#[test]
fn velocity_step_scales_by_delta() {
    assert_eq!(velocity_step(300_000, 100), 30_000);
    assert_eq!(velocity_step(-300_000, 100), -30_000);
    assert_eq!(velocity_step(300_000, 0), 0);
    assert_eq!(velocity_step(1, 100), 0);
}
