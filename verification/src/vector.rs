//! 2D vector arithmetic on milli-unit coordinates.

use vstd::prelude::*;
use crate::math::{isqrt, lemma_root_fits, lemma_sqrt_floor_bounds, lemma_sqrt_floor_monotonic,
    lemma_sqrt_floor_square, sqrt_floor};

verus! {

/// Largest component magnitude the square-root based operations accept; the
/// sum of two squared components then still fits the bisection's input range.
pub const VEC_LIMIT: i64 = 0x4000_0000_0000_0000;

#[derive(Clone, Copy, Debug, PartialEq, Eq, Structural)]
pub struct Vector2d {
    pub x: i64,
    pub y: i64,
}

/// Squared euclidean length.
pub open spec fn len2(v: Vector2d) -> int {
    v.x * v.x + v.y * v.y
}

/// Euclidean length, rounded down to whole milli-units.
pub open spec fn len_of(v: Vector2d) -> int {
    sqrt_floor(len2(v) as nat) as int
}

/// One component of a vector scaled to unit length: `c * UNIT / l`, rounded
/// toward zero.
pub open spec fn norm_component(c: int, l: int) -> int {
    if c >= 0 {
        (c * 1000) / l
    } else {
        -(((-c) * 1000) / l)
    }
}

/// The vector scaled so that its length is one game unit (1000 milli-units),
/// up to rounding.
pub open spec fn normalized(v: Vector2d) -> Vector2d {
    Vector2d {
        x: norm_component(v.x as int, len_of(v)) as i64,
        y: norm_component(v.y as int, len_of(v)) as i64,
    }
}

/// The normalize law: a vector at least one unit long normalizes to length
/// 1.0 up to the fixed-point rounding error — within 0.2% of one unit.
/// Vectors shorter than one unit are excluded: below the scale's resolution
/// the rounded quotients are too coarse for the bound.
pub proof fn lemma_normalized_length(v: Vector2d)
    requires
        -VEC_LIMIT <= v.x <= VEC_LIMIT,
        -VEC_LIMIT <= v.y <= VEC_LIMIT,
        len_of(v) >= 1000,
    ensures
        998 <= len_of(normalized(v)) <= 1000,
{
    let a: int = if v.x >= 0 {
        v.x as int
    } else {
        -(v.x as int)
    };
    let b: int = if v.y >= 0 {
        v.y as int
    } else {
        -(v.y as int)
    };
    let n: int = len2(v);
    assert(a * a == v.x * v.x && b * b == v.y * v.y && 0 <= a * a && 0 <= b * b)
        by (nonlinear_arith)
        requires (a == v.x || a == -v.x) && (b == v.y || b == -v.y),
    ;
    assert(n == a * a + b * b);
    let l: int = len_of(v);
    lemma_sqrt_floor_bounds(n as nat);
    assert(l * l <= n < (l + 1) * (l + 1));
    assert(l >= 1000);

    // each component magnitude is at most the length
    lemma_sqrt_floor_square(a as nat);
    lemma_sqrt_floor_monotonic((a * a) as nat, n as nat);
    assert(a <= l);
    lemma_sqrt_floor_square(b as nat);
    lemma_sqrt_floor_monotonic((b * b) as nat, n as nat);
    assert(b <= l);

    // the rounded quotients and their division facts
    let qa = (a * 1000) / l;
    let qb = (b * 1000) / l;
    vstd::arithmetic::div_mod::lemma_fundamental_div_mod(a * 1000, l);
    vstd::arithmetic::div_mod::lemma_mod_bound(a * 1000, l);
    vstd::arithmetic::div_mod::lemma_fundamental_div_mod(b * 1000, l);
    vstd::arithmetic::div_mod::lemma_mod_bound(b * 1000, l);
    assert(l * qa <= a * 1000 && l * qa >= a * 1000 - l + 1);
    assert(l * qb <= b * 1000 && l * qb >= b * 1000 - l + 1);
    assert(qa >= 0 && qb >= 0) by (nonlinear_arith)
        requires
            l * qa >= a * 1000 - l + 1,
            l * qb >= b * 1000 - l + 1,
            a >= 0,
            b >= 0,
            l >= 1,
    ;
    assert(qa <= 1000 && qb <= 1000) by (nonlinear_arith)
        requires
            l * qa <= a * 1000,
            l * qb <= b * 1000,
            a <= l,
            b <= l,
            l >= 1,
    ;

    // the squared length of the normalized vector is qa^2 + qb^2
    let m = qa * qa + qb * qb;
    assert(norm_component(v.x as int, l) == qa || norm_component(v.x as int, l) == -qa);
    assert(norm_component(v.y as int, l) == qb || norm_component(v.y as int, l) == -qb);
    let w = normalized(v);
    assert(w.x == qa || w.x == -qa);
    assert(w.y == qb || w.y == -qb);
    assert(len2(w) == m) by (nonlinear_arith)
        requires (w.x == qa || w.x == -qa) && (w.y == qb || w.y == -qb) && m == qa * qa + qb
            * qb && len2(w) == w.x * w.x + w.y * w.y,
    ;

    // upper bound: m * l^2 <= 10^6 * n < 10^6 * (l+1)^2, so m < 1001^2
    assert(qa * qa * (l * l) <= 1000000 * (a * a)) by (nonlinear_arith)
        requires 0 <= l * qa <= a * 1000,
    ;
    assert(qb * qb * (l * l) <= 1000000 * (b * b)) by (nonlinear_arith)
        requires 0 <= l * qb <= b * 1000,
    ;
    assert(m * (l * l) <= 1000000 * n) by (nonlinear_arith)
        requires
            qa * qa * (l * l) <= 1000000 * (a * a),
            qb * qb * (l * l) <= 1000000 * (b * b),
            m == qa * qa + qb * qb,
            n == a * a + b * b,
    ;
    if m >= 1002001 {
        assert(m * (l * l) >= 1002001 * (l * l)) by (nonlinear_arith)
            requires m >= 1002001, l * l >= 0,
        ;
        assert(1002001 * (l * l) >= 1000000 * ((l + 1) * (l + 1))) by (nonlinear_arith)
            requires l >= 1000,
        ;
        assert(1000000 * n >= 1000000 * ((l + 1) * (l + 1)));
        assert(n >= (l + 1) * (l + 1)) by (nonlinear_arith)
            requires 1000000 * n >= 1000000 * ((l + 1) * (l + 1)),
        ;
        assert(false);
    }

    // lower bound: m * l^2 >= 10^6 * n - 2000 * l * (a + b)
    assert(qa * qa * (l * l) >= 1000000 * (a * a) - 2000 * a * l) by (nonlinear_arith)
        requires
            l * qa >= a * 1000 - l,
            qa >= 0,
            l >= 1,
            a >= 0,
    ;
    assert(qb * qb * (l * l) >= 1000000 * (b * b) - 2000 * b * l) by (nonlinear_arith)
        requires
            l * qb >= b * 1000 - l,
            qb >= 0,
            l >= 1,
            b >= 0,
    ;
    // a + b is at most 1.5 l, since (a+b)^2 <= 2 n <= 2 l^2 + 4 l
    let s = a + b;
    assert(s * s <= 2 * n) by (nonlinear_arith)
        requires n == a * a + b * b, s == a + b,
    ;
    assert(n <= l * l + 2 * l) by (nonlinear_arith)
        requires n < (l + 1) * (l + 1),
    ;
    if 2 * s >= 3 * l + 1 {
        assert((2 * s) * (2 * s) >= (3 * l + 1) * (3 * l + 1)) by (nonlinear_arith)
            requires 2 * s >= 3 * l + 1, 3 * l + 1 >= 0,
        ;
        assert((2 * s) * (2 * s) == 4 * (s * s)) by (nonlinear_arith);
        assert((3 * l + 1) * (3 * l + 1) > 8 * (l * l) + 16 * l) by (nonlinear_arith)
            requires l >= 1000,
        ;
        assert(4 * (s * s) <= 8 * (l * l) + 16 * l) by (nonlinear_arith)
            requires s * s <= 2 * n, n <= l * l + 2 * l,
        ;
        assert(false);
    }
    assert(m * (l * l) >= 997000 * (l * l)) by (nonlinear_arith)
        requires
            qa * qa * (l * l) >= 1000000 * (a * a) - 2000 * a * l,
            qb * qb * (l * l) >= 1000000 * (b * b) - 2000 * b * l,
            m == qa * qa + qb * qb,
            n == a * a + b * b,
            n >= l * l,
            2 * (a + b) <= 3 * l,
            a >= 0,
            b >= 0,
            l >= 1,
    ;
    assert(m >= 997000) by (nonlinear_arith)
        requires m * (l * l) >= 997000 * (l * l), l >= 1,
    ;

    // read the bounds off the square root
    let lm = sqrt_floor(m as nat) as int;
    lemma_sqrt_floor_bounds(m as nat);
    if lm >= 1001 {
        assert(lm * lm >= 1001 * 1001) by (nonlinear_arith)
            requires lm >= 1001,
        ;
        assert(false);
    }
    if lm <= 997 {
        assert((lm + 1) * (lm + 1) <= 998 * 998) by (nonlinear_arith)
            requires lm + 1 <= 998, lm >= 0,
        ;
        assert(false);
    }
    assert(len_of(w) == lm);
}

impl Vector2d {
    pub fn new(x: i64, y: i64) -> (r: Vector2d)
        ensures
            r == (Vector2d { x, y }),
    {
        Vector2d { x, y }
    }

    pub fn set(&mut self, x: i64, y: i64)
        ensures
            *final(self) == (Vector2d { x, y }),
    {
        self.x = x;
        self.y = y;
    }

    pub fn add(&mut self, other: &Vector2d)
        requires
            i64::MIN <= old(self).x + other.x <= i64::MAX,
            i64::MIN <= old(self).y + other.y <= i64::MAX,
        ensures
            final(self).x == old(self).x + other.x,
            final(self).y == old(self).y + other.y,
    {
        self.x = self.x + other.x;
        self.y = self.y + other.y;
    }

    pub fn sub(&mut self, other: &Vector2d)
        requires
            i64::MIN <= old(self).x - other.x <= i64::MAX,
            i64::MIN <= old(self).y - other.y <= i64::MAX,
        ensures
            final(self).x == old(self).x - other.x,
            final(self).y == old(self).y - other.y,
    {
        self.x = self.x - other.x;
        self.y = self.y - other.y;
    }

    pub fn mul(&self, m: i64) -> (r: Vector2d)
        requires
            i64::MIN <= self.x * m <= i64::MAX,
            i64::MIN <= self.y * m <= i64::MAX,
        ensures
            r.x == self.x * m,
            r.y == self.y * m,
    {
        Vector2d::new(self.x * m, self.y * m)
    }

    /// Euclidean length in milli-units, rounded down.
    pub fn len(&self) -> (r: i64)
        requires
            -VEC_LIMIT <= self.x <= VEC_LIMIT,
            -VEC_LIMIT <= self.y <= VEC_LIMIT,
        ensures
            r == len_of(*self),
            0 <= r,
    {
        let sq = self.square_sum();
        let root = isqrt(sq);
        proof {
            lemma_root_fits(sq as nat, root as nat);
        }
        root as i64
    }

    /// Scales the vector so its length becomes one game unit, up to rounding.
    /// The zero vector has no direction; callers must rule it out.
    pub fn normalize(&mut self)
        requires
            len2(*old(self)) > 0,
            -VEC_LIMIT <= old(self).x <= VEC_LIMIT,
            -VEC_LIMIT <= old(self).y <= VEC_LIMIT,
        ensures
            *final(self) == normalized(*old(self)),
            -1000 <= final(self).x <= 1000,
            -1000 <= final(self).y <= 1000,
    {
        let sq = self.square_sum();
        let l = isqrt(sq);
        proof {
            if l == 0 {
                assert((l + 1) * (l + 1) == 1) by (nonlinear_arith)
                    requires l == 0,
                ;
                assert(false);
            }
            assert(self.x * self.x <= sq && self.y * self.y <= sq) by (nonlinear_arith)
                requires sq == self.x * self.x + self.y * self.y,
            ;
        }
        let qx = self.scaled_abs_component(self.x, l, sq);
        let qy = self.scaled_abs_component(self.y, l, sq);
        let nx: i64 = if self.x >= 0 {
            qx as i64
        } else {
            -(qx as i64)
        };
        let ny: i64 = if self.y >= 0 {
            qy as i64
        } else {
            -(qy as i64)
        };
        self.x = nx;
        self.y = ny;
    }

    /// Sum of the squared components, exactly.
    fn square_sum(&self) -> (sq: u128)
        requires
            -VEC_LIMIT <= self.x <= VEC_LIMIT,
            -VEC_LIMIT <= self.y <= VEC_LIMIT,
        ensures
            sq == len2(*self),
            sq < 0x4000_0000_0000_0000_0000_0000_0000_0000,
    {
        let ax: u128 = (if self.x >= 0 {
            self.x
        } else {
            -self.x
        }) as u128;
        let ay: u128 = (if self.y >= 0 {
            self.y
        } else {
            -self.y
        }) as u128;
        proof {
            assert(ax * ax == self.x * self.x) by (nonlinear_arith)
                requires ax == self.x || ax == -self.x,
            ;
            assert(ay * ay == self.y * self.y) by (nonlinear_arith)
                requires ay == self.y || ay == -self.y,
            ;
            assert(ax * ax <= 0x4000_0000_0000_0000u128 * 0x4000_0000_0000_0000u128)
                by (nonlinear_arith)
                requires ax <= 0x4000_0000_0000_0000u128,
            ;
            assert(ay * ay <= 0x4000_0000_0000_0000u128 * 0x4000_0000_0000_0000u128)
                by (nonlinear_arith)
                requires ay <= 0x4000_0000_0000_0000u128,
            ;
        }
        ax * ax + ay * ay
    }

    /// `|c| * 1000 / l` on machine integers; at most 1000 whenever `c * c`
    /// is no more than `sq`.
    fn scaled_abs_component(&self, c: i64, l: u128, sq: u128) -> (q: u128)
        requires
            -VEC_LIMIT <= c <= VEC_LIMIT,
            l >= 1,
            c * c <= sq,
            l * l <= sq < (l + 1) * (l + 1),
        ensures
            c >= 0 ==> q == (c * 1000) / (l as int),
            c < 0 ==> q == ((-c) * 1000) / (l as int),
            q <= 1000,
    {
        let a: u128 = (if c >= 0 {
            c
        } else {
            -c
        }) as u128;
        proof {
            assert(a * a == c * c) by (nonlinear_arith)
                requires a == c || a == -c,
            ;
            lemma_sqrt_floor_square(a as nat);
            lemma_sqrt_floor_monotonic((a * a) as nat, sq as nat);
            crate::math::lemma_sqrt_floor_unique(sq as nat, l as nat);
            assert(a <= l);
            assert(a * 1000 <= l * 1000) by (nonlinear_arith)
                requires a <= l,
            ;
            vstd::arithmetic::div_mod::lemma_fundamental_div_mod((a * 1000) as int, l as int);
            let q0 = ((a * 1000) as int) / (l as int);
            assert(q0 * (l as int) <= (a * 1000) as int) by {
                vstd::arithmetic::div_mod::lemma_mod_bound((a * 1000) as int, l as int);
            }
            assert(q0 <= 1000) by (nonlinear_arith)
                requires q0 * (l as int) <= 1000 * (l as int), l >= 1,
            ;
        }
        (a * 1000) / l
    }
}

} // verus!
