//! Integer helpers the simulation is built on: a floor square root, saturating
//! coordinate addition, velocity scaling by a time delta, and a periodic
//! triangle wave used for cosmetic pulsing.

use vstd::prelude::*;

verus! {

/// Floor of the square root of `n`, as a mathematical definition.
pub open spec fn sqrt_floor(n: nat) -> nat
    decreases n,
{
    if n == 0 {
        0
    } else {
        let r = sqrt_floor((n - 1) as nat);
        if (r + 1) * (r + 1) <= n {
            r + 1
        } else {
            r
        }
    }
}

/// `sqrt_floor(n)` is the unique `r` with `r * r <= n < (r + 1) * (r + 1)`.
pub proof fn lemma_sqrt_floor_bounds(n: nat)
    ensures
        sqrt_floor(n) * sqrt_floor(n) <= n,
        n < (sqrt_floor(n) + 1) * (sqrt_floor(n) + 1),
    decreases n,
{
    if n > 0 {
        lemma_sqrt_floor_bounds((n - 1) as nat);
        let r = sqrt_floor((n - 1) as nat);
        assert(r * r <= n - 1 < (r + 1) * (r + 1));
        if (r + 1) * (r + 1) <= n {
            assert(sqrt_floor(n) == r + 1);
            assert(n == (r + 1) * (r + 1));
            assert((r + 1) * (r + 1) < (r + 2) * (r + 2)) by (nonlinear_arith);
            assert(n < (r + 2) * (r + 2));
            assert(n < (sqrt_floor(n) + 1) * (sqrt_floor(n) + 1));
        } else {
            assert(sqrt_floor(n) == r);
            assert(n < (sqrt_floor(n) + 1) * (sqrt_floor(n) + 1));
        }
    } else {
        assert(n == 0);
        let s = sqrt_floor(n);
        assert(s == 0);
        assert((s + 1) * (s + 1) == 1) by (nonlinear_arith)
            requires s == 0,
        ;
        assert(n < (sqrt_floor(n) + 1) * (sqrt_floor(n) + 1));
    }
}

/// Any `r` within the square-root bracket of `n` is `sqrt_floor(n)`.
pub proof fn lemma_sqrt_floor_unique(n: nat, r: nat)
    requires
        r * r <= n,
        n < (r + 1) * (r + 1),
    ensures
        r == sqrt_floor(n),
{
    lemma_sqrt_floor_bounds(n);
    let s = sqrt_floor(n);
    if r < s {
        assert((r + 1) * (r + 1) <= s * s) by (nonlinear_arith)
            requires r + 1 <= s,
        ;
    }
    if s < r {
        assert((s + 1) * (s + 1) <= r * r) by (nonlinear_arith)
            requires s + 1 <= r,
        ;
    }
}

/// The floor square root is monotonic.
pub proof fn lemma_sqrt_floor_monotonic(m: nat, n: nat)
    requires
        m <= n,
    ensures
        sqrt_floor(m) <= sqrt_floor(n),
{
    lemma_sqrt_floor_bounds(m);
    lemma_sqrt_floor_bounds(n);
    let a = sqrt_floor(m);
    let b = sqrt_floor(n);
    if b < a {
        assert((b + 1) * (b + 1) <= a * a) by (nonlinear_arith)
            requires b + 1 <= a,
        ;
    }
}

/// The floor square root of a perfect square.
pub proof fn lemma_sqrt_floor_square(a: nat)
    ensures
        sqrt_floor(a * a) == a,
{
    assert(a * a < (a + 1) * (a + 1)) by (nonlinear_arith);
    lemma_sqrt_floor_unique(a * a, a);
}

/// A root whose square stays under the bisection's input range fits in 63
/// bits, and hence in an `i64`.
pub proof fn lemma_root_fits(n: nat, r: nat)
    requires
        r * r <= n,
        n < 0x4000_0000_0000_0000_0000_0000_0000_0000,
    ensures
        r < 0x8000_0000_0000_0000,
{
    if r >= 0x8000_0000_0000_0000 {
        assert(0x8000_0000_0000_0000 * 0x8000_0000_0000_0000 <= r * r) by (nonlinear_arith)
            requires r >= 0x8000_0000_0000_0000,
        ;
    }
}

/// Floor square root, by bisection.
pub fn isqrt(n: u128) -> (r: u128)
    requires
        n < 0x4000_0000_0000_0000_0000_0000_0000_0000,
    ensures
        r == sqrt_floor(n as nat),
        r * r <= n < (r + 1) * (r + 1),
{
    let mut lo: u128 = 0;
    let mut hi: u128 = 0x8000_0000_0000_0000;
    proof {
        assert(0x8000_0000_0000_0000u128 * 0x8000_0000_0000_0000u128
            == 0x4000_0000_0000_0000_0000_0000_0000_0000u128);
    }
    while lo + 1 < hi
        invariant
            lo < hi <= 0x8000_0000_0000_0000,
            lo * lo <= n,
            n < hi * hi,
        decreases hi - lo,
    {
        let mid = lo + (hi - lo) / 2;
        proof {
            assert(mid * mid < 0x8000_0000_0000_0000u128 * 0x8000_0000_0000_0000u128)
                by (nonlinear_arith)
                requires mid < 0x8000_0000_0000_0000u128,
            ;
        }
        if mid * mid <= n {
            lo = mid;
        } else {
            hi = mid;
        }
    }
    proof {
        lemma_sqrt_floor_unique(n as nat, lo as nat);
    }
    lo
}

/// Addition of a displacement to a coordinate, saturating at the coordinate
/// range edge.
pub open spec fn clamp_coord(v: int) -> int {
    if v < -crate::COORD_LIMIT {
        -crate::COORD_LIMIT as int
    } else if v > crate::COORD_LIMIT {
        crate::COORD_LIMIT as int
    } else {
        v
    }
}

/// Saturating coordinate addition; the sum is formed exactly before clamping.
pub fn clamped_add(a: i64, d: i64) -> (r: i64)
    ensures
        r == clamp_coord(a + d),
        -crate::COORD_LIMIT <= r <= crate::COORD_LIMIT,
{
    let s: i128 = a as i128 + d as i128;
    if s < -(crate::COORD_LIMIT as i128) {
        -crate::COORD_LIMIT
    } else if s > crate::COORD_LIMIT as i128 {
        crate::COORD_LIMIT
    } else {
        s as i64
    }
}

/// Displacement travelled in `delta` milliseconds at `v` milli-units per
/// second, rounded toward zero.
pub open spec fn scale_by_time(v: int, delta: int) -> int {
    if v >= 0 {
        (v * delta) / 1000
    } else {
        -(((-v) * delta) / 1000)
    }
}

/// Computes `scale_by_time` on machine integers.
pub fn velocity_step(v: i64, delta: i64) -> (r: i64)
    requires
        -crate::VEL_LIMIT <= v <= crate::VEL_LIMIT,
        0 <= delta <= crate::DELTA_MAX,
    ensures
        r == scale_by_time(v as int, delta as int),
        -2_000_000_000_000 <= r <= 2_000_000_000_000,
{
    if v >= 0 {
        proof {
            assert(0 <= v * delta <= crate::VEL_LIMIT * crate::DELTA_MAX) by (nonlinear_arith)
                requires 0 <= v <= crate::VEL_LIMIT, 0 <= delta <= crate::DELTA_MAX,
            ;
        }
        (((v as u128) * (delta as u128)) / 1000) as i64
    } else {
        proof {
            assert(0 <= (-v) * delta <= crate::VEL_LIMIT * crate::DELTA_MAX) by (nonlinear_arith)
                requires 0 <= -v <= crate::VEL_LIMIT, 0 <= delta <= crate::DELTA_MAX,
            ;
        }
        let m = (((-v) as u128) * (delta as u128)) / 1000;
        -(m as i64)
    }
}

/// Position of a triangle wave with the given period at time `t`: it rises
/// from `min` to `max` over the first half of each period and falls back over
/// the second half.
pub open spec fn pulse_spec(min: int, max: int, t: int, period: int) -> int {
    let ph = t % period;
    let half = period / 2;
    let tri = if ph < half {
        ph
    } else {
        period - ph
    };
    min + ((max - min) * tri) / half
}

/// Samples the triangle wave; the result always stays within `[min, max]`.
pub fn pulse_value(min: i64, max: i64, t: i64, period: i64) -> (r: i64)
    requires
        min < max,
        max - min <= 1_000_000,
        0 < period <= 1_000_000,
        period % 2 == 0,
        0 <= t,
    ensures
        r == pulse_spec(min as int, max as int, t as int, period as int),
        min <= r <= max,
{
    let ph = t % period;
    let half = period / 2;
    let tri = if ph < half {
        ph
    } else {
        period - ph
    };
    proof {
        assert(0 <= ph < period);
        assert(half * 2 == period);
        assert(0 <= tri <= half);
        assert(0 <= (max - min) * tri <= (max - min) * half) by (nonlinear_arith)
            requires 0 < max - min, 0 <= tri <= half,
        ;
        assert((max - min) * half <= 1_000_000 * 500_000) by (nonlinear_arith)
            requires 0 < max - min <= 1_000_000, 0 <= half <= 500_000,
        ;
        assert(((max - min) * tri) / (half as int) <= ((max - min) * half) / (half as int))
            by (nonlinear_arith)
            requires 0 < half, (max - min) * tri <= (max - min) * half,
        ;
        assert(((max - min) * half) / (half as int) == max - min) by (nonlinear_arith)
            requires 0 < half,
        ;
        assert(0 <= ((max - min) * tri) / (half as int)) by (nonlinear_arith)
            requires 0 < half, 0 <= (max - min) * tri,
        ;
    }
    min + ((max - min) * tri) / half
}

} // verus!
