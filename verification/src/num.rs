//! Fixed-point coordinate arithmetic.
//!
//! A coordinate is an `i64` counting micro-units (millionths of an output
//! unit).  Every operation clamps its mathematical result into
//! `[COORD_MIN, COORD_MAX]`, so all operations are total and every contract
//! states the exact clamped value.  Scale factors are rationals with an
//! `i128` numerator and positive denominator, which keeps even the largest
//! unit-conversion factors exact.

use vstd::prelude::*;

verus! {

/// Number of micro-units in one output unit.
pub const SCALE: i64 = 1_000_000;

/// Largest representable coordinate, in micro-units.
pub const COORD_MAX: i64 = 1_000_000_000_000_000_000;

/// Smallest representable coordinate, in micro-units.
pub const COORD_MIN: i64 = -1_000_000_000_000_000_000;

/// Largest magnitude allowed for a scale-factor numerator or denominator.
pub const FACTOR_MAX: i128 = 100_000_000_000_000_000_000;

/// Largest magnitude handled by the wide rounding division.
pub const WIDE_MAX: i128 = 100_000_000_000_000_000_000_000_000_000_000_000_000;

/// Largest denominator allowed for a scale factor.
pub const DEN_MAX: i128 = 10_000_000_000;

/// The mathematical result of an operation, forced into the representable
/// coordinate range.
pub open spec fn clamped(x: int) -> int {
    if x > COORD_MAX {
        COORD_MAX as int
    } else if x < COORD_MIN {
        COORD_MIN as int
    } else {
        x
    }
}

/// Division rounded to the nearest integer, ties away from zero, for a
/// positive divisor.
pub open spec fn rdiv(a: int, d: int) -> int
    recommends
        d > 0,
{
    if a >= 0 {
        (a + d / 2) / d
    } else {
        -((d / 2 - a) / d)
    }
}

/// Clamped sum of two coordinates.
pub open spec fn s_add(a: int, b: int) -> int {
    clamped(a + b)
}

/// Clamped difference of two coordinates.
pub open spec fn s_sub(a: int, b: int) -> int {
    clamped(a - b)
}

/// Clamped product of a coordinate with the rational `num / den`, rounded to
/// the nearest micro-unit.  The coordinate itself is clamped first, so the
/// definition is total.
pub open spec fn s_mul_frac(v: int, num: int, den: int) -> int
    recommends
        den > 0,
{
    clamped(rdiv(clamped(v) * num, den))
}

/// Clamped product of two micro-unit scale factors (their real product is
/// `a/SCALE * b/SCALE`, re-expressed in micro-units).
pub open spec fn s_compose(a: int, b: int) -> int {
    clamped(rdiv(clamped(a) * clamped(b), SCALE as int))
}

/// Smaller of two values.
pub open spec fn s_min(a: int, b: int) -> int {
    if a <= b {
        a
    } else {
        b
    }
}

/// Larger of two values.
pub open spec fn s_max(a: int, b: int) -> int {
    if a >= b {
        a
    } else {
        b
    }
}

/// Forces a wide intermediate result into the coordinate range.
pub fn clamp128(x: i128) -> (r: i64)
    ensures
        r as int == clamped(x as int),
{
    if x > COORD_MAX as i128 {
        COORD_MAX
    } else if x < COORD_MIN as i128 {
        COORD_MIN
    } else {
        x as i64
    }
}

/// Clamped coordinate addition.
pub fn cadd(a: i64, b: i64) -> (r: i64)
    ensures
        r as int == s_add(a as int, b as int),
{
    clamp128(a as i128 + b as i128)
}

/// Clamped coordinate subtraction.
pub fn csub(a: i64, b: i64) -> (r: i64)
    ensures
        r as int == s_sub(a as int, b as int),
{
    clamp128(a as i128 - b as i128)
}

/// Clamped negation.
pub fn cneg(a: i64) -> (r: i64)
    ensures
        r as int == clamped(-(a as int)),
{
    clamp128(-(a as i128))
}

/// Forces a coordinate into the representable range.
pub fn cclamp(a: i64) -> (r: i64)
    ensures
        r as int == clamped(a as int),
{
    if a > COORD_MAX {
        COORD_MAX
    } else if a < COORD_MIN {
        COORD_MIN
    } else {
        a
    }
}

/// Smaller of two coordinates.
pub fn cmin(a: i64, b: i64) -> (r: i64)
    ensures
        r as int == s_min(a as int, b as int),
{
    if a <= b {
        a
    } else {
        b
    }
}

/// Larger of two coordinates.
pub fn cmax(a: i64, b: i64) -> (r: i64)
    ensures
        r as int == s_max(a as int, b as int),
{
    if a >= b {
        a
    } else {
        b
    }
}

/// The quotient of a nonnegative value by a positive divisor is no larger
/// than the value.
proof fn lemma_div_shrinks(a: int, d: int)
    requires
        a >= 0,
        d > 0,
    ensures
        0 <= a / d <= a,
{
    assert(0 <= a / d <= a) by (nonlinear_arith)
        requires
            a >= 0,
            d > 0,
    ;
}

/// Division of a wide value by a positive divisor, rounded to the nearest
/// integer with ties away from zero.
pub fn rdiv128(a: i128, d: i128) -> (r: i128)
    requires
        0 < d <= FACTOR_MAX,
        -WIDE_MAX <= a <= WIDE_MAX,
    ensures
        r == rdiv(a as int, d as int),
{
    let du = d as u128;
    let h = du / 2;
    if a >= 0 {
        let q = (a as u128 + h) / du;
        proof {
            lemma_div_shrinks(a + h, d as int);
        }
        q as i128
    } else {
        let m = (-a) as u128;
        let q = (m + h) / du;
        proof {
            lemma_div_shrinks(m + h, d as int);
        }
        -(q as i128)
    }
}

/// Clamped multiplication of a coordinate by the rational `num / den`.
pub fn cmul_frac(v: i64, num: i128, den: i128) -> (r: i64)
    requires
        0 < den <= FACTOR_MAX,
        -FACTOR_MAX <= num <= FACTOR_MAX,
    ensures
        r as int == s_mul_frac(v as int, num as int, den as int),
{
    let vc = cclamp(v);
    proof {
        assert(-WIDE_MAX <= (vc as int) * (num as int) <= WIDE_MAX) by (nonlinear_arith)
            requires
                -(COORD_MAX as int) <= vc as int <= COORD_MAX as int,
                -FACTOR_MAX <= num as int <= FACTOR_MAX,
                WIDE_MAX == (COORD_MAX as int) * FACTOR_MAX,
        ;
    }
    let wide = vc as i128 * num;
    let q = rdiv128(wide, den);
    clamp128(q)
}

/// Clamped composition of two micro-unit scale factors.
pub fn ccompose(a: i64, b: i64) -> (r: i64)
    ensures
        r as int == s_compose(a as int, b as int),
{
    let ac = cclamp(a);
    let bc = cclamp(b);
    proof {
        assert(-WIDE_MAX <= (ac as int) * (bc as int) <= WIDE_MAX) by (nonlinear_arith)
            requires
                -(COORD_MAX as int) <= ac as int <= COORD_MAX as int,
                -(COORD_MAX as int) <= bc as int <= COORD_MAX as int,
                WIDE_MAX >= (COORD_MAX as int) * (COORD_MAX as int),
        ;
    }
    let wide = ac as i128 * bc as i128;
    let q = rdiv128(wide, SCALE as i128);
    clamp128(q)
}

/// Rounds a micro-unit coordinate to the nearest whole output unit, ties
/// away from zero.
pub fn cround_units(v: i64) -> (r: i64)
    ensures
        r as int == rdiv(v as int, SCALE as int),
{
    let q = rdiv128(v as i128, SCALE as i128);
    proof {
        if v >= 0 {
            lemma_div_shrinks(v + (SCALE as int) / 2, SCALE as int);
        } else {
            lemma_div_shrinks((SCALE as int) / 2 - v, SCALE as int);
        }
    }
    q as i64
}

/// Floor of the square root, defined by counting up; the executable code
/// uses binary search and is proved equal to this definition.
pub open spec fn sqrt_floor(n: int) -> int
    decreases n,
{
    if n <= 0 {
        0
    } else {
        let p = sqrt_floor(n - 1);
        if (p + 1) * (p + 1) <= n {
            p + 1
        } else {
            p
        }
    }
}

/// `sqrt_floor` really is the floor of the square root.
pub proof fn lemma_sqrt_floor_bounds(n: int)
    requires
        n >= 0,
    ensures
        sqrt_floor(n) >= 0,
        sqrt_floor(n) * sqrt_floor(n) <= n,
        (sqrt_floor(n) + 1) * (sqrt_floor(n) + 1) > n,
    decreases n,
{
    if n == 0 {
    } else {
        lemma_sqrt_floor_bounds(n - 1);
        let p = sqrt_floor(n - 1);
        if (p + 1) * (p + 1) <= n {
            assert((p + 2) * (p + 2) > n) by (nonlinear_arith)
                requires
                    p >= 0,
                    (p + 1) * (p + 1) > n - 1,
            ;
        }
    }
}

/// Any value whose square brackets `n` equals `sqrt_floor(n)`.
pub proof fn lemma_sqrt_floor_unique(n: int, r: int)
    requires
        n >= 0,
        r >= 0,
        r * r <= n,
        (r + 1) * (r + 1) > n,
    ensures
        r == sqrt_floor(n),
{
    lemma_sqrt_floor_bounds(n);
    let s = sqrt_floor(n);
    if r < s {
        assert((r + 1) * (r + 1) <= s * s) by (nonlinear_arith)
            requires
                0 <= r,
                r + 1 <= s,
        ;
    }
    if r > s {
        assert((s + 1) * (s + 1) <= r * r) by (nonlinear_arith)
            requires
                0 <= s,
                s + 1 <= r,
        ;
    }
}

/// Binary-search integer square root for wide values.
pub fn isqrt128(x: u128) -> (r: u64)
    requires
        x < 0x4000_0000_0000_0000_0000_0000_0000_0000,
    ensures
        r as int == sqrt_floor(x as int),
{
    let mut lo: u128 = 0;
    let mut hi: u128 = 0x8000_0000_0000_0000;
    proof {
        assert(hi * hi > x) by (nonlinear_arith)
            requires
                hi == 0x8000_0000_0000_0000u128,
                x < 0x4000_0000_0000_0000_0000_0000_0000_0000u128,
        ;
    }
    while hi - lo > 1
        invariant
            lo < hi,
            hi <= 0x8000_0000_0000_0000,
            lo * lo <= x as int,
            hi * hi > x as int,
        decreases hi - lo,
    {
        let mid = lo + (hi - lo) / 2;
        proof {
            assert(mid * mid < 0x8000_0000_0000_0000_0000_0000_0000_0000) by (nonlinear_arith)
                requires
                    mid < 0x8000_0000_0000_0000u128,
            ;
        }
        let sq = mid * mid;
        if sq <= x {
            lo = mid;
        } else {
            hi = mid;
        }
    }
    proof {
        lemma_sqrt_floor_unique(x as int, lo as int);
    }
    lo as u64
}

/// A scale factor, held as the exact rational `num / den`.
#[derive(Clone, Copy, Debug, PartialEq, Eq, Structural)]
pub struct Factor {
    pub num: i128,
    pub den: i128,
}

impl Factor {
    /// A factor is usable when its denominator is positive and both parts
    /// stay inside the ranges the arithmetic primitives accept.
    pub open spec fn valid(self) -> bool {
        0 < self.den <= DEN_MAX && -FACTOR_MAX <= self.num <= FACTOR_MAX
    }

    /// The real value of `self` is no larger than the real value of `other`.
    pub open spec fn le(self, other: Factor) -> bool {
        self.num * other.den <= other.num * self.den
    }

    /// The smaller of two factors, by real value.
    pub open spec fn spec_min(self, other: Factor) -> Factor {
        if self.le(other) {
            self
        } else {
            other
        }
    }

    /// Wraps a micro-unit scale value as an exact rational.
    pub fn from_micro(f: i64) -> (r: Factor)
        ensures
            r.num == f as int,
            r.den == SCALE as int,
            r.valid(),
    {
        Factor { num: f as i128, den: SCALE as i128 }
    }

    /// The identity scale.
    pub fn one() -> (r: Factor)
        ensures
            r.num == 1,
            r.den == 1,
            r.valid(),
    {
        Factor { num: 1, den: 1 }
    }

    /// The smaller of two factors, by real value.
    pub fn min(self, other: Factor) -> (r: Factor)
        requires
            self.valid(),
            other.valid(),
        ensures
            r == self.spec_min(other),
            r.valid(),
    {
        proof {
            assert(-WIDE_MAX <= self.num * other.den <= WIDE_MAX) by (nonlinear_arith)
                requires
                    -FACTOR_MAX <= self.num <= FACTOR_MAX,
                    0 < other.den <= DEN_MAX,
                    WIDE_MAX >= FACTOR_MAX * DEN_MAX,
            ;
            assert(-WIDE_MAX <= other.num * self.den <= WIDE_MAX) by (nonlinear_arith)
                requires
                    -FACTOR_MAX <= other.num <= FACTOR_MAX,
                    0 < self.den <= DEN_MAX,
                    WIDE_MAX >= FACTOR_MAX * DEN_MAX,
            ;
        }
        if self.num * other.den <= other.num * self.den {
            self
        } else {
            other
        }
    }
}

/// Clamped multiplication of a coordinate by a factor.
pub fn cmul(v: i64, f: Factor) -> (r: i64)
    requires
        f.valid(),
    ensures
        r as int == s_mul_frac(v as int, f.num as int, f.den as int),
{
    cmul_frac(v, f.num, f.den)
}

/// Floor of the Euclidean distance between two coordinate pairs, in
/// micro-units.
pub open spec fn s_dist(px: int, py: int, qx: int, qy: int) -> int {
    sqrt_floor((px - qx) * (px - qx) + (py - qy) * (py - qy))
}

/// Euclidean distance between two in-range points, rounded down to a whole
/// number of micro-units.
pub fn cdist(px: i64, py: i64, qx: i64, qy: i64) -> (r: i64)
    requires
        COORD_MIN <= px <= COORD_MAX,
        COORD_MIN <= py <= COORD_MAX,
        COORD_MIN <= qx <= COORD_MAX,
        COORD_MIN <= qy <= COORD_MAX,
    ensures
        r as int == s_dist(px as int, py as int, qx as int, qy as int),
{
    let dx = px as i128 - qx as i128;
    let dy = py as i128 - qy as i128;
    proof {
        assert(0 <= dx * dx <= 4_000_000_000_000_000_000_000_000_000_000_000_000int)
            by (nonlinear_arith)
            requires
                -2_000_000_000_000_000_000 <= dx as int <= 2_000_000_000_000_000_000,
        ;
        assert(0 <= dy * dy <= 4_000_000_000_000_000_000_000_000_000_000_000_000int)
            by (nonlinear_arith)
            requires
                -2_000_000_000_000_000_000 <= dy as int <= 2_000_000_000_000_000_000,
        ;
    }
    let sq = dx * dx + dy * dy;
    let r = isqrt128(sq as u128);
    proof {
        lemma_sqrt_floor_bounds(sq as int);
        let s = sqrt_floor(sq as int);
        assert(s <= 3_000_000_000_000_000_000int) by (nonlinear_arith)
            requires
                s >= 0,
                s * s <= 8_000_000_000_000_000_000_000_000_000_000_000_000int,
        ;
    }
    r as i64
}

} // verus!
