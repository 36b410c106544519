//! Fixed-point scalar helpers shared by the renderer model.
//!
//! Scalars that stand for fractional quantities are carried as integers
//! in a milli scale: `MILLI` is one whole unit. Angles are carried in
//! millidegrees, so a full turn is `FULL_TURN_MDEG`.

use vstd::prelude::*;

verus! {

use vstd::arithmetic::div_mod::{
    lemma_mod_multiples_vanish, lemma_div_is_ordered, lemma_div_by_multiple,
    lemma_div_pos_is_pos,
};

/// One whole unit in the fixed-point milli scale.
pub const MILLI: i64 = 1000;

/// A full turn, in millidegrees.
pub const FULL_TURN_MDEG: i64 = 360000;

/// Half a turn, in millidegrees.
pub const HALF_TURN_MDEG: i64 = 180000;

/// A quarter turn, in millidegrees.
pub const QUARTER_TURN_MDEG: i64 = 90000;

/// Largest angle magnitude, in millidegrees, that the wrapping helper accepts.
pub const ANGLE_LIMIT_MDEG: i64 = 1000000000000;

/// A number of whole turns large enough to shift any accepted angle into
/// the non-negative range.
pub const WRAP_SHIFT_MDEG: i64 = 360000 * 2777778;

/// An angle reduced to the canonical range `[0, FULL_TURN_MDEG)`.
/// In specifications `%` is the Euclidean remainder, so the result is
/// already canonical.
pub open spec fn spec_wrap_mdeg(a: int) -> int {
    a % (FULL_TURN_MDEG as int)
}

/// Reduces an angle in millidegrees into `[0, FULL_TURN_MDEG)`.
pub fn wrap_mdeg(a: i64) -> (r: i64)
    requires
        -ANGLE_LIMIT_MDEG <= a <= ANGLE_LIMIT_MDEG,
    ensures
        r == spec_wrap_mdeg(a as int),
        0 <= r < FULL_TURN_MDEG,
{
    let shifted: i64 = a + WRAP_SHIFT_MDEG;
    let reduced: u64 = (shifted as u64) % (FULL_TURN_MDEG as u64);
    proof {
        lemma_mod_multiples_vanish(2777778, a as int, FULL_TURN_MDEG as int);
    }
    reduced as i64
}

/// Magnitude bound on the dividend accepted by `div_trunc`.
pub const DIV_TRUNC_LIMIT: i64 = 4000000000000000000;

/// Division that truncates toward zero, the rounding the executable
/// code uses. In specifications `/` on `int` is Euclidean division, so
/// the negative case is spelled out.
pub open spec fn spec_div_trunc(a: int, d: int) -> int {
    if a >= 0 {
        a / d
    } else {
        -((-a) / d)
    }
}

/// Truncating division shrinks magnitudes: a dividend bounded by
/// `m * d` gives a quotient bounded by `m`.
pub proof fn lemma_div_trunc_bound(a: int, d: int, m: int)
    requires
        0 < d,
        0 <= m,
        -(m * d) <= a <= m * d,
    ensures
        -m <= spec_div_trunc(a, d) <= m,
{
    if a >= 0 {
        lemma_div_pos_is_pos(a, d);
        lemma_div_is_ordered(a, m * d, d);
        lemma_div_by_multiple(m, d);
    } else {
        lemma_div_pos_is_pos(-a, d);
        lemma_div_is_ordered(-a, m * d, d);
        lemma_div_by_multiple(m, d);
    }
}

/// Divides, truncating toward zero.
pub fn div_trunc(a: i64, d: i64) -> (r: i64)
    requires
        0 < d <= DIV_TRUNC_LIMIT,
        -DIV_TRUNC_LIMIT <= a <= DIV_TRUNC_LIMIT,
    ensures
        r == spec_div_trunc(a as int, d as int),
{
    if a >= 0 {
        ((a as u64) / (d as u64)) as i64
    } else {
        let q: u64 = ((-a) as u64) / (d as u64);
        -(q as i64)
    }
}

/// The smaller of two values.
pub open spec fn spec_min(x: int, y: int) -> int {
    if x <= y {
        x
    } else {
        y
    }
}

/// The value pushed into the closed interval `[lo, hi]`.
pub open spec fn spec_clamp(x: int, lo: int, hi: int) -> int {
    if x < lo {
        lo
    } else if x > hi {
        hi
    } else {
        x
    }
}

/// Clamps a value into the closed interval `[lo, hi]`.
pub fn clamp_i64(x: i64, lo: i64, hi: i64) -> (r: i64)
    requires
        lo <= hi,
    ensures
        r == spec_clamp(x as int, lo as int, hi as int),
{
    if x < lo {
        lo
    } else if x > hi {
        hi
    } else {
        x
    }
}

/// Numerator of the quadratic sine approximation on the first half turn.
pub open spec fn spec_sin_num(x: int) -> int {
    4000 * x * (HALF_TURN_MDEG - x)
}

/// Denominator of the quadratic sine approximation on the first half turn.
pub open spec fn spec_sin_den(x: int) -> int {
    40500000000 - x * (HALF_TURN_MDEG - x)
}

/// The sine on `[0, HALF_TURN_MDEG]` millidegrees, scaled by `MILLI`,
/// as the quadratic rational approximation
/// `4000 * x * (180000 - x) / (40500000000 - x * (180000 - x))`.
/// It is exact at 0, 90 and 180 degrees.
pub open spec fn spec_sin_half_turn(x: int) -> int {
    spec_sin_num(x) / spec_sin_den(x)
}

/// The sine of an angle in millidegrees, scaled by `MILLI`:
/// the angle is wrapped into a full turn, and the second half turn is
/// the negated mirror of the first.
pub open spec fn spec_sin_mdeg(a: int) -> int {
    let w = spec_wrap_mdeg(a);
    if w <= HALF_TURN_MDEG {
        spec_sin_half_turn(w)
    } else {
        -spec_sin_half_turn(w - HALF_TURN_MDEG)
    }
}

/// The product `x * (HALF_TURN_MDEG - x)` stays within `[0, 8100000000]`
/// on the first half turn.
proof fn lemma_sin_profile_bounds(x: int)
    by (nonlinear_arith)
    requires
        0 <= x <= HALF_TURN_MDEG,
    ensures
        0 <= x * (HALF_TURN_MDEG - x) <= 8100000000,
{
}

/// The half-turn sine approximation stays within `[0, MILLI]`.
pub proof fn lemma_sin_half_turn_range(x: int)
    requires
        0 <= x <= HALF_TURN_MDEG,
    ensures
        0 <= spec_sin_half_turn(x) <= MILLI,
{
    lemma_sin_profile_bounds(x);
    let q = x * (HALF_TURN_MDEG - x);
    assert(4000 * x * (180000 - x) == 4000 * q) by (nonlinear_arith)
        requires
            q == x * (180000 - x);
    assert(spec_sin_num(x) == 4000 * q);
    assert(0 <= 4000 * q <= 32400000000000) by (nonlinear_arith)
        requires
            0 <= q <= 8100000000;
    assert(spec_sin_den(x) == 40500000000 - q);
    lemma_div_pos_is_pos(4000 * q, 40500000000 - q);
    assert(4000 * q <= 1000 * (40500000000 - q)) by (nonlinear_arith)
        requires
            0 <= q <= 8100000000;
    lemma_div_is_ordered(4000 * q, 1000 * (40500000000 - q), 40500000000 - q);
    lemma_div_by_multiple(1000, 40500000000 - q);
}

/// The full-circle sine stays within `[-MILLI, MILLI]`.
pub proof fn lemma_sin_mdeg_range(a: int)
    ensures
        -MILLI <= spec_sin_mdeg(a) <= MILLI,
{
    let w = spec_wrap_mdeg(a);
    assert(0 <= w < FULL_TURN_MDEG);
    if w <= HALF_TURN_MDEG {
        lemma_sin_half_turn_range(w);
    } else {
        lemma_sin_half_turn_range(w - HALF_TURN_MDEG);
    }
}

/// Evaluates the half-turn sine approximation.
fn sin_half_turn(x: i64) -> (r: i64)
    requires
        0 <= x <= HALF_TURN_MDEG,
    ensures
        r == spec_sin_half_turn(x as int),
        0 <= r <= MILLI,
{
    proof {
        lemma_sin_profile_bounds(x as int);
        lemma_sin_half_turn_range(x as int);
    }
    let xu: u64 = x as u64;
    let q: u64 = xu * ((HALF_TURN_MDEG as u64) - xu);
    let num: u64 = 4000 * q;
    let den: u64 = 40500000000 - q;
    proof {
        let xi = x as int;
        let qi = xi * (HALF_TURN_MDEG - xi);
        assert(4000 * xi * (180000 - xi) == 4000 * qi) by (nonlinear_arith)
            requires
                qi == xi * (180000 - xi);
        assert(num == spec_sin_num(xi));
        assert(den == spec_sin_den(xi));
    }
    (num / den) as i64
}

/// The sine of an angle in millidegrees, scaled by `MILLI`.
pub fn sin_mdeg(a: i64) -> (r: i64)
    requires
        -ANGLE_LIMIT_MDEG <= a <= ANGLE_LIMIT_MDEG,
    ensures
        r == spec_sin_mdeg(a as int),
        -MILLI <= r <= MILLI,
{
    let w: i64 = wrap_mdeg(a);
    if w <= HALF_TURN_MDEG {
        sin_half_turn(w)
    } else {
        let s: i64 = sin_half_turn(w - HALF_TURN_MDEG);
        -s
    }
}

/// A 3-component integer vector. Depending on context the components
/// are whole world units or fixed-point milli values.
#[derive(Clone, Copy, Debug, PartialEq, Eq, Structural)]
pub struct Vec3 {
    pub x: i64,
    pub y: i64,
    pub z: i64,
}

impl Vec3 {
    /// All three components have magnitude at most `b`.
    pub open spec fn bounded(self, b: int) -> bool {
        &&& -b <= self.x <= b
        &&& -b <= self.y <= b
        &&& -b <= self.z <= b
    }

    /// The dot product, as an unbounded integer.
    pub open spec fn spec_dot(self, o: Vec3) -> int {
        self.x * o.x + self.y * o.y + self.z * o.z
    }

    /// `self` is the cross product `a x b`.
    pub open spec fn is_cross_of(self, a: Vec3, b: Vec3) -> bool {
        &&& self.x == a.y * b.z - a.z * b.y
        &&& self.y == a.z * b.x - a.x * b.z
        &&& self.z == a.x * b.y - a.y * b.x
    }
}

/// The product of values bounded by `a` and `b` is bounded by `a * b`.
pub proof fn lemma_abs_mul_le(x: int, y: int, a: int, b: int)
    by (nonlinear_arith)
    requires
        -a <= x <= a,
        -b <= y <= b,
        0 <= a,
        0 <= b,
    ensures
        -(a * b) <= x * y <= a * b,
{
}

/// Bound on the left argument of `dot` and on both arguments of `cross`.
pub const SMALL_VEC_BOUND: i64 = 4;

/// Bound on the right argument of `dot`.
pub const DOT_RIGHT_BOUND: i64 = 1000000000;

/// Dot product of a small direction vector with a bounded vector.
pub fn dot(a: Vec3, b: Vec3) -> (r: i64)
    requires
        a.bounded(SMALL_VEC_BOUND as int),
        b.bounded(DOT_RIGHT_BOUND as int),
    ensures
        r == a.spec_dot(b),
{
    proof {
        lemma_abs_mul_le(a.x as int, b.x as int, SMALL_VEC_BOUND as int, DOT_RIGHT_BOUND as int);
        lemma_abs_mul_le(a.y as int, b.y as int, SMALL_VEC_BOUND as int, DOT_RIGHT_BOUND as int);
        lemma_abs_mul_le(a.z as int, b.z as int, SMALL_VEC_BOUND as int, DOT_RIGHT_BOUND as int);
    }
    a.x * b.x + a.y * b.y + a.z * b.z
}

/// Cross product of two small direction vectors.
pub fn cross(a: Vec3, b: Vec3) -> (r: Vec3)
    requires
        a.bounded(SMALL_VEC_BOUND as int),
        b.bounded(SMALL_VEC_BOUND as int),
    ensures
        r.is_cross_of(a, b),
        r.bounded(2 * SMALL_VEC_BOUND * SMALL_VEC_BOUND),
{
    proof {
        lemma_abs_mul_le(a.y as int, b.z as int, SMALL_VEC_BOUND as int, SMALL_VEC_BOUND as int);
        lemma_abs_mul_le(a.z as int, b.y as int, SMALL_VEC_BOUND as int, SMALL_VEC_BOUND as int);
        lemma_abs_mul_le(a.z as int, b.x as int, SMALL_VEC_BOUND as int, SMALL_VEC_BOUND as int);
        lemma_abs_mul_le(a.x as int, b.z as int, SMALL_VEC_BOUND as int, SMALL_VEC_BOUND as int);
        lemma_abs_mul_le(a.x as int, b.y as int, SMALL_VEC_BOUND as int, SMALL_VEC_BOUND as int);
        lemma_abs_mul_le(a.y as int, b.x as int, SMALL_VEC_BOUND as int, SMALL_VEC_BOUND as int);
    }
    Vec3 {
        x: a.y * b.z - a.z * b.y,
        y: a.z * b.x - a.x * b.z,
        z: a.x * b.y - a.y * b.x,
    }
}

} // verus!
