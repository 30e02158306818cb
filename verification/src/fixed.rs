//! Fixed-point scalars, vectors and angles used by every frame type.
//!
//! Angles are stored in binary fractions of a full turn
//! (`ANGLE_FULL_TURN` units per turn) and trigonometric values are scaled
//! by `TRIG_SCALE`, so all frame state stays in exact integer arithmetic
//! and frame advancement is bit-for-bit deterministic.

use vstd::prelude::*;

verus! {

/// Angle units in one full turn.
pub const ANGLE_FULL_TURN: i64 = 1048576;

/// Angle units in half a turn.
pub const ANGLE_HALF_TURN: i64 = 524288;

/// Angle units in a quarter turn.
pub const ANGLE_QUARTER_TURN: i64 = 262144;

/// Scale of trigonometric results: `sin_fp`/`cos_fp` return values in
/// `[-TRIG_SCALE, TRIG_SCALE]`, standing for `[-1, 1]`.
pub const TRIG_SCALE: i64 = 65536;

/// Elevation band: lowest admissible elevation, 5% of a half turn above
/// the downward pole.
pub const ELEVATION_MIN: i64 = 26214;

/// Elevation band: highest admissible elevation, 5% of a half turn below
/// the upward pole.
pub const ELEVATION_MAX: i64 = 498074;

/// A two-component fixed-point vector (movement and view deltas).
#[derive(Clone, Copy, PartialEq, Eq, Structural, Debug)]
pub struct Vec2 {
    pub x: i64,
    pub y: i64,
}

/// A three-component fixed-point vector (positions and directions).
#[derive(Clone, Copy, PartialEq, Eq, Structural, Debug)]
pub struct Vec3 {
    pub x: i64,
    pub y: i64,
    pub z: i64,
}

/// Mathematical value of an `i64` addition saturated at the type bounds.
pub open spec fn sat_add_spec(a: int, b: int) -> int {
    if a + b > i64::MAX {
        i64::MAX as int
    } else if a + b < i64::MIN {
        i64::MIN as int
    } else {
        a + b
    }
}

/// Addition that saturates at the `i64` bounds instead of overflowing.
pub fn sat_add(a: i64, b: i64) -> (r: i64)
    ensures
        r as int == sat_add_spec(a as int, b as int),
{
    if b > 0 && a > i64::MAX - b {
        i64::MAX
    } else if b < 0 && a < i64::MIN - b {
        i64::MIN
    } else {
        a + b
    }
}

/// Mathematical value of an `i64` negation saturated at the upper bound.
pub open spec fn sat_neg_spec(a: int) -> int {
    if -a > i64::MAX {
        i64::MAX as int
    } else {
        -a
    }
}

/// Negation that saturates instead of overflowing on the smallest value.
pub fn sat_neg(a: i64) -> (r: i64)
    ensures
        r as int == sat_neg_spec(a as int),
{
    if a == i64::MIN {
        i64::MAX
    } else {
        -a
    }
}

/// Mathematical value of `clamp_i64`.
pub open spec fn clamp_spec(v: int, lo: int, hi: int) -> int {
    if v < lo {
        lo
    } else if v > hi {
        hi
    } else {
        v
    }
}

/// Clamps `v` into `[lo, hi]`.
pub fn clamp_i64(v: i64, lo: i64, hi: i64) -> (r: i64)
    requires
        lo <= hi,
    ensures
        r as int == clamp_spec(v as int, lo as int, hi as int),
        lo <= r <= hi,
{
    if v < lo {
        lo
    } else if v > hi {
        hi
    } else {
        v
    }
}

/// An angle reduced into `[0, ANGLE_FULL_TURN)`.
pub open spec fn wrap_angle_spec(a: int) -> int {
    a % (ANGLE_FULL_TURN as int)
}

/// Reduces any angle into `[0, ANGLE_FULL_TURN)`, preserving its value
/// modulo one full turn.
pub fn wrap_angle(a: i64) -> (r: i64)
    ensures
        r as int == wrap_angle_spec(a as int),
        0 <= r < ANGLE_FULL_TURN,
{
    let r = a.checked_rem_euclid(ANGLE_FULL_TURN).unwrap();
    assert(0 <= (a as int) % (ANGLE_FULL_TURN as int) < ANGLE_FULL_TURN);
    r
}

/// Dividing by a positive integer moves a value toward zero and never
/// past it.
pub proof fn lemma_div_shrinks(x: int, d: int)
    requires
        d >= 1,
    ensures
        x >= 0 ==> 0 <= x / d <= x,
        x < 0 ==> x <= x / d <= 0,
{
    vstd::arithmetic::div_mod::lemma_fundamental_div_mod(x, d);
    vstd::arithmetic::div_mod::lemma_mod_bound(x, d);
    let q = x / d;
    let r = x % d;
    if x >= 0 {
        vstd::arithmetic::div_mod::lemma_div_pos_is_pos(x, d);
        assert(q <= d * q) by (nonlinear_arith)
            requires
                q >= 0,
                d >= 1,
        ;
    } else {
        if q >= 0 {
            assert(d * q >= 0) by (nonlinear_arith)
                requires
                    q >= 0,
                    d >= 1,
            ;
            assert(false);
        }
        assert(q * (d - 1) <= -(d - 1)) by (nonlinear_arith)
            requires
                q <= -1,
                d >= 1,
        ;
        assert(x - q == q * (d - 1) + r) by (nonlinear_arith)
            requires
                x == d * q + r,
        ;
    }
}

/// Quadratic approximation of sine on the first half turn, scaled by
/// `TRIG_SCALE`: zero at both ends, `TRIG_SCALE` at the quarter turn.
pub open spec fn sin_half_spec(x: int) -> int {
    (4 * TRIG_SCALE * x * (ANGLE_HALF_TURN - x)) / (ANGLE_HALF_TURN * ANGLE_HALF_TURN)
}

/// Fixed-point sine of an angle in `[0, ANGLE_FULL_TURN)`: the first half
/// turn is non-negative, the second is its odd reflection.
pub open spec fn sin_fp_spec(x: int) -> int {
    if x < ANGLE_HALF_TURN {
        sin_half_spec(x)
    } else {
        -sin_half_spec(x - ANGLE_HALF_TURN)
    }
}

/// Fixed-point cosine: sine shifted by a quarter turn.
pub open spec fn cos_fp_spec(x: int) -> int {
    if x + ANGLE_QUARTER_TURN < ANGLE_FULL_TURN {
        sin_fp_spec(x + ANGLE_QUARTER_TURN)
    } else {
        sin_fp_spec(x + ANGLE_QUARTER_TURN - ANGLE_FULL_TURN)
    }
}

proof fn lemma_sin_half_bounds(x: int)
    requires
        0 <= x <= ANGLE_HALF_TURN,
    ensures
        0 <= sin_half_spec(x) <= TRIG_SCALE,
{
    let h = ANGLE_HALF_TURN as int;
    let s = TRIG_SCALE as int;
    assert(0 <= x * (h - x) && 4 * (x * (h - x)) <= h * h) by (nonlinear_arith)
        requires
            0 <= x <= h,
    ;
    assert(4 * s * x * (h - x) == s * (4 * (x * (h - x)))) by (nonlinear_arith);
    assert(s * (4 * (x * (h - x))) <= s * (h * h)) by (nonlinear_arith)
        requires
            4 * (x * (h - x)) <= h * h,
            s >= 0,
    ;
    assert(0 <= 4 * s * x * (h - x));
    vstd::arithmetic::div_mod::lemma_div_is_ordered(4 * s * x * (h - x), s * (h * h), h * h);
    vstd::arithmetic::div_mod::lemma_div_multiples_vanish(s, h * h);
    assert(s * (h * h) == (h * h) * s) by (nonlinear_arith);
    vstd::arithmetic::div_mod::lemma_div_pos_is_pos(4 * s * x * (h - x), h * h);
}

/// Fixed-point sine. The result stands for `sin` of `x` full-turn units,
/// scaled by `TRIG_SCALE`.
pub fn sin_fp(x: i64) -> (r: i64)
    requires
        0 <= x < ANGLE_FULL_TURN,
    ensures
        r as int == sin_fp_spec(x as int),
        -TRIG_SCALE <= r <= TRIG_SCALE,
{
    let (pos, xh) = if x < ANGLE_HALF_TURN {
        (true, x)
    } else {
        (false, x - ANGLE_HALF_TURN)
    };
    assert(0 <= xh <= ANGLE_HALF_TURN);
    let h = ANGLE_HALF_TURN;
    assert(0 <= xh * (h - xh) <= h * h) by (nonlinear_arith)
        requires
            0 <= xh <= h,
            h == ANGLE_HALF_TURN,
    ;
    let p = xh * (h - xh);
    let num = 4 * TRIG_SCALE * p;
    assert(num == 4 * TRIG_SCALE * (xh as int) * (h - xh)) by (nonlinear_arith)
        requires
            p == xh * (h - xh),
            num == 4 * TRIG_SCALE * p,
    ;
    let s = num.checked_div_euclid(h * h).unwrap();
    proof {
        lemma_sin_half_bounds(xh as int);
    }
    if pos {
        s
    } else {
        -s
    }
}

/// Fixed-point cosine of an angle in `[0, ANGLE_FULL_TURN)`.
pub fn cos_fp(x: i64) -> (r: i64)
    requires
        0 <= x < ANGLE_FULL_TURN,
    ensures
        r as int == cos_fp_spec(x as int),
        -TRIG_SCALE <= r <= TRIG_SCALE,
{
    let y = if x + ANGLE_QUARTER_TURN < ANGLE_FULL_TURN {
        x + ANGLE_QUARTER_TURN
    } else {
        x + ANGLE_QUARTER_TURN - ANGLE_FULL_TURN
    };
    sin_fp(y)
}

} // verus!
