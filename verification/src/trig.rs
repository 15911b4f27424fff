//! Integer trigonometry on the fixed-point grid.
//!
//! The interpreter needs a sine, a cosine, a planar angle and a square
//! root, all total and all in range.  Each is a documented rational
//! approximation evaluated exactly in integers:
//!
//! * `sine` uses the classical rational approximation of the half-turn
//!   sine, `16 a (H - a) / (5 H^2 - 4 a (H - a))` for `a` in `[0, H]`
//!   with `H` half a turn, mirrored with negative sign on the second
//!   half-turn;
//! * `cosine` is the sine a quarter-turn ahead;
//! * `atan2_units` reduces a vector to the first octant and evaluates
//!   the rational arctangent `z/4 + K z (1 - z)`, the result clamped to
//!   the quarter-turn and recomposed by quadrant; the convention is the
//!   angle of the vector measured anticlockwise from the positive
//!   x-axis, normalised into `[0, one turn)`;
//! * `isqrt` is the exact floor of the square root.

use vstd::prelude::*;
use crate::continuous::{Angle, SNFloat, SN_ONE, TURN};

verus! {

/// Half a turn, in angle units.
pub const HALF_TURN: i32 = 65536;

/// A quarter turn, in angle units.
pub const QUARTER_TURN: i32 = 32768;

/// The rational sine of `a` half-turn units into the first half-turn,
/// scaled to signed-normalised units.
pub open spec fn sine_half(a: int) -> int {
    (16 * a * (HALF_TURN - a) * SN_ONE) / (5 * HALF_TURN * HALF_TURN - 4 * a * (HALF_TURN - a))
}

/// The rational sine over a whole turn: the second half-turn mirrors the
/// first with negative sign.
pub open spec fn sn_sine(v: int) -> int {
    if v <= HALF_TURN {
        sine_half(v)
    } else {
        -sine_half(v - HALF_TURN)
    }
}

/// The rational cosine: the sine a quarter-turn ahead.
pub open spec fn sn_cosine(v: int) -> int {
    sn_sine((v + QUARTER_TURN) % (TURN as int))
}

proof fn lemma_sine_half_bounds(a: int)
    requires
        0 <= a <= HALF_TURN,
    ensures
        0 <= sine_half(a) <= SN_ONE,
{
    let h = HALF_TURN as int;
    let s = SN_ONE as int;
    let p = a * (h - a);
    assert(0 <= p && 4 * p <= h * h) by (nonlinear_arith)
        requires
            0 <= a <= h,
            p == a * (h - a),
            h == 65536,
    ;
    let num = 16 * p * s;
    let den = 5 * h * h - 4 * p;
    assert(den >= 4 * h * h);
    assert(num >= 0) by (nonlinear_arith)
        requires
            p >= 0,
            s > 0,
            num == 16 * p * s,
    ;
    assert(num <= s * den) by (nonlinear_arith)
        requires
            num == 16 * p * s,
            den == 5 * h * h - 4 * p,
            4 * p <= h * h,
            p >= 0,
            s == 65536,
            h == 65536,
    ;
    vstd::arithmetic::div_mod::lemma_div_pos_is_pos(num, den);
    vstd::arithmetic::div_mod::lemma_div_is_ordered(num, s * den, den);
    vstd::arithmetic::div_mod::lemma_div_multiples_vanish(s, den);
    assert(16 * a * (h - a) * s == num && 5 * h * h - 4 * a * (h - a) == den)
        by (nonlinear_arith)
        requires
            p == a * (h - a),
            num == 16 * p * s,
            den == 5 * h * h - 4 * p,
    ;
    assert(sine_half(a) == num / den);
}

/// How the rational sine decomposes into its numerator and denominator.
proof fn lemma_sine_half_shape(a: int, p: int)
    requires
        p == a * ((HALF_TURN as int) - a),
    ensures
        sine_half(a) == (16 * p * (SN_ONE as int)) / (5 * (HALF_TURN as int) * (HALF_TURN as int)
            - 4 * p),
{
    let h = HALF_TURN as int;
    let s = SN_ONE as int;
    assert(16 * a * (h - a) * s == 16 * p * s && 5 * h * h - 4 * a * (h - a) == 5 * h * h - 4 * p)
        by (nonlinear_arith)
        requires
            p == a * (h - a),
    ;
}

/// The rational sine stays in the signed-normalised range.
pub proof fn lemma_sn_sine_bounds(v: int)
    requires
        0 <= v < TURN,
    ensures
        -SN_ONE <= sn_sine(v) <= SN_ONE,
{
    if v <= HALF_TURN {
        lemma_sine_half_bounds(v);
    } else {
        lemma_sine_half_bounds(v - HALF_TURN);
    }
}

/// The sine of an angle, in signed-normalised units.
pub fn sine(a: Angle) -> (r: SNFloat)
    requires
        a.wf(),
    ensures
        r.value == sn_sine(a.value as int),
        r.wf(),
{
    let (neg, ha): (bool, i64) = if a.value <= HALF_TURN {
        (false, a.value as i64)
    } else {
        (true, (a.value - HALF_TURN) as i64)
    };
    proof {
        lemma_sine_half_bounds(ha as int);
    }
    assert(ha * (65536 - ha) <= 0x4000_0000 && ha * (65536 - ha) >= 0) by (nonlinear_arith)
        requires
            0 <= ha <= 65536,
    ;
    let p: i64 = ha * (HALF_TURN as i64 - ha);
    let num: i128 = 16 * (p as i128) * (SN_ONE as i128);
    let den: i128 = 5 * (HALF_TURN as i128) * (HALF_TURN as i128) - 4 * (p as i128);
    proof {
        lemma_sine_half_shape(ha as int, p as int);
    }
    let q: i64 = (num / den) as i64;
    if neg {
        SNFloat::new((-q) as i32)
    } else {
        SNFloat::new(q as i32)
    }
}

/// The cosine of an angle, in signed-normalised units.
pub fn cosine(a: Angle) -> (r: SNFloat)
    requires
        a.wf(),
    ensures
        r.value == sn_cosine(a.value as int),
        r.wf(),
{
    let shifted: Angle = Angle::new(a.value as i64 + QUARTER_TURN as i64);
    sine(shifted)
}

/// The rational arctangent of `t/SN_ONE` for `t` in `[0, SN_ONE]`, in
/// angle units.
pub open spec fn atan_unit(t: int) -> int {
    t / 4 + (5696 * t * (SN_ONE - t)) / 0x1_0000_0000
}

proof fn lemma_atan_unit_bounds(t: int)
    requires
        0 <= t <= SN_ONE,
    ensures
        0 <= atan_unit(t) <= 17808,
{
    let s = SN_ONE as int;
    let p = 5696 * t * (s - t);
    assert(0 <= p <= 5696 * (0x4000_0000 as int)) by (nonlinear_arith)
        requires
            0 <= t <= s,
            s == 65536,
            p == 5696 * t * (s - t),
    ;
    vstd::arithmetic::div_mod::lemma_div_pos_is_pos(p, 0x1_0000_0000 as int);
    vstd::arithmetic::div_mod::lemma_div_is_ordered(p, 5696 * (0x4000_0000 as int), 0x1_0000_0000 as int);
    assert(5696 * (0x4000_0000 as int) / (0x1_0000_0000 as int) == 1424);
}

/// A value clamped to the first quarter-turn.
pub open spec fn clamp_quarter(v: int) -> int {
    if v < 0 {
        0
    } else if v > QUARTER_TURN {
        QUARTER_TURN as int
    } else {
        v
    }
}

/// The first-quadrant angle of the vector `(ax, ay)` with both
/// components non-negative and not both zero.
pub open spec fn octant_angle(ay: int, ax: int) -> int {
    if ax >= ay {
        clamp_quarter(atan_unit(ay * SN_ONE / ax))
    } else {
        clamp_quarter(QUARTER_TURN - atan_unit(ax * SN_ONE / ay))
    }
}

/// The angle of the vector `(x, y)`, anticlockwise from the positive
/// x-axis, in `[0, one turn)`; the zero vector maps to angle zero.
pub open spec fn atan2_spec(y: int, x: int) -> int {
    let ax = if x >= 0 {
        x
    } else {
        -x
    };
    let ay = if y >= 0 {
        y
    } else {
        -y
    };
    if ax == 0 && ay == 0 {
        0
    } else {
        let base = octant_angle(ay, ax);
        if x >= 0 && y >= 0 {
            base
        } else if x < 0 && y >= 0 {
            HALF_TURN - base
        } else if x < 0 {
            HALF_TURN + base
        } else {
            (TURN - base) % (TURN as int)
        }
    }
}

/// The clamped first-quadrant arctangent, evaluated exactly.
fn atan_unit_exec(t: i64) -> (r: i32)
    requires
        0 <= t <= SN_ONE,
    ensures
        r == atan_unit(t as int),
        0 <= r <= 17808,
{
    proof {
        lemma_atan_unit_bounds(t as int);
    }
    assert(5696 * t * (65536 - t) >= 0 && 5696 * t * (65536 - t) <= 5696 * 0x4000_0000)
        by (nonlinear_arith)
        requires
            0 <= t <= 65536,
    ;
    let p: i64 = 5696 * t * (SN_ONE as i64 - t);
    (t / 4 + p / 0x1_0000_0000) as i32
}

fn clamp_quarter_exec(v: i32) -> (r: i32)
    ensures
        r == clamp_quarter(v as int),
{
    if v < 0 {
        0
    } else if v > QUARTER_TURN {
        QUARTER_TURN
    } else {
        v
    }
}

/// The angle of the vector `(x, y)` in angle units.
pub fn atan2_units(y: i64, x: i64) -> (r: i32)
    requires
        -0x100000 <= y <= 0x100000,
        -0x100000 <= x <= 0x100000,
    ensures
        r == atan2_spec(y as int, x as int),
        0 <= r < TURN,
{
    let ax: i64 = if x >= 0 {
        x
    } else {
        -x
    };
    let ay: i64 = if y >= 0 {
        y
    } else {
        -y
    };
    if ax == 0 && ay == 0 {
        return 0;
    }
    let base: i32 = if ax >= ay {
        proof {
            crate::continuous::lemma_scale_div_bound(ay as int, ax as int, SN_ONE as int);
            vstd::arithmetic::mul::lemma_mul_is_commutative(ay as int, SN_ONE as int);
        }
        let t: i64 = ay * (SN_ONE as i64) / ax;
        clamp_quarter_exec(atan_unit_exec(t))
    } else {
        proof {
            crate::continuous::lemma_scale_div_bound(ax as int, ay as int, SN_ONE as int);
            vstd::arithmetic::mul::lemma_mul_is_commutative(ax as int, SN_ONE as int);
        }
        let t: i64 = ax * (SN_ONE as i64) / ay;
        clamp_quarter_exec(QUARTER_TURN - atan_unit_exec(t))
    };
    if x >= 0 && y >= 0 {
        base
    } else if x < 0 && y >= 0 {
        HALF_TURN - base
    } else if x < 0 {
        HALF_TURN + base
    } else {
        (TURN - base) % TURN
    }
}

/// The floor of the square root, as a specification value.
pub open spec fn spec_isqrt(n: int) -> int
    decreases n,
{
    if n < 1 {
        0
    } else {
        let r = spec_isqrt(n - 1);
        if (r + 1) * (r + 1) <= n {
            r + 1
        } else {
            r
        }
    }
}

/// The specification square root brackets its argument.
pub proof fn lemma_spec_isqrt_bounds(n: int)
    requires
        0 <= n,
    ensures
        spec_isqrt(n) * spec_isqrt(n) <= n,
        (spec_isqrt(n) + 1) * (spec_isqrt(n) + 1) > n,
        spec_isqrt(n) >= 0,
    decreases n,
{
    if n >= 1 {
        lemma_spec_isqrt_bounds(n - 1);
        let r = spec_isqrt(n - 1);
        assert((r + 1) * (r + 1) > n - 1 ==> (r + 1) * (r + 1) >= n);
        assert((r + 2) * (r + 2) > (r + 1) * (r + 1)) by (nonlinear_arith)
            requires
                r >= 0,
        ;
    }
}

/// Only one value brackets a square root.
pub proof fn lemma_isqrt_unique(n: int, a: int, b: int)
    requires
        0 <= a,
        0 <= b,
        a * a <= n,
        (a + 1) * (a + 1) > n,
        b * b <= n,
        (b + 1) * (b + 1) > n,
    ensures
        a == b,
{
    if a < b {
        assert((a + 1) * (a + 1) <= b * b) by (nonlinear_arith)
            requires
                0 <= a,
                a + 1 <= b,
        ;
    }
    if b < a {
        assert((b + 1) * (b + 1) <= a * a) by (nonlinear_arith)
            requires
                0 <= b,
                b + 1 <= a,
        ;
    }
}

/// The exact floor of the square root.
pub fn isqrt(n: u64) -> (r: u64)
    ensures
        r * r <= n,
        (r + 1) * (r + 1) > n,
        r <= 0xFFFF_FFFF,
        r == spec_isqrt(n as int),
{
    if n == 0 {
        return 0;
    }
    let mut lo: u64 = 0;
    let mut hi: u64 = if n < 0xFFFF_FFFF {
        n
    } else {
        0xFFFF_FFFF
    };
    proof {
        assert((hi + 1) * (hi + 1) > n) by (nonlinear_arith)
            requires
                hi == if n < 0xFFFF_FFFF {
                    n as int
                } else {
                    0xFFFF_FFFF
                },
                n >= 1,
                n <= u64::MAX,
        ;
    }
    while lo < hi
        invariant
            lo <= hi <= 0xFFFF_FFFF,
            lo * lo <= n,
            (hi + 1) * (hi + 1) > n,
        decreases hi - lo,
    {
        let mid: u64 = lo + (hi - lo + 1) / 2;
        assert(mid * mid <= 0xFFFF_FFFF * 0xFFFF_FFFF) by (nonlinear_arith)
            requires
                0 <= mid <= 0xFFFF_FFFF,
        ;
        if mid * mid <= n {
            lo = mid;
        } else {
            hi = mid - 1;
        }
    }
    proof {
        lemma_spec_isqrt_bounds(n as int);
        lemma_isqrt_unique(n as int, lo as int, spec_isqrt(n as int));
    }
    lo
}

} // verus!
