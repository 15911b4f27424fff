//! Continuous value types in fixed-point representation.
//!
//! A real number is stored as an integer count of fixed-point units:
//! a signed-normalised scalar in `[-1, 1]` counts `1/65536`ths, a
//! unit-range scalar in `[0, 1]` and an angle in `[0, one turn)` count
//! `1/131072`ths.  The two scales line up so that every affine remap
//! between the three types is an exact integer operation, which makes
//! the range invariants and the conversion round trips provable.

use vstd::prelude::*;

verus! {

/// One, in signed-normalised units.
pub const SN_ONE: i32 = 65536;

/// One, in unit-range units.
pub const UN_ONE: i32 = 131072;

/// One full turn, in angle units.
pub const TURN: i32 = 131072;

/// The unit-range value that stands for a signed-normalised value.
pub open spec fn signed_to_unsigned(v: int) -> int {
    v + SN_ONE
}

/// The signed-normalised value that stands for a unit-range value.
pub open spec fn unsigned_to_signed(u: int) -> int {
    u - SN_ONE
}

/// Wrap a sum back into the signed-normalised range, keeping the sign and
/// the fractional part of the magnitude.
pub open spec fn sn_circular(t: int) -> int {
    if t >= 0 {
        t % (SN_ONE as int)
    } else {
        -((-t) % (SN_ONE as int))
    }
}

/// Bounds of the remap `a * u / b` for `0 <= a <= b`.
pub proof fn lemma_scale_div_bound(a: int, b: int, u: int)
    requires
        0 <= a <= b,
        0 < b,
        0 <= u,
    ensures
        0 <= (a * u) / b <= u,
{
    vstd::arithmetic::mul::lemma_mul_inequality(a, b, u);
    vstd::arithmetic::div_mod::lemma_div_is_ordered(a * u, b * u, b);
    vstd::arithmetic::div_mod::lemma_div_pos_is_pos(a * u, b);
    vstd::arithmetic::mul::lemma_mul_nonnegative(a, u);
    vstd::arithmetic::div_mod::lemma_div_multiples_vanish(u, b);
}

/// Affine remap of `value` from the range `[from_min, from_max]` onto
/// `[to_min, to_max]`, rounding down.
pub fn map_range(value: i32, from_min: i32, from_max: i32, to_min: i32, to_max: i32) -> (r: i32)
    requires
        from_min < from_max,
        from_min <= value <= from_max,
        to_min < to_max,
        from_max - from_min <= 0x4000_0000,
        to_max - to_min <= 0x4000_0000,
    ensures
        r == to_min + (value - from_min) * (to_max - to_min) / (from_max - from_min),
        to_min <= r <= to_max,
{
    assert((value - from_min) * (to_max - to_min) <= 0x4000_0000 * 0x4000_0000) by (nonlinear_arith)
        requires
            0 <= value - from_min <= 0x4000_0000,
            0 < to_max - to_min <= 0x4000_0000,
    ;
    assert((value - from_min) * (to_max - to_min) >= 0) by (nonlinear_arith)
        requires
            0 <= value - from_min,
            0 < to_max - to_min,
    ;
    let num: i64 = (value as i64 - from_min as i64) * (to_max as i64 - to_min as i64);
    let den: i64 = from_max as i64 - from_min as i64;
    proof {
        lemma_scale_div_bound(
            value - from_min,
            from_max - from_min,
            to_max - to_min,
        );
    }
    let scaled: i64 = num / den;
    to_min + (scaled as i32)
}

/// A scalar in the unit range `[0, 1]`, stored as `1/131072`ths.
#[derive(Clone, Copy, PartialEq, Eq, Structural, Debug)]
pub struct UNFloat {
    pub value: i32,
}

impl UNFloat {
    pub open spec fn wf(self) -> bool {
        0 <= self.value <= UN_ONE
    }

    /// Construction from a value already known to be in range.
    pub fn new(value: i32) -> (r: UNFloat)
        requires
            0 <= value <= UN_ONE,
        ensures
            r.value == value,
            r.wf(),
    {
        UNFloat { value }
    }

    pub fn into_inner(self) -> (r: i32)
        ensures
            r == self.value,
    {
        self.value
    }

    /// Remap from an arbitrary closed integer range onto the unit range.
    pub fn new_from_range(value: i32, min: i32, max: i32) -> (r: UNFloat)
        requires
            min < max,
            min <= value <= max,
            max - min <= 0x4000_0000,
        ensures
            r.value == (value - min) * (UN_ONE as int) / (max - min),
            r.wf(),
    {
        let v: i32 = map_range(value, min, max, 0, UN_ONE);
        UNFloat::new(v)
    }

    /// The angle that sweeps the same fraction of a turn; a full unit wraps
    /// back to zero.
    pub fn to_angle(self) -> (r: Angle)
        requires
            self.wf(),
        ensures
            r.value == (self.value as int) % (TURN as int),
            r.wf(),
    {
        Angle { value: self.value % TURN }
    }

    /// The same point of the range, in signed-normalised units.
    pub fn to_signed(self) -> (r: SNFloat)
        requires
            self.wf(),
        ensures
            r.value == unsigned_to_signed(self.value as int),
            r.wf(),
    {
        SNFloat { value: self.value - SN_ONE }
    }

    /// Product of two unit-range scalars, rounded down.
    pub fn multiply(self, other: UNFloat) -> (r: UNFloat)
        requires
            self.wf(),
            other.wf(),
        ensures
            r.value == self.value * other.value / (UN_ONE as int),
            r.wf(),
    {
        proof {
            lemma_scale_div_bound(self.value as int, UN_ONE as int, other.value as int);
            vstd::arithmetic::mul::lemma_mul_is_commutative(self.value as int, other.value as int);
        }
        let p: i64 = self.value as i64 * other.value as i64;
        UNFloat::new((p / (UN_ONE as i64)) as i32)
    }

    /// Sum wrapped around the unit range: one whole unit falls away.
    pub fn circular_add(self, other: UNFloat) -> (r: UNFloat)
        requires
            self.wf(),
            other.wf(),
        ensures
            r.value == (self.value + other.value) % (UN_ONE as int),
            r.wf(),
    {
        UNFloat::new((self.value + other.value) % UN_ONE)
    }

    /// The complement within the unit range.
    pub fn invert(self) -> (r: UNFloat)
        requires
            self.wf(),
        ensures
            r.value == UN_ONE - self.value,
            r.wf(),
    {
        UNFloat::new(UN_ONE - self.value)
    }

    /// Split the unit range into `n` equal bands and stretch each band back
    /// over the whole range; zero bands collapse to zero.
    pub fn subdivide(self, n: crate::discrete::Nibble) -> (r: UNFloat)
        requires
            self.wf(),
            n.wf(),
        ensures
            r.value == (self.value * n.value) % (UN_ONE as int),
            r.wf(),
    {
        assert(self.value * n.value <= 131072 * 15 && self.value * n.value >= 0) by (nonlinear_arith)
            requires
                0 <= self.value <= 131072,
                0 <= n.value < 16,
        ;
        let p: i64 = self.value as i64 * n.value as i64;
        UNFloat::new((p % (UN_ONE as i64)) as i32)
    }
}

/// A scalar in the signed-normalised range `[-1, 1]`, stored as
/// `1/65536`ths.
#[derive(Clone, Copy, PartialEq, Eq, Structural, Debug)]
pub struct SNFloat {
    pub value: i32,
}

impl SNFloat {
    pub open spec fn wf(self) -> bool {
        -SN_ONE <= self.value <= SN_ONE
    }

    /// Construction from a value already known to be in range.
    pub fn new(value: i32) -> (r: SNFloat)
        requires
            -SN_ONE <= value <= SN_ONE,
        ensures
            r.value == value,
            r.wf(),
    {
        SNFloat { value }
    }

    pub fn into_inner(self) -> (r: i32)
        ensures
            r == self.value,
    {
        self.value
    }

    /// Remap from an arbitrary closed integer range onto the signed range.
    pub fn new_from_range(value: i32, min: i32, max: i32) -> (r: SNFloat)
        requires
            min < max,
            min <= value <= max,
            max - min <= 0x4000_0000,
        ensures
            r.value == -SN_ONE + (value - min) * (2 * SN_ONE as int) / (max - min),
            r.wf(),
    {
        let v: i32 = map_range(value, min, max, -SN_ONE, SN_ONE);
        SNFloat::new(v)
    }

    /// The angle that sweeps the same fraction of a turn; the upper end of
    /// the range wraps back to zero.
    pub fn to_angle(self) -> (r: Angle)
        requires
            self.wf(),
        ensures
            r.value == signed_to_unsigned(self.value as int) % (TURN as int),
            r.wf(),
    {
        Angle { value: (self.value + SN_ONE) % TURN }
    }

    /// The same point of the range, in unit-range units.
    pub fn to_unsigned(self) -> (r: UNFloat)
        requires
            self.wf(),
        ensures
            r.value == signed_to_unsigned(self.value as int),
            r.wf(),
    {
        UNFloat { value: self.value + SN_ONE }
    }

    /// Magnitude.
    pub fn abs(self) -> (r: SNFloat)
        requires
            self.wf(),
        ensures
            r.value == if self.value >= 0 {
                self.value as int
            } else {
                -self.value as int
            },
            r.wf(),
    {
        if self.value >= 0 {
            self
        } else {
            SNFloat::new(-self.value)
        }
    }

    /// Negation.
    pub fn invert(self) -> (r: SNFloat)
        requires
            self.wf(),
        ensures
            r.value == -self.value as int,
            r.wf(),
    {
        SNFloat::new(-self.value)
    }

    /// Product of two signed-normalised scalars, the magnitude rounded down.
    pub fn multiply(self, other: SNFloat) -> (r: SNFloat)
        requires
            self.wf(),
            other.wf(),
        ensures
            r.value == crate::discrete::truncated_div(
                self.value * other.value,
                SN_ONE as int,
            ),
            r.wf(),
    {
        let a: i64 = self.value as i64;
        let b: i64 = other.value as i64;
        let na: i64 = if a >= 0 {
            a
        } else {
            -a
        };
        let nb: i64 = if b >= 0 {
            b
        } else {
            -b
        };
        proof {
            lemma_scale_div_bound(na as int, SN_ONE as int, nb as int);
            vstd::arithmetic::mul::lemma_mul_is_commutative(na as int, nb as int);
            vstd::arithmetic::mul::lemma_mul_unary_negation(a as int, b as int);
            vstd::arithmetic::mul::lemma_mul_unary_negation(b as int, a as int);
            vstd::arithmetic::mul::lemma_mul_cancels_negatives(a as int, b as int);
        }
        let q: i64 = (na * nb) / (SN_ONE as i64);
        if (self.value >= 0) == (other.value >= 0) {
            SNFloat::new(q as i32)
        } else {
            SNFloat::new((-q) as i32)
        }
    }

    /// Sum wrapped back into the signed range, keeping the sign and the
    /// fractional part of the magnitude.
    pub fn circular_add(self, other: SNFloat) -> (r: SNFloat)
        requires
            self.wf(),
            other.wf(),
        ensures
            r.value == sn_circular(self.value + other.value),
            r.wf(),
    {
        self.circular_add_value(other.value)
    }

    /// As `circular_add`, for a raw count of signed-normalised units.
    pub fn circular_add_value(self, other: i32) -> (r: SNFloat)
        requires
            self.wf(),
        ensures
            r.value == sn_circular(self.value + other),
            r.wf(),
    {
        let t: i64 = self.value as i64 + other as i64;
        if t >= 0 {
            SNFloat::new((t % (SN_ONE as i64)) as i32)
        } else {
            SNFloat::new((-((-t) % (SN_ONE as i64))) as i32)
        }
    }

    /// Split the signed range into `n` equal bands and stretch each band
    /// back over the whole range, keeping the sign; zero bands collapse to
    /// zero.
    pub fn subdivide(self, n: crate::discrete::Nibble) -> (r: SNFloat)
        requires
            self.wf(),
            n.wf(),
        ensures
            r.value == if self.value >= 0 {
                (self.value * n.value) % (SN_ONE as int)
            } else {
                -(((-self.value) * n.value) % (SN_ONE as int))
            },
            r.wf(),
    {
        let m: i64 = if self.value >= 0 {
            self.value as i64
        } else {
            -(self.value as i64)
        };
        assert(m * n.value <= 65536 * 15 && m * n.value >= 0) by (nonlinear_arith)
            requires
                0 <= m <= 65536,
                0 <= n.value < 16,
        ;
        let p: i64 = m * n.value as i64;
        let q: i64 = p % (SN_ONE as i64);
        if self.value >= 0 {
            SNFloat::new(q as i32)
        } else {
            SNFloat::new((-q) as i32)
        }
    }
}

/// An angle in `[0, one turn)`, stored as `1/131072`ths of a turn and
/// normalised by modulus at construction.
#[derive(Clone, Copy, PartialEq, Eq, Structural, Debug)]
pub struct Angle {
    pub value: i32,
}

impl Angle {
    pub open spec fn wf(self) -> bool {
        0 <= self.value < TURN
    }

    /// Construction from an arbitrary count of angle units, normalised into
    /// `[0, one turn)`.
    pub fn new(value: i64) -> (r: Angle)
        requires
            value > i64::MIN,
        ensures
            r.value == (value as int) % (TURN as int),
            r.wf(),
    {
        if value >= 0 {
            Angle { value: (value % (TURN as i64)) as i32 }
        } else {
            let m: i64 = (-value) % (TURN as i64);
            proof {
                let v = value as int;
                let t = TURN as int;
                let q = (-v) / t;
                vstd::arithmetic::div_mod::lemma_fundamental_div_mod(-v, t);
                if m == 0 {
                    vstd::arithmetic::div_mod::lemma_fundamental_div_mod_converse_mod(
                        v,
                        t,
                        -q,
                        0,
                    );
                } else {
                    vstd::arithmetic::div_mod::lemma_fundamental_div_mod_converse_mod(
                        v,
                        t,
                        -q - 1,
                        t - m,
                    );
                }
            }
            if m == 0 {
                Angle { value: 0 }
            } else {
                Angle { value: (TURN as i64 - m) as i32 }
            }
        }
    }

    pub fn into_inner(self) -> (r: i32)
        ensures
            r == self.value,
    {
        self.value
    }

    /// Remap from an arbitrary closed integer range onto `[0, one turn)`.
    pub fn new_from_range(value: i32, min: i32, max: i32) -> (r: Angle)
        requires
            min < max,
            min <= value <= max,
            max - min <= 0x4000_0000,
        ensures
            r.value == ((value - min) * (TURN as int) / (max - min)) % (TURN as int),
            r.wf(),
    {
        let v: i32 = map_range(value, min, max, 0, TURN);
        Angle { value: v % TURN }
    }

    /// The point of the signed range that the angle's fraction of a turn
    /// stands at.
    pub fn to_signed(self) -> (r: SNFloat)
        requires
            self.wf(),
        ensures
            r.value == unsigned_to_signed(self.value as int),
            r.wf(),
    {
        SNFloat { value: self.value - SN_ONE }
    }

    /// The fraction of a turn, as a unit-range scalar.
    pub fn to_unsigned(self) -> (r: UNFloat)
        requires
            self.wf(),
        ensures
            r.value == self.value,
            r.wf(),
    {
        UNFloat { value: self.value }
    }
}

/// A signed-normalised value carried through the unit range and back is
/// reproduced exactly: the two remaps are inverse affine maps on the
/// fixed-point grid.
pub proof fn lemma_conversion_round_trip(v: int)
    requires
        -SN_ONE <= v <= SN_ONE,
    ensures
        unsigned_to_signed(signed_to_unsigned(v)) == v,
        0 <= signed_to_unsigned(v) <= UN_ONE,
{
}

} // verus!
