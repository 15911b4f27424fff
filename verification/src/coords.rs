//! The per-evaluation coordinate context.

use vstd::prelude::*;
use crate::continuous::{SNFloat, UNFloat, SN_ONE, sn_circular};
use crate::discrete::{Byte, truncated_div};
use crate::history::History;

verus! {

/// The largest tick magnitude the context carries; shifts saturate here
/// instead of overflowing.
pub const T_BOUND: i64 = 0x100_0000_0000_0000;

/// The saturating shift of the tick value.
pub open spec fn t_shifted(t: int, shift: int) -> int {
    if t + shift > T_BOUND {
        T_BOUND as int
    } else if t + shift < -T_BOUND {
        -T_BOUND as int
    } else {
        t + shift
    }
}

/// An immutable set of evaluation coordinates: a position of the
/// signed-normalised plane and the tick, in signed-normalised fixed-point
/// units (one tick is `SN_ONE` units).
#[derive(Clone, Copy, PartialEq, Eq, Structural, Debug)]
pub struct CoordinateSet {
    pub x: SNFloat,
    pub y: SNFloat,
    pub t: i64,
}

impl CoordinateSet {
    pub open spec fn wf(self) -> bool {
        &&& self.x.wf()
        &&& self.y.wf()
        &&& -T_BOUND <= self.t <= T_BOUND
    }

    /// A new context with both plane coordinates wrapped forward and the
    /// tick shifted (saturating at the tick bound).
    pub fn get_coord_shifted(self, shift_x: SNFloat, shift_y: SNFloat, shift_t: SNFloat) -> (r:
        CoordinateSet)
        requires
            self.wf(),
            shift_x.wf(),
            shift_y.wf(),
            shift_t.wf(),
        ensures
            r.x.value == sn_circular(self.x.value + shift_x.value),
            r.y.value == sn_circular(self.y.value + shift_y.value),
            r.t == t_shifted(self.t as int, shift_t.value as int),
            r.wf(),
    {
        let t: i64 = self.t + shift_t.value as i64;
        let t_clamped: i64 = if t > T_BOUND {
            T_BOUND
        } else if t < -T_BOUND {
            -T_BOUND
        } else {
            t
        };
        CoordinateSet {
            x: self.x.circular_add(shift_x),
            y: self.y.circular_add(shift_y),
            t: t_clamped,
        }
    }

    /// A new context with both plane coordinates and the tick scaled by
    /// signed-normalised factors (the magnitudes can only shrink).
    pub fn get_coord_scaled(self, scale_x: SNFloat, scale_y: SNFloat, scale_t: SNFloat) -> (r:
        CoordinateSet)
        requires
            self.wf(),
            scale_x.wf(),
            scale_y.wf(),
            scale_t.wf(),
        ensures
            r.x.value == truncated_div(self.x.value * scale_x.value, SN_ONE as int),
            r.y.value == truncated_div(self.y.value * scale_y.value, SN_ONE as int),
            r.t == truncated_div(self.t * scale_t.value, SN_ONE as int),
            r.wf(),
    {
        let nt: i64 = if self.t >= 0 {
            self.t
        } else {
            -self.t
        };
        let ns: i64 = if scale_t.value >= 0 {
            scale_t.value as i64
        } else {
            -(scale_t.value as i64)
        };
        proof {
            crate::continuous::lemma_scale_div_bound(ns as int, SN_ONE as int, nt as int);
            vstd::arithmetic::mul::lemma_mul_is_commutative(ns as int, nt as int);
            vstd::arithmetic::mul::lemma_mul_unary_negation(self.t as int, scale_t.value as int);
            vstd::arithmetic::mul::lemma_mul_unary_negation(scale_t.value as int, self.t as int);
            vstd::arithmetic::mul::lemma_mul_cancels_negatives(self.t as int, scale_t.value as int);
        }
        let p: i128 = (nt as i128) * (ns as i128);
        let q: i64 = (p / (SN_ONE as i128)) as i64;
        let st: i64 = if (self.t >= 0) == (scale_t.value >= 0) {
            q
        } else {
            -q
        };
        CoordinateSet { x: self.x.multiply(scale_x), y: self.y.multiply(scale_y), t: st }
    }

    /// The low byte of the whole ticks; ticks before zero read as zero.
    pub fn get_byte_t(&self) -> (r: Byte)
        requires
            self.wf(),
        ensures
            r.value == if self.t < 0 {
                0
            } else {
                ((self.t as int) / (SN_ONE as int)) % 256
            },
    {
        if self.t < 0 {
            Byte::new(0)
        } else {
            proof {
                vstd::arithmetic::div_mod::lemma_div_pos_is_pos(self.t as int, SN_ONE as int);
                vstd::arithmetic::div_mod::lemma_mod_division_less_than_divisor(
                    (self.t as int) / (SN_ONE as int),
                    256,
                );
            }
            Byte::new(((self.t / (SN_ONE as i64)) % 256) as u8)
        }
    }

    /// The byte of ticks as a unit-range value (its 256th).
    pub fn get_unfloat_t(&self) -> (r: UNFloat)
        requires
            self.wf(),
        ensures
            r.value == if self.t < 0 {
                0
            } else {
                (((self.t as int) / (SN_ONE as int)) % 256) * 512
            },
            r.wf(),
    {
        let b: Byte = self.get_byte_t();
        UNFloat::new(b.into_inner() as i32 * 512)
    }
}

/// The fractional part of the tick value, in signed-normalised units:
/// the remainder of the tick below one whole tick, taken so that it
/// always lands in `[0, SN_ONE)` whatever the sign of the tick.
pub fn tick_fraction(t: i64) -> (r: i32)
    requires
        -T_BOUND <= t <= T_BOUND,
    ensures
        r == (t as int) % (SN_ONE as int),
        0 <= r < SN_ONE,
{
    if t >= 0 {
        proof {
            vstd::arithmetic::div_mod::lemma_mod_division_less_than_divisor(t as int, SN_ONE as int);
        }
        (t % (SN_ONE as i64)) as i32
    } else {
        let m: i64 = (-t) % (SN_ONE as i64);
        proof {
            let v = t as int;
            let s = SN_ONE as int;
            let q = (-v) / s;
            vstd::arithmetic::div_mod::lemma_fundamental_div_mod(-v, s);
            vstd::arithmetic::div_mod::lemma_mod_division_less_than_divisor(-v, s);
            if m == 0 {
                vstd::arithmetic::div_mod::lemma_fundamental_div_mod_converse_mod(v, s, -q, 0);
            } else {
                vstd::arithmetic::div_mod::lemma_fundamental_div_mod_converse_mod(
                    v,
                    s,
                    -q - 1,
                    s - m,
                );
            }
        }
        if m == 0 {
            0
        } else {
            (SN_ONE as i64 - m) as i32
        }
    }
}

/// Everything one evaluation of a node sees: the coordinates and the
/// frame history, which the evaluation may read but never changes.
#[derive(Clone, Copy)]
pub struct UpdateState<'a> {
    pub coordinate_set: CoordinateSet,
    pub history: &'a History,
}

impl<'a> UpdateState<'a> {
    pub open spec fn wf(self) -> bool {
        self.coordinate_set.wf() && self.history.wf()
    }
}

} // verus!
