//! Fixed-width discrete value types with wrapping arithmetic.
//!
//! Every operator is total: addition and multiplication wrap around the
//! type's modulus, and division or remainder by a zero-valued operand
//! returns the zero value instead of failing, so that evaluation of a
//! randomly grown expression tree can never fail at run time.

use vstd::prelude::*;

verus! {

/// A wrapped boolean value.
#[derive(Clone, Copy, PartialEq, Eq, Structural, Debug)]
pub struct Boolean {
    pub value: bool,
}

impl Boolean {
    pub fn into_inner(self) -> (r: bool)
        ensures
            r == self.value,
    {
        self.value
    }
}

/// How many distinct values a `Nibble` can hold.
pub const NIBBLE_POSSIBLE_VALUES: u8 = 16;

/// An integer in `[0, 16)`, reduced modulo 16 at construction.
#[derive(Clone, Copy, PartialEq, Eq, Structural, Debug)]
pub struct Nibble {
    pub value: u8,
}

impl Nibble {
    pub open spec fn wf(self) -> bool {
        self.value < NIBBLE_POSSIBLE_VALUES
    }

    pub fn new(value: u8) -> (r: Nibble)
        ensures
            r.wf(),
            r.value == value % NIBBLE_POSSIBLE_VALUES,
    {
        Nibble { value: value % NIBBLE_POSSIBLE_VALUES }
    }

    pub fn into_inner(self) -> (r: u8)
        ensures
            r == self.value,
    {
        self.value
    }

    pub fn add(self, other: Nibble) -> (r: Nibble)
        requires
            self.wf(),
            other.wf(),
        ensures
            r.wf(),
            r.value == (self.value + other.value) % (NIBBLE_POSSIBLE_VALUES as int),
    {
        Nibble::new(self.value + other.value)
    }

    pub fn multiply(self, other: Nibble) -> (r: Nibble)
        requires
            self.wf(),
            other.wf(),
        ensures
            r.wf(),
            r.value == (self.value * other.value) % (NIBBLE_POSSIBLE_VALUES as int),
    {
        assert(self.value * other.value <= 225) by (nonlinear_arith)
            requires
                self.value < 16,
                other.value < 16,
        ;
        Nibble::new(self.value * other.value)
    }

    /// Division; a zero divisor yields the zero value.
    pub fn divide(self, other: Nibble) -> (r: Nibble)
        requires
            self.wf(),
            other.wf(),
        ensures
            r.wf(),
            other.value == 0 ==> r.value == 0,
            other.value != 0 ==> r.value == self.value / other.value,
    {
        if other.value == 0 {
            Nibble::new(other.value)
        } else {
            Nibble::new(self.value / other.value)
        }
    }

    /// Remainder; a zero divisor yields the zero value.
    pub fn modulus(self, other: Nibble) -> (r: Nibble)
        requires
            self.wf(),
            other.wf(),
        ensures
            r.wf(),
            other.value == 0 ==> r.value == 0,
            other.value != 0 ==> r.value == self.value % other.value,
    {
        if other.value == 0 {
            Nibble::new(other.value)
        } else {
            Nibble::new(self.value % other.value)
        }
    }
}

/// An eight-bit integer with wrapping arithmetic.
#[derive(Clone, Copy, PartialEq, Eq, Structural, Debug)]
pub struct Byte {
    pub value: u8,
}

impl Byte {
    pub fn new(value: u8) -> (r: Byte)
        ensures
            r.value == value,
    {
        Byte { value }
    }

    pub fn into_inner(self) -> (r: u8)
        ensures
            r == self.value,
    {
        self.value
    }

    pub fn add(self, other: Byte) -> (r: Byte)
        ensures
            r.value == (self.value + other.value) % 256,
    {
        Byte { value: self.value.wrapping_add(other.value) }
    }

    pub fn multiply(self, other: Byte) -> (r: Byte)
        ensures
            r.value == (self.value * other.value) % 256,
    {
        Byte { value: self.value.wrapping_mul(other.value) }
    }

    /// Division; a zero divisor yields the zero value.
    pub fn divide(self, other: Byte) -> (r: Byte)
        ensures
            other.value == 0 ==> r.value == 0,
            other.value != 0 ==> r.value == self.value / other.value,
    {
        if other.value == 0 {
            Byte::new(other.value)
        } else {
            Byte::new(self.value / other.value)
        }
    }

    /// Remainder; a zero divisor yields the zero value.
    pub fn modulus(self, other: Byte) -> (r: Byte)
        ensures
            other.value == 0 ==> r.value == 0,
            other.value != 0 ==> r.value == self.value % other.value,
    {
        if other.value == 0 {
            Byte::new(other.value)
        } else {
            Byte::new(self.value % other.value)
        }
    }
}

/// A 32-bit unsigned integer with wrapping arithmetic.
#[derive(Clone, Copy, PartialEq, Eq, Structural, Debug)]
pub struct UInt {
    pub value: u32,
}

impl UInt {
    pub fn new(value: u32) -> (r: UInt)
        ensures
            r.value == value,
    {
        UInt { value }
    }

    pub fn into_inner(self) -> (r: u32)
        ensures
            r == self.value,
    {
        self.value
    }

    pub fn add(self, other: UInt) -> (r: UInt)
        ensures
            r.value == (self.value + other.value) % 0x1_0000_0000,
    {
        UInt { value: self.value.wrapping_add(other.value) }
    }

    pub fn multiply(self, other: UInt) -> (r: UInt)
        ensures
            r.value == (self.value * other.value) % 0x1_0000_0000,
    {
        UInt { value: self.value.wrapping_mul(other.value) }
    }

    /// Division; a zero divisor yields the zero value.
    pub fn divide(self, other: UInt) -> (r: UInt)
        ensures
            other.value == 0 ==> r.value == 0,
            other.value != 0 ==> r.value == self.value / other.value,
    {
        if other.value == 0 {
            UInt::new(other.value)
        } else {
            UInt::new(self.value / other.value)
        }
    }

    /// Remainder; a zero divisor yields the zero value.
    pub fn modulus(self, other: UInt) -> (r: UInt)
        ensures
            other.value == 0 ==> r.value == 0,
            other.value != 0 ==> r.value == self.value % other.value,
    {
        if other.value == 0 {
            UInt::new(other.value)
        } else {
            UInt::new(self.value % other.value)
        }
    }
}

/// Truncated (round toward zero) division, as the machine performs it.
pub open spec fn truncated_div(a: int, b: int) -> int
    recommends
        b != 0,
{
    if a == 0 {
        0
    } else if a > 0 && b > 0 {
        a / b
    } else if a < 0 && b < 0 {
        (a * -1) / (b * -1)
    } else if a < 0 {
        ((a * -1) / b) * -1
    } else {
        (a / (b * -1)) * -1
    }
}

/// Truncated remainder, with the sign of the dividend.
pub open spec fn truncated_rem(a: int, b: int) -> int
    recommends
        b != 0,
{
    if a == 0 {
        0
    } else if a > 0 && b > 0 {
        a % b
    } else if a < 0 && b < 0 {
        ((a * -1) % (b * -1)) * -1
    } else if a < 0 {
        ((a * -1) % b) * -1
    } else {
        a % (b * -1)
    }
}

/// A 32-bit signed integer with wrapping arithmetic.
#[derive(Clone, Copy, PartialEq, Eq, Structural, Debug)]
pub struct SInt {
    pub value: i32,
}

impl SInt {
    pub fn new(value: i32) -> (r: SInt)
        ensures
            r.value == value,
    {
        SInt { value }
    }

    pub fn into_inner(self) -> (r: i32)
        ensures
            r == self.value,
    {
        self.value
    }

    pub fn add(self, other: SInt) -> (r: SInt)
        ensures
            r.value == vstd::wrapping::i32_specs::wrapping_add(self.value, other.value),
    {
        SInt { value: self.value.wrapping_add(other.value) }
    }

    pub fn multiply(self, other: SInt) -> (r: SInt)
        ensures
            r.value == vstd::wrapping::i32_specs::wrapping_mul(self.value, other.value),
    {
        SInt { value: self.value.wrapping_mul(other.value) }
    }

    /// Truncated division; a zero divisor yields the zero value, and the one
    /// overflowing quotient wraps back onto the minimum value.
    pub fn divide(self, other: SInt) -> (r: SInt)
        ensures
            other.value == 0 ==> r.value == 0,
            other.value != 0 && !(self.value == i32::MIN && other.value == -1) ==> r.value
                == truncated_div(self.value as int, other.value as int),
            self.value == i32::MIN && other.value == -1 ==> r.value == i32::MIN,
    {
        if other.value == 0 {
            SInt::new(0)
        } else {
            proof {
                let x = self.value as int;
                let d = other.value as int;
                if x > 0 && d > 0 {
                    vstd::arithmetic::div_mod::lemma_div_nonincreasing(x, d);
                    vstd::arithmetic::div_mod::lemma_div_pos_is_pos(x, d);
                } else if x < 0 && d < 0 {
                    vstd::arithmetic::div_mod::lemma_div_nonincreasing(x * -1, d * -1);
                    vstd::arithmetic::div_mod::lemma_div_pos_is_pos(x * -1, d * -1);
                    if d < -1 {
                        vstd::arithmetic::div_mod::lemma_div_is_ordered_by_denominator(x * -1, 2, d * -1);
                        vstd::arithmetic::div_mod::lemma_div_is_ordered(x * -1, 0x8000_0000, 2);
                    }
                } else if x < 0 {
                    vstd::arithmetic::div_mod::lemma_div_nonincreasing(x * -1, d);
                    vstd::arithmetic::div_mod::lemma_div_pos_is_pos(x * -1, d);
                } else if x > 0 {
                    vstd::arithmetic::div_mod::lemma_div_nonincreasing(x, d * -1);
                    vstd::arithmetic::div_mod::lemma_div_pos_is_pos(x, d * -1);
                }
            }
            match self.value.checked_div(other.value) {
                Some(q) => SInt::new(q),
                None => SInt::new(i32::MIN),
            }
        }
    }

    /// Truncated remainder; a zero divisor yields the zero value.
    pub fn modulus(self, other: SInt) -> (r: SInt)
        ensures
            other.value == 0 ==> r.value == 0,
            other.value != 0 && !(self.value == i32::MIN && other.value == -1) ==> r.value
                == truncated_rem(self.value as int, other.value as int),
            self.value == i32::MIN && other.value == -1 ==> r.value == 0,
    {
        if other.value == 0 {
            SInt::new(0)
        } else {
            proof {
                let x = self.value as int;
                let d = other.value as int;
                let m = if d < 0 {
                    d * -1
                } else {
                    d
                };
                let n = if x < 0 {
                    x * -1
                } else {
                    x
                };
                vstd::arithmetic::div_mod::lemma_mod_division_less_than_divisor(n, m);
            }
            match self.value.checked_rem(other.value) {
                Some(q) => SInt::new(q),
                None => SInt::new(0),
            }
        }
    }
}

/// Truncated division of a 64-bit value by a positive divisor.
pub fn tdiv_i64(a: i64, b: i64) -> (r: i64)
    requires
        b > 0,
        a > i64::MIN,
    ensures
        r == truncated_div(a as int, b as int),
        a >= 0 ==> r == (a as int) / (b as int),
        a < 0 ==> r == -((-(a as int)) / (b as int)),
{
    if a >= 0 {
        proof {
            vstd::arithmetic::div_mod::lemma_div_pos_is_pos(a as int, b as int);
            vstd::arithmetic::div_mod::lemma_div_nonincreasing(a as int, b as int);
        }
        a / b
    } else {
        proof {
            vstd::arithmetic::div_mod::lemma_div_pos_is_pos(-(a as int), b as int);
            vstd::arithmetic::div_mod::lemma_div_nonincreasing(-(a as int), b as int);
        }
        -((-a) / b)
    }
}

} // verus!
