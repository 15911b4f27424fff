//! Colour types: continuous RGBA, byte RGBA, nibble RGBA, and the
//! eight-valued bit colour.

use vstd::prelude::*;
use crate::continuous::{UNFloat, UN_ONE};
use crate::discrete::{Nibble, truncated_div};

verus! {

/// A colour with continuous unit-range channels.
#[derive(Clone, Copy, PartialEq, Eq, Structural, Debug)]
pub struct FloatColor {
    pub r: UNFloat,
    pub g: UNFloat,
    pub b: UNFloat,
    pub a: UNFloat,
}

impl FloatColor {
    pub open spec fn wf(self) -> bool {
        self.r.wf() && self.g.wf() && self.b.wf() && self.a.wf()
    }

    /// Pure white, fully opaque.
    pub fn white() -> (r: FloatColor)
        ensures
            r.r.value == UN_ONE,
            r.g.value == UN_ONE,
            r.b.value == UN_ONE,
            r.a.value == UN_ONE,
            r.wf(),
    {
        let one: UNFloat = UNFloat::new(UN_ONE);
        FloatColor { r: one, g: one, b: one, a: one }
    }

    /// The continuous colour standing for a byte colour: each channel is
    /// its byte value as 256ths.
    pub fn from_byte_color(c: ByteColor) -> (r: FloatColor)
        ensures
            r.r.value == c.r * 512,
            r.g.value == c.g * 512,
            r.b.value == c.b * 512,
            r.a.value == c.a * 512,
            r.wf(),
    {
        FloatColor {
            r: UNFloat::new(c.r as i32 * 512),
            g: UNFloat::new(c.g as i32 * 512),
            b: UNFloat::new(c.b as i32 * 512),
            a: UNFloat::new(c.a as i32 * 512),
        }
    }

    /// The continuous colour standing for a bit colour: full or empty
    /// channels, fully opaque.
    pub fn from_bit_color(c: BitColor) -> (r: FloatColor)
        ensures
            r.r.value == if c.bit_components().0 {
                UN_ONE as int
            } else {
                0
            },
            r.g.value == if c.bit_components().1 {
                UN_ONE as int
            } else {
                0
            },
            r.b.value == if c.bit_components().2 {
                UN_ONE as int
            } else {
                0
            },
            r.a.value == UN_ONE,
            r.wf(),
    {
        let (cr, cg, cb): (bool, bool, bool) = c.to_components();
        FloatColor {
            r: UNFloat::new(if cr { UN_ONE } else { 0 }),
            g: UNFloat::new(if cg { UN_ONE } else { 0 }),
            b: UNFloat::new(if cb { UN_ONE } else { 0 }),
            a: UNFloat::new(UN_ONE),
        }
    }
}

/// The mean of the three colour channels.
pub fn get_average(c: FloatColor) -> (r: UNFloat)
    requires
        c.wf(),
    ensures
        r.value == (c.r.value + c.g.value + c.b.value) / 3,
        r.wf(),
{
    UNFloat::new((c.r.into_inner() + c.g.into_inner() + c.b.into_inner()) / 3)
}

/// The hue of a colour, as the fraction of the colour circle.
pub open spec fn hue_spec(r: int, g: int, b: int) -> int {
    let mx = if r >= g && r >= b {
        r
    } else if g >= b {
        g
    } else {
        b
    };
    let mn = if r <= g && r <= b {
        r
    } else if g <= b {
        g
    } else {
        b
    };
    if mx == mn {
        0
    } else {
        let d = mx - mn;
        let t = if mx == r {
            truncated_div((g - b) * UN_ONE, d)
        } else if mx == g {
            2 * UN_ONE + truncated_div((b - r) * UN_ONE, d)
        } else {
            4 * UN_ONE + truncated_div((r - g) * UN_ONE, d)
        };
        let t2 = if t < 0 {
            t + 6 * UN_ONE
        } else {
            t
        };
        t2 / 6
    }
}

/// A signed scaled quotient with both magnitudes bounded by the divisor.
fn scaled_ratio(num: i32, d: i32) -> (r: i32)
    requires
        0 < d <= UN_ONE,
        -d <= num <= d,
    ensures
        r == truncated_div(num * UN_ONE, d as int),
        -UN_ONE <= r <= UN_ONE,
{
    let n: i64 = if num >= 0 {
        num as i64
    } else {
        -(num as i64)
    };
    proof {
        crate::continuous::lemma_scale_div_bound(n as int, d as int, UN_ONE as int);
        vstd::arithmetic::mul::lemma_mul_is_commutative(n as int, UN_ONE as int);
        vstd::arithmetic::mul::lemma_mul_unary_negation(num as int, UN_ONE as int);
    }
    let q: i64 = (n * (UN_ONE as i64)) / (d as i64);
    if num >= 0 {
        q as i32
    } else {
        (-q) as i32
    }
}

/// The hue of a colour; a grey colour (all channels equal) has hue zero.
pub fn get_hue_unfloat(c: FloatColor) -> (res: UNFloat)
    requires
        c.wf(),
    ensures
        res.value == hue_spec(c.r.value as int, c.g.value as int, c.b.value as int),
        res.wf(),
{
    let r: i32 = c.r.into_inner();
    let g: i32 = c.g.into_inner();
    let b: i32 = c.b.into_inner();
    let mx: i32 = if r >= g && r >= b {
        r
    } else if g >= b {
        g
    } else {
        b
    };
    let mn: i32 = if r <= g && r <= b {
        r
    } else if g <= b {
        g
    } else {
        b
    };
    if mx == mn {
        UNFloat::new(0)
    } else {
        let d: i32 = mx - mn;
        let t: i32 = if mx == r {
            scaled_ratio(g - b, d)
        } else if mx == g {
            2 * UN_ONE + scaled_ratio(b - r, d)
        } else {
            4 * UN_ONE + scaled_ratio(r - g, d)
        };
        let t2: i32 = if t < 0 {
            t + 6 * UN_ONE
        } else {
            t
        };
        UNFloat::new(t2 / 6)
    }
}

/// The product of two unit-range values, rounded down.
pub open spec fn unit_mul(a: int, b: int) -> int {
    a * b / (UN_ONE as int)
}

/// The product of two unit-range channels.
pub fn unit_mul_exec(a: i32, b: i32) -> (r: i32)
    requires
        0 <= a <= UN_ONE,
        0 <= b <= UN_ONE,
    ensures
        r == unit_mul(a as int, b as int),
        0 <= r <= UN_ONE,
{
    proof {
        crate::continuous::lemma_scale_div_bound(a as int, UN_ONE as int, b as int);
        vstd::arithmetic::mul::lemma_mul_is_commutative(a as int, b as int);
    }
    ((a as i64 * b as i64) / (UN_ONE as i64)) as i32
}

/// The screen blend of two unit-range channels: the complement of the
/// product of the complements.
pub open spec fn screen_channel_spec(a: int, b: int) -> int {
    UN_ONE - unit_mul(UN_ONE - a, UN_ONE - b)
}

pub(crate) fn screen_channel(a: UNFloat, b: UNFloat) -> (r: UNFloat)
    requires
        a.wf(),
        b.wf(),
    ensures
        r.value == screen_channel_spec(a.value as int, b.value as int),
        r.wf(),
{
    UNFloat::new(UN_ONE - unit_mul_exec(UN_ONE - a.into_inner(), UN_ONE - b.into_inner()))
}

/// The overlay blend of two unit-range channels: a doubled product below
/// one half, a doubled screen above it.
pub open spec fn overlay_channel_spec(a: int, b: int) -> int {
    if a < UN_ONE / 2 {
        if 2 * unit_mul(a, b) > UN_ONE {
            UN_ONE as int
        } else {
            2 * unit_mul(a, b)
        }
    } else {
        if 2 * unit_mul(UN_ONE - a, UN_ONE - b) > UN_ONE {
            0
        } else {
            UN_ONE - 2 * unit_mul(UN_ONE - a, UN_ONE - b)
        }
    }
}

pub(crate) fn overlay_channel(a: UNFloat, b: UNFloat) -> (r: UNFloat)
    requires
        a.wf(),
        b.wf(),
    ensures
        r.value == overlay_channel_spec(a.value as int, b.value as int),
        r.wf(),
{
    if a.into_inner() < UN_ONE / 2 {
        let p: i32 = unit_mul_exec(a.into_inner(), b.into_inner());
        if 2 * p > UN_ONE {
            UNFloat::new(UN_ONE)
        } else {
            UNFloat::new(2 * p)
        }
    } else {
        let p: i32 = unit_mul_exec(UN_ONE - a.into_inner(), UN_ONE - b.into_inner());
        if 2 * p > UN_ONE {
            UNFloat::new(0)
        } else {
            UNFloat::new(UN_ONE - 2 * p)
        }
    }
}

/// The red, green and blue channels standing for a hue, saturation and
/// value triple, all in unit-range units: the hue picks one of six
/// sectors of the colour circle and the channels interpolate within it.
pub open spec fn hsv_to_rgb_spec(h: int, s: int, v: int) -> (int, int, int) {
    let u = UN_ONE as int;
    let h6 = h * 6;
    let i = (h6 / u) % 6;
    let f = h6 % u;
    let p = unit_mul(v, u - s);
    let q = unit_mul(v, u - unit_mul(f, s));
    let t = unit_mul(v, u - unit_mul(u - f, s));
    if i == 0 {
        (v, t, p)
    } else if i == 1 {
        (q, v, p)
    } else if i == 2 {
        (p, v, t)
    } else if i == 3 {
        (p, q, v)
    } else if i == 4 {
        (t, p, v)
    } else {
        (v, p, q)
    }
}

/// The continuous colour standing for a hue, saturation, value and alpha
/// quadruple.
pub fn hsv_to_rgb(h: UNFloat, s: UNFloat, v: UNFloat, alpha: UNFloat) -> (r: FloatColor)
    requires
        h.wf(),
        s.wf(),
        v.wf(),
        alpha.wf(),
    ensures
        r.r.value == hsv_to_rgb_spec(h.value as int, s.value as int, v.value as int).0,
        r.g.value == hsv_to_rgb_spec(h.value as int, s.value as int, v.value as int).1,
        r.b.value == hsv_to_rgb_spec(h.value as int, s.value as int, v.value as int).2,
        r.a == alpha,
        r.wf(),
{
    let h6: i32 = h.into_inner() * 6;
    let i: i32 = (h6 / UN_ONE) % 6;
    let f: i32 = h6 % UN_ONE;
    proof {
        vstd::arithmetic::div_mod::lemma_mod_division_less_than_divisor(
            h6 as int,
            UN_ONE as int,
        );
        vstd::arithmetic::div_mod::lemma_mod_division_less_than_divisor(
            (h6 as int) / (UN_ONE as int),
            6,
        );
        vstd::arithmetic::div_mod::lemma_div_pos_is_pos(h6 as int, UN_ONE as int);
    }
    let pv: i32 = unit_mul_exec(v.into_inner(), UN_ONE - s.into_inner());
    let qv: i32 = unit_mul_exec(
        v.into_inner(),
        UN_ONE - unit_mul_exec(f, s.into_inner()),
    );
    let tv: i32 = unit_mul_exec(
        v.into_inner(),
        UN_ONE - unit_mul_exec(UN_ONE - f, s.into_inner()),
    );
    let p: UNFloat = UNFloat::new(pv);
    let q: UNFloat = UNFloat::new(qv);
    let t: UNFloat = UNFloat::new(tv);
    if i == 0 {
        FloatColor { r: v, g: t, b: p, a: alpha }
    } else if i == 1 {
        FloatColor { r: q, g: v, b: p, a: alpha }
    } else if i == 2 {
        FloatColor { r: p, g: v, b: t, a: alpha }
    } else if i == 3 {
        FloatColor { r: p, g: q, b: v, a: alpha }
    } else if i == 4 {
        FloatColor { r: t, g: p, b: v, a: alpha }
    } else {
        FloatColor { r: v, g: p, b: q, a: alpha }
    }
}

/// A colour with one byte per channel.
#[derive(Clone, Copy, PartialEq, Eq, Structural, Debug)]
pub struct ByteColor {
    pub r: u8,
    pub g: u8,
    pub b: u8,
    pub a: u8,
}

impl ByteColor {
    /// The byte colour standing for a continuous colour: each channel
    /// scaled to 255ths, rounded down.
    pub fn from_float_color(c: FloatColor) -> (r: ByteColor)
        requires
            c.wf(),
        ensures
            r.r == c.r.value * 255 / (UN_ONE as int),
            r.g == c.g.value * 255 / (UN_ONE as int),
            r.b == c.b.value * 255 / (UN_ONE as int),
            r.a == c.a.value * 255 / (UN_ONE as int),
    {
        ByteColor {
            r: channel_byte(c.r),
            g: channel_byte(c.g),
            b: channel_byte(c.b),
            a: channel_byte(c.a),
        }
    }
}

/// One unit-range channel scaled to a byte, rounded down.
fn channel_byte(u: UNFloat) -> (r: u8)
    requires
        u.wf(),
    ensures
        r == u.value * 255 / (UN_ONE as int),
{
    proof {
        crate::continuous::lemma_scale_div_bound(u.value as int, UN_ONE as int, 255);
        vstd::arithmetic::mul::lemma_mul_is_commutative(u.value as int, 255);
    }
    let p: i64 = u.into_inner() as i64 * 255;
    (p / (UN_ONE as i64)) as u8
}

/// A colour with one nibble per channel.
#[derive(Clone, Copy, PartialEq, Eq, Structural, Debug)]
pub struct NibbleColor {
    pub r: Nibble,
    pub g: Nibble,
    pub b: Nibble,
    pub a: Nibble,
}

impl NibbleColor {
    /// The nibble colour standing for a continuous colour: each channel
    /// scaled to sixteenths, a full channel wrapping to zero.
    pub fn from_float_color(c: FloatColor) -> (r: NibbleColor)
        requires
            c.wf(),
        ensures
            r.r.value == (c.r.value * 16 / (UN_ONE as int)) % 16,
            r.g.value == (c.g.value * 16 / (UN_ONE as int)) % 16,
            r.b.value == (c.b.value * 16 / (UN_ONE as int)) % 16,
            r.a.value == (c.a.value * 16 / (UN_ONE as int)) % 16,
            r.r.wf() && r.g.wf() && r.b.wf() && r.a.wf(),
    {
        NibbleColor {
            r: channel_nibble(c.r),
            g: channel_nibble(c.g),
            b: channel_nibble(c.b),
            a: channel_nibble(c.a),
        }
    }
}

/// One unit-range channel scaled to a nibble, a full channel wrapping to
/// zero.
fn channel_nibble(u: UNFloat) -> (r: Nibble)
    requires
        u.wf(),
    ensures
        r.value == (u.value * 16 / (UN_ONE as int)) % 16,
        r.wf(),
{
    proof {
        crate::continuous::lemma_scale_div_bound(u.value as int, UN_ONE as int, 16);
        vstd::arithmetic::mul::lemma_mul_is_commutative(u.value as int, 16);
    }
    let p: i64 = u.into_inner() as i64 * 16;
    Nibble::new((p / (UN_ONE as i64)) as u8)
}

/// A colour with each of the red, green and blue channels either full or
/// empty: eight colours in all.
#[derive(Clone, Copy, PartialEq, Eq, Structural, Debug)]
pub enum BitColor {
    Black,
    Red,
    Green,
    Blue,
    Cyan,
    Magenta,
    Yellow,
    White,
}

impl BitColor {
    /// The channel triple of the colour.
    pub open spec fn bit_components(self) -> (bool, bool, bool) {
        match self {
            BitColor::Black => (false, false, false),
            BitColor::Red => (true, false, false),
            BitColor::Green => (false, true, false),
            BitColor::Blue => (false, false, true),
            BitColor::Cyan => (false, true, true),
            BitColor::Magenta => (true, false, true),
            BitColor::Yellow => (true, true, false),
            BitColor::White => (true, true, true),
        }
    }

    /// The colour with the given channel triple.
    pub open spec fn spec_from_components(c: (bool, bool, bool)) -> BitColor {
        match c {
            (false, false, false) => BitColor::Black,
            (true, false, false) => BitColor::Red,
            (false, true, false) => BitColor::Green,
            (false, false, true) => BitColor::Blue,
            (false, true, true) => BitColor::Cyan,
            (true, false, true) => BitColor::Magenta,
            (true, true, false) => BitColor::Yellow,
            (true, true, true) => BitColor::White,
        }
    }

    /// The position of the colour in the fixed eight-colour order.
    pub open spec fn index_spec(self) -> int {
        match self {
            BitColor::Black => 0,
            BitColor::Red => 1,
            BitColor::Green => 2,
            BitColor::Blue => 3,
            BitColor::Cyan => 4,
            BitColor::Magenta => 5,
            BitColor::Yellow => 6,
            BitColor::White => 7,
        }
    }

    /// The full-or-empty byte colour, fully opaque.
    pub fn get_color(self) -> (r: ByteColor)
        ensures
            r.r == if self.bit_components().0 {
                255u8
            } else {
                0u8
            },
            r.g == if self.bit_components().1 {
                255u8
            } else {
                0u8
            },
            r.b == if self.bit_components().2 {
                255u8
            } else {
                0u8
            },
            r.a == 255,
    {
        let (cr, cg, cb): (bool, bool, bool) = self.to_components();
        ByteColor {
            r: if cr { 255 } else { 0 },
            g: if cg { 255 } else { 0 },
            b: if cb { 255 } else { 0 },
            a: 255,
        }
    }

    /// Threshold a continuous colour at one half per channel.
    pub fn from_float_color(c: FloatColor) -> (r: BitColor)
        requires
            c.wf(),
        ensures
            r == BitColor::spec_from_components(
                (c.r.value >= UN_ONE / 2, c.g.value >= UN_ONE / 2, c.b.value >= UN_ONE / 2),
            ),
    {
        BitColor::from_components((
            c.r.into_inner() >= UN_ONE / 2,
            c.g.into_inner() >= UN_ONE / 2,
            c.b.into_inner() >= UN_ONE / 2,
        ))
    }

    /// Threshold a byte colour at 127 per channel.
    pub fn from_byte_color(c: ByteColor) -> (r: BitColor)
        ensures
            r == BitColor::spec_from_components((c.r >= 127, c.g >= 127, c.b >= 127)),
    {
        BitColor::from_components((c.r >= 127, c.g >= 127, c.b >= 127))
    }

    pub fn to_index(self) -> (r: usize)
        ensures
            r == self.index_spec(),
            r < 8,
    {
        match self {
            BitColor::Black => 0,
            BitColor::Red => 1,
            BitColor::Green => 2,
            BitColor::Blue => 3,
            BitColor::Cyan => 4,
            BitColor::Magenta => 5,
            BitColor::Yellow => 6,
            BitColor::White => 7,
        }
    }

    /// The colour at a position of the fixed eight-colour order; positions
    /// past the end are a caller error.
    pub fn from_index(index: usize) -> (r: BitColor)
        requires
            index < 8,
        ensures
            r.index_spec() == index,
    {
        match index {
            0 => BitColor::Black,
            1 => BitColor::Red,
            2 => BitColor::Green,
            3 => BitColor::Blue,
            4 => BitColor::Cyan,
            5 => BitColor::Magenta,
            6 => BitColor::Yellow,
            _ => BitColor::White,
        }
    }

    pub fn to_components(self) -> (r: (bool, bool, bool))
        ensures
            r == self.bit_components(),
    {
        match self {
            BitColor::Black => (false, false, false),
            BitColor::Red => (true, false, false),
            BitColor::Green => (false, true, false),
            BitColor::Blue => (false, false, true),
            BitColor::Cyan => (false, true, true),
            BitColor::Magenta => (true, false, true),
            BitColor::Yellow => (true, true, false),
            BitColor::White => (true, true, true),
        }
    }

    pub fn from_components(components: (bool, bool, bool)) -> (r: BitColor)
        ensures
            r == BitColor::spec_from_components(components),
            r.bit_components() == components,
    {
        match components {
            (false, false, false) => BitColor::Black,
            (true, false, false) => BitColor::Red,
            (false, true, false) => BitColor::Green,
            (false, false, true) => BitColor::Blue,
            (false, true, true) => BitColor::Cyan,
            (true, false, true) => BitColor::Magenta,
            (true, true, false) => BitColor::Yellow,
            (true, true, true) => BitColor::White,
        }
    }

    /// Whether the two colours share a lit channel.
    pub fn has_color(self, other: BitColor) -> (r: bool)
        ensures
            r == ((self.bit_components().0 && other.bit_components().0) || (
            self.bit_components().1 && other.bit_components().1) || (self.bit_components().2
                && other.bit_components().2)),
    {
        let a: (bool, bool, bool) = self.to_components();
        let b: (bool, bool, bool) = other.to_components();
        (a.0 && b.0) || (a.1 && b.1) || (a.2 && b.2)
    }

    /// The union of the lit channels.
    pub fn give_color(self, other: BitColor) -> (r: (bool, bool, bool))
        ensures
            r.0 == (self.bit_components().0 || other.bit_components().0),
            r.1 == (self.bit_components().1 || other.bit_components().1),
            r.2 == (self.bit_components().2 || other.bit_components().2),
    {
        let a: (bool, bool, bool) = self.to_components();
        let b: (bool, bool, bool) = other.to_components();
        (a.0 || b.0, a.1 || b.1, a.2 || b.2)
    }

    /// The lit channels of this colour that the other does not light.
    pub fn take_color(self, other: BitColor) -> (r: (bool, bool, bool))
        ensures
            r.0 == (self.bit_components().0 && !other.bit_components().0),
            r.1 == (self.bit_components().1 && !other.bit_components().1),
            r.2 == (self.bit_components().2 && !other.bit_components().2),
    {
        let a: (bool, bool, bool) = self.to_components();
        let b: (bool, bool, bool) = other.to_components();
        (a.0 && !b.0, a.1 && !b.1, a.2 && !b.2)
    }

    /// The channels lit in exactly one of the two colours.
    pub fn xor_color(self, other: BitColor) -> (r: (bool, bool, bool))
        ensures
            r.0 == (self.bit_components().0 != other.bit_components().0),
            r.1 == (self.bit_components().1 != other.bit_components().1),
            r.2 == (self.bit_components().2 != other.bit_components().2),
    {
        let a: (bool, bool, bool) = self.to_components();
        let b: (bool, bool, bool) = other.to_components();
        (a.0 != b.0, a.1 != b.1, a.2 != b.2)
    }

    /// The channels on which the two colours agree.
    pub fn eq_color(self, other: BitColor) -> (r: (bool, bool, bool))
        ensures
            r.0 == (self.bit_components().0 == other.bit_components().0),
            r.1 == (self.bit_components().1 == other.bit_components().1),
            r.2 == (self.bit_components().2 == other.bit_components().2),
    {
        let a: (bool, bool, bool) = self.to_components();
        let b: (bool, bool, bool) = other.to_components();
        (a.0 == b.0, a.1 == b.1, a.2 == b.2)
    }
}

/// A colour with one byte per channel and no alpha.
#[derive(Clone, Copy, PartialEq, Eq, Structural, Debug)]
pub struct IntColor {
    pub r: u8,
    pub g: u8,
    pub b: u8,
}

} // verus!
