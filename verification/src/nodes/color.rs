//! Node families computing colours.

use vstd::prelude::*;
use crate::colors::{BitColor, ByteColor, FloatColor, hsv_to_rgb, hsv_to_rgb_spec};
use crate::continuous::{SNFloat, UNFloat, SN_ONE, UN_ONE, signed_to_unsigned};
use crate::coords::{CoordinateSet, UpdateState};
use crate::discrete::{truncated_div, tdiv_i64};
use crate::history::{History, spec_history_channel};
use std::sync::Arc;
use crate::image::{Image, share_image, spec_image_channel, spec_pixel_of};
use crate::nodes::blend::ColorBlendNodes;
use crate::nodes::continuous::UNFloatNodes;
use crate::nodes::coord_map::CoordMapNodes;
use crate::nodes::discrete::{BooleanNodes, ByteNodes, NibbleNodes, spec_uint_t};

use crate::engine::{
    GenContext, GrammarConfig, State, class_index, class_weights, pick_weighted, spec_branch_weight,
    spec_leaf_weight, spec_pipe_weight,
};
use crate::rng::{DeterministicRng, rng_output, rng_step};

verus! {

/// The colour an image leaf reads at a coordinate set.
pub open spec fn spec_image_color(img: Image, coord: CoordinateSet) -> ByteColor {
    let px = spec_pixel_of(coord.x, img.width as int);
    let py = spec_pixel_of(coord.y, img.height as int);
    let ft = if coord.t < 0 {
        0
    } else {
        truncated_div(coord.t as int, SN_ONE as int)
    };
    let ftc = if ft >= 0xFFFF_FFFF {
        0xFFFF_FFFF
    } else {
        ft
    };
    ByteColor {
        r: spec_image_channel(img, px, py, ftc, 0),
        g: spec_image_channel(img, px, py, ftc, 1),
        b: spec_image_channel(img, px, py, ftc, 2),
        a: spec_image_channel(img, px, py, ftc, 3),
    }
}

/// Read the colour an image leaf sees at a coordinate set: whole ticks
/// pick the frame, ticks before zero reading as frame zero.
fn image_color(img: &Image, coord: CoordinateSet) -> (r: ByteColor)
    requires
        img.wf(),
        coord.wf(),
    ensures
        r == spec_image_color(*img, coord),
{
    let ticks: i64 = if coord.t < 0 {
        0
    } else {
        proof {
            vstd::arithmetic::div_mod::lemma_div_pos_is_pos(coord.t as int, SN_ONE as int);
        }
        coord.t / (SN_ONE as i64)
    };
    img.get_pixel_normalised(coord.x, coord.y, ticks)
}

/// The colour a cell-array leaf reads at a coordinate set: the plane
/// coordinates scaled onto the grid, the whole ticks picking the frame.
pub open spec fn spec_cell_color(h: History, coord: CoordinateSet) -> ByteColor {
    let px = spec_pixel_of(coord.x, h.width as int);
    let py = spec_pixel_of(coord.y, h.height as int);
    let ft = spec_uint_t(coord);
    ByteColor {
        r: spec_history_channel(h, px, py, ft, 0),
        g: spec_history_channel(h, px, py, ft, 1),
        b: spec_history_channel(h, px, py, ft, 2),
        a: spec_history_channel(h, px, py, ft, 3),
    }
}

/// Read the colour a cell-array leaf sees at a coordinate set.
fn cell_color(history: &History, coord: CoordinateSet) -> (r: ByteColor)
    requires
        history.wf(),
        coord.wf(),
    ensures
        r == spec_cell_color(*history, coord),
{
    proof {
        assert(history.width <= 0x1000_0000 && history.height <= 0x1000_0000)
            by (nonlinear_arith)
            requires
                history.height * history.width * 4 <= 0x1000_0000,
                history.height >= 1,
                history.width >= 1,
        ;
        crate::continuous::lemma_scale_div_bound(
            signed_to_unsigned(coord.x.value as int),
            UN_ONE as int,
            history.width as int,
        );
        crate::continuous::lemma_scale_div_bound(
            signed_to_unsigned(coord.y.value as int),
            UN_ONE as int,
            history.height as int,
        );
        vstd::arithmetic::mul::lemma_mul_is_commutative(
            signed_to_unsigned(coord.x.value as int),
            history.width as int,
        );
        vstd::arithmetic::mul::lemma_mul_is_commutative(
            signed_to_unsigned(coord.y.value as int),
            history.height as int,
        );
    }
    let ux: i64 = coord.x.to_unsigned().into_inner() as i64;
    let uy: i64 = coord.y.to_unsigned().into_inner() as i64;
    let px: usize = ((ux * history.width as i64) / (UN_ONE as i64)) as usize;
    let py: usize = ((uy * history.height as i64) / (UN_ONE as i64)) as usize;
    let ft: usize = if coord.t < 0 {
        0
    } else {
        proof {
            vstd::arithmetic::div_mod::lemma_div_pos_is_pos(coord.t as int, SN_ONE as int);
        }
        let ticks: i64 = coord.t / (SN_ONE as i64);
        if ticks > 0xFFFF_FFFF {
            0xFFFF_FFFF
        } else {
            ticks as usize
        }
    };
    history.get(px, py, ft)
}

/// The escape count of the quadratic complex iteration `z := z^2 + c`
/// in fixed point: the first step at which the orbit leaves the circle
/// of radius two, or zero if it never does within the limit.
pub open spec fn spec_mandel_escape(
    zre: int,
    zim: int,
    cre: int,
    cim: int,
    i: int,
    limit: int,
) -> int
    decreases limit - i + 1,
{
    if i > limit {
        0
    } else {
        let s = SN_ONE as int;
        let re2 = truncated_div(zre * zre - zim * zim, s) + cre;
        let im2 = truncated_div(2 * (zre * zim), s) + cim;
        if re2 * re2 + im2 * im2 > 4 * s * s {
            i
        } else {
            spec_mandel_escape(re2, im2, cre, cim, i + 1, limit)
        }
    }
}

/// Truncated division by one whole unit, for a bounded dividend.
fn mandel_half(a: i64) -> (r: i64)
    requires
        -0x8_0000_0000 <= a <= 0x8_0000_0000,
    ensures
        r == truncated_div(a as int, SN_ONE as int),
        -0x8_0000 <= r <= 0x8_0000,
{
    proof {
        let n: int = if a >= 0 {
            a as int
        } else {
            -(a as int)
        };
        vstd::arithmetic::div_mod::lemma_div_pos_is_pos(n, SN_ONE as int);
        vstd::arithmetic::div_mod::lemma_div_is_ordered(n, 0x8_0000_0000, SN_ONE as int);
    }
    tdiv_i64(a, SN_ONE as i64)
}

/// The escape count of the classical quadratic set at a coordinate set,
/// scanned over a doubled x-axis, as a byte.
fn mandel_byte(coord: CoordinateSet) -> (r: u8)
    requires
        coord.wf(),
    ensures
        r == spec_mandel_escape(
            0,
            0,
            2 * coord.x.value as int,
            coord.y.value as int,
            0,
            255,
        ),
{
    let cre: i64 = 2 * coord.x.into_inner() as i64;
    let cim: i64 = coord.y.into_inner() as i64;
    let mut zre: i64 = 0;
    let mut zim: i64 = 0;
    let mut i: u16 = 0;
    while i <= 255
        invariant
            i <= 256,
            cre == 2 * coord.x.value,
            cim == coord.y.value,
            -131072 <= cre <= 131072,
            -65536 <= cim <= 65536,
            zre * zre + zim * zim <= 4 * (SN_ONE as int) * (SN_ONE as int),
            spec_mandel_escape(zre as int, zim as int, cre as int, cim as int, i as int, 255)
                == spec_mandel_escape(0, 0, cre as int, cim as int, 0, 255),
        decreases 256 - i,
    {
        assert(-131072 <= zre <= 131072 && -131072 <= zim <= 131072) by (nonlinear_arith)
            requires
                zre * zre + zim * zim <= 4 * 65536 * 65536,
        ;
        assert(0 <= zre * zre <= 0x4_0000_0000 && 0 <= zim * zim <= 0x4_0000_0000 && -0x4_0000_0000
            <= zre * zim <= 0x4_0000_0000) by (nonlinear_arith)
            requires
                -131072 <= zre <= 131072,
                -131072 <= zim <= 131072,
        ;
        let re2: i64 = mandel_half(zre * zre - zim * zim) + cre;
        let cross: i64 = zre * zim;
        let im2: i64 = mandel_half(2 * cross) + cim;
        assert(0 <= re2 * re2 <= 0x1_0000_0000_0000 && 0 <= im2 * im2 <= 0x1_0000_0000_0000)
            by (nonlinear_arith)
            requires
                -0xA_0000 <= re2 <= 0xA_0000,
                -0xA_0000 <= im2 <= 0xA_0000,
        ;
        if re2 * re2 + im2 * im2 > 4 * (SN_ONE as i64) * (SN_ONE as i64) {
            proof {
                reveal_with_fuel(spec_mandel_escape, 2);
                assert(re2 as int == truncated_div(
                    (zre as int) * (zre as int) - (zim as int) * (zim as int),
                    SN_ONE as int,
                ) + cre as int);
                assert(im2 as int == truncated_div(
                    2 * ((zre as int) * (zim as int)),
                    SN_ONE as int,
                ) + cim as int);
                assert(spec_mandel_escape(
                    zre as int,
                    zim as int,
                    cre as int,
                    cim as int,
                    i as int,
                    255,
                ) == i as int);
            }
            return (i as u8);
        }
        zre = re2;
        zim = im2;
        i = i + 1;
    }
    0
}

/// Nodes that compute a continuous colour.
pub enum FloatColorNodes {
    Gray,
    FromImage { image: Arc<Image> },
    FromCellArray,
    Grayscale { child: Box<UNFloatNodes> },
    RGB { r: Box<UNFloatNodes>, g: Box<UNFloatNodes>, b: Box<UNFloatNodes>, a: Box<UNFloatNodes> },
    HSV { h: Box<UNFloatNodes>, s: Box<UNFloatNodes>, v: Box<UNFloatNodes>, a: Box<UNFloatNodes> },
    FromBlend { child: Box<ColorBlendNodes> },
    FromBitColor { child: Box<BitColorNodes> },
    FromByteColor { child: Box<ByteColorNodes> },
    ModifyState { child: Box<FloatColorNodes>, child_state: Box<CoordMapNodes> },
    IfElse { predicate: Box<BooleanNodes>, child_a: Box<FloatColorNodes>, child_b: Box<FloatColorNodes> },
}

/// The continuous colour standing for a byte colour, as a spec value.
pub open spec fn spec_float_of_byte(c: ByteColor) -> FloatColor {
    FloatColor {
        r: UNFloat { value: (c.r * 512) as i32 },
        g: UNFloat { value: (c.g * 512) as i32 },
        b: UNFloat { value: (c.b * 512) as i32 },
        a: UNFloat { value: (c.a * 512) as i32 },
    }
}

/// The continuous colour standing for a bit colour, as a spec value.
pub open spec fn spec_float_of_bit(c: BitColor) -> FloatColor {
    let comp = c.bit_components();
    FloatColor {
        r: UNFloat {
            value: if comp.0 {
                UN_ONE
            } else {
                0
            },
        },
        g: UNFloat {
            value: if comp.1 {
                UN_ONE
            } else {
                0
            },
        },
        b: UNFloat {
            value: if comp.2 {
                UN_ONE
            } else {
                0
            },
        },
        a: UNFloat { value: UN_ONE },
    }
}

impl FloatColorNodes {
    pub open spec fn wf(self) -> bool
        decreases self,
    {
        match self {
            FloatColorNodes::Gray => true,
            FloatColorNodes::FromImage { image } => image.wf(),
            FloatColorNodes::FromCellArray => true,
            FloatColorNodes::Grayscale { child } => child.wf(),
            FloatColorNodes::RGB { r, g, b, a } => r.wf() && g.wf() && b.wf() && a.wf(),
            FloatColorNodes::HSV { h, s, v, a } => h.wf() && s.wf() && v.wf() && a.wf(),
            FloatColorNodes::FromBlend { child } => child.wf(),
            FloatColorNodes::FromBitColor { child } => child.wf(),
            FloatColorNodes::FromByteColor { child } => child.wf(),
            FloatColorNodes::ModifyState { child, child_state } => child.wf() && child_state.wf(),
            FloatColorNodes::IfElse { predicate, child_a, child_b } => predicate.wf()
                && child_a.wf() && child_b.wf(),
        }
    }

    pub open spec fn spec_compute(self, coord: CoordinateSet, history: History) -> FloatColor
        decreases self,
    {
        match self {
            FloatColorNodes::Gray => FloatColor {
                r: UNFloat { value: UN_ONE },
                g: UNFloat { value: UN_ONE },
                b: UNFloat { value: UN_ONE },
                a: UNFloat { value: UN_ONE },
            },
            FloatColorNodes::FromImage { image } => spec_float_of_byte(
                spec_image_color(*image, coord),
            ),
            FloatColorNodes::FromCellArray => spec_float_of_byte(spec_cell_color(history, coord)),
            FloatColorNodes::Grayscale { child } => {
                let v = child.spec_compute(coord, history);
                FloatColor { r: v, g: v, b: v, a: v }
            },
            FloatColorNodes::RGB { r, g, b, a } => FloatColor {
                r: r.spec_compute(coord, history),
                g: g.spec_compute(coord, history),
                b: b.spec_compute(coord, history),
                a: a.spec_compute(coord, history),
            },
            FloatColorNodes::HSV { h, s, v, a } => {
                let hv = h.spec_compute(coord, history);
                let sv = s.spec_compute(coord, history);
                let vv = v.spec_compute(coord, history);
                let av = a.spec_compute(coord, history);
                let rgb = hsv_to_rgb_spec(hv.value as int, sv.value as int, vv.value as int);
                FloatColor {
                    r: UNFloat { value: rgb.0 as i32 },
                    g: UNFloat { value: rgb.1 as i32 },
                    b: UNFloat { value: rgb.2 as i32 },
                    a: av,
                }
            },
            FloatColorNodes::FromBlend { child } => child.spec_compute(coord, history),
            FloatColorNodes::FromBitColor { child } => spec_float_of_bit(
                child.spec_compute(coord, history),
            ),
            FloatColorNodes::FromByteColor { child } => spec_float_of_byte(
                child.spec_compute(coord, history),
            ),
            FloatColorNodes::ModifyState { child, child_state } => child.spec_compute(
                child_state.spec_compute(coord, history),
                history,
            ),
            FloatColorNodes::IfElse { predicate, child_a, child_b } => {
                if predicate.spec_compute(coord, history).value {
                    child_a.spec_compute(coord, history)
                } else {
                    child_b.spec_compute(coord, history)
                }
            },
        }
    }

    /// Evaluate the node against a context.
    pub fn compute(&self, state: UpdateState) -> (r: FloatColor)
        requires
            self.wf(),
            state.wf(),
        ensures
            r == self.spec_compute(state.coordinate_set, *state.history),
            r.wf(),
        decreases *self,
    {
        match self {
            FloatColorNodes::Gray => FloatColor::white(),
            FloatColorNodes::FromImage { image } => FloatColor::from_byte_color(
                image_color(&**image, state.coordinate_set),
            ),
            FloatColorNodes::FromCellArray => FloatColor::from_byte_color(
                cell_color(state.history, state.coordinate_set),
            ),
            FloatColorNodes::Grayscale { child } => {
                let v: UNFloat = child.compute(state);
                FloatColor { r: v, g: v, b: v, a: v }
            },
            FloatColorNodes::RGB { r, g, b, a } => FloatColor {
                r: r.compute(state),
                g: g.compute(state),
                b: b.compute(state),
                a: a.compute(state),
            },
            FloatColorNodes::HSV { h, s, v, a } => hsv_to_rgb(
                h.compute(state),
                s.compute(state),
                v.compute(state),
                a.compute(state),
            ),
            FloatColorNodes::FromBlend { child } => child.compute(state),
            FloatColorNodes::FromBitColor { child } => FloatColor::from_bit_color(
                child.compute(state),
            ),
            FloatColorNodes::FromByteColor { child } => FloatColor::from_byte_color(
                child.compute(state),
            ),
            FloatColorNodes::ModifyState { child, child_state } => child.compute(
                UpdateState { coordinate_set: child_state.compute(state), ..state },
            ),
            FloatColorNodes::IfElse { predicate, child_a, child_b } => {
                if predicate.compute(state).into_inner() {
                    child_a.compute(state)
                } else {
                    child_b.compute(state)
                }
            },
        }
    }
}

/// Nodes that compute a bit colour.
pub enum BitColorNodes {
    Constant { value: BitColor },
    GiveColor { child_a: Box<BitColorNodes>, child_b: Box<BitColorNodes> },
    TakeColor { child_a: Box<BitColorNodes>, child_b: Box<BitColorNodes> },
    XorColor { child_a: Box<BitColorNodes>, child_b: Box<BitColorNodes> },
    EqColor { child_a: Box<BitColorNodes>, child_b: Box<BitColorNodes> },
    FromComponents { r: Box<BooleanNodes>, g: Box<BooleanNodes>, b: Box<BooleanNodes> },
    FromImage { image: Arc<Image> },
    FromCellArray,
    FromUNFloat { child: Box<UNFloatNodes> },
    FromFloatColor { child: Box<FloatColorNodes> },
    FromByteColor { child: Box<ByteColorNodes> },
    FromNibbleIndex { child: Box<NibbleNodes> },
    ModifyState { child: Box<BitColorNodes>, child_state: Box<CoordMapNodes> },
    IfElse { predicate: Box<BooleanNodes>, child_a: Box<BitColorNodes>, child_b: Box<BitColorNodes> },
}

/// The bit colour a unit-range value selects: the unit range scanned
/// over the eight colours, scaled just short of the top so that a full
/// unit still lands on the last colour.
pub open spec fn spec_bit_of_unit(u: int) -> BitColor {
    BitColor::spec_from_index((u * 792) / 13107200)
}

impl BitColor {
    /// The colour at a position of the fixed eight-colour order, as a
    /// spec value.
    pub open spec fn spec_from_index(i: int) -> BitColor {
        if i == 0 {
            BitColor::Black
        } else if i == 1 {
            BitColor::Red
        } else if i == 2 {
            BitColor::Green
        } else if i == 3 {
            BitColor::Blue
        } else if i == 4 {
            BitColor::Cyan
        } else if i == 5 {
            BitColor::Magenta
        } else if i == 6 {
            BitColor::Yellow
        } else {
            BitColor::White
        }
    }
}

impl BitColorNodes {
    pub open spec fn wf(self) -> bool
        decreases self,
    {
        match self {
            BitColorNodes::Constant { value } => true,
            BitColorNodes::GiveColor { child_a, child_b } => child_a.wf() && child_b.wf(),
            BitColorNodes::TakeColor { child_a, child_b } => child_a.wf() && child_b.wf(),
            BitColorNodes::XorColor { child_a, child_b } => child_a.wf() && child_b.wf(),
            BitColorNodes::EqColor { child_a, child_b } => child_a.wf() && child_b.wf(),
            BitColorNodes::FromComponents { r, g, b } => r.wf() && g.wf() && b.wf(),
            BitColorNodes::FromImage { image } => image.wf(),
            BitColorNodes::FromCellArray => true,
            BitColorNodes::FromUNFloat { child } => child.wf(),
            BitColorNodes::FromFloatColor { child } => child.wf(),
            BitColorNodes::FromByteColor { child } => child.wf(),
            BitColorNodes::FromNibbleIndex { child } => child.wf(),
            BitColorNodes::ModifyState { child, child_state } => child.wf() && child_state.wf(),
            BitColorNodes::IfElse { predicate, child_a, child_b } => predicate.wf() && child_a.wf()
                && child_b.wf(),
        }
    }

    pub open spec fn spec_compute(self, coord: CoordinateSet, history: History) -> BitColor
        decreases self,
    {
        match self {
            BitColorNodes::Constant { value } => value,
            BitColorNodes::GiveColor { child_a, child_b } => {
                let a = child_a.spec_compute(coord, history).bit_components();
                let b = child_b.spec_compute(coord, history).bit_components();
                BitColor::spec_from_components((a.0 || b.0, a.1 || b.1, a.2 || b.2))
            },
            BitColorNodes::TakeColor { child_a, child_b } => {
                let a = child_a.spec_compute(coord, history).bit_components();
                let b = child_b.spec_compute(coord, history).bit_components();
                BitColor::spec_from_components((a.0 && !b.0, a.1 && !b.1, a.2 && !b.2))
            },
            BitColorNodes::XorColor { child_a, child_b } => {
                let a = child_a.spec_compute(coord, history).bit_components();
                let b = child_b.spec_compute(coord, history).bit_components();
                BitColor::spec_from_components((a.0 != b.0, a.1 != b.1, a.2 != b.2))
            },
            BitColorNodes::EqColor { child_a, child_b } => {
                let a = child_a.spec_compute(coord, history).bit_components();
                let b = child_b.spec_compute(coord, history).bit_components();
                BitColor::spec_from_components((a.0 == b.0, a.1 == b.1, a.2 == b.2))
            },
            BitColorNodes::FromComponents { r, g, b } => BitColor::spec_from_components(
                (
                    r.spec_compute(coord, history).value,
                    g.spec_compute(coord, history).value,
                    b.spec_compute(coord, history).value,
                ),
            ),
            BitColorNodes::FromImage { image } => {
                let c = spec_image_color(*image, coord);
                BitColor::spec_from_components((c.r >= 127, c.g >= 127, c.b >= 127))
            },
            BitColorNodes::FromCellArray => {
                let c = spec_cell_color(history, coord);
                BitColor::spec_from_components((c.r >= 127, c.g >= 127, c.b >= 127))
            },
            BitColorNodes::FromUNFloat { child } => spec_bit_of_unit(
                child.spec_compute(coord, history).value as int,
            ),
            BitColorNodes::FromFloatColor { child } => {
                let c = child.spec_compute(coord, history);
                BitColor::spec_from_components(
                    (
                        c.r.value >= UN_ONE / 2,
                        c.g.value >= UN_ONE / 2,
                        c.b.value >= UN_ONE / 2,
                    ),
                )
            },
            BitColorNodes::FromByteColor { child } => {
                let c = child.spec_compute(coord, history);
                BitColor::spec_from_components((c.r >= 127, c.g >= 127, c.b >= 127))
            },
            BitColorNodes::FromNibbleIndex { child } => BitColor::spec_from_index(
                (child.spec_compute(coord, history).value as int) % 8,
            ),
            BitColorNodes::ModifyState { child, child_state } => child.spec_compute(
                child_state.spec_compute(coord, history),
                history,
            ),
            BitColorNodes::IfElse { predicate, child_a, child_b } => {
                if predicate.spec_compute(coord, history).value {
                    child_a.spec_compute(coord, history)
                } else {
                    child_b.spec_compute(coord, history)
                }
            },
        }
    }

    /// Evaluate the node against a context.
    pub fn compute(&self, state: UpdateState) -> (r: BitColor)
        requires
            self.wf(),
            state.wf(),
        ensures
            r == self.spec_compute(state.coordinate_set, *state.history),
        decreases *self,
    {
        match self {
            BitColorNodes::Constant { value } => *value,
            BitColorNodes::GiveColor { child_a, child_b } => BitColor::from_components(
                child_a.compute(state).give_color(child_b.compute(state)),
            ),
            BitColorNodes::TakeColor { child_a, child_b } => BitColor::from_components(
                child_a.compute(state).take_color(child_b.compute(state)),
            ),
            BitColorNodes::XorColor { child_a, child_b } => BitColor::from_components(
                child_a.compute(state).xor_color(child_b.compute(state)),
            ),
            BitColorNodes::EqColor { child_a, child_b } => BitColor::from_components(
                child_a.compute(state).eq_color(child_b.compute(state)),
            ),
            BitColorNodes::FromComponents { r, g, b } => BitColor::from_components(
                (
                    r.compute(state).into_inner(),
                    g.compute(state).into_inner(),
                    b.compute(state).into_inner(),
                ),
            ),
            BitColorNodes::FromImage { image } => {
                let c: ByteColor = image_color(&**image, state.coordinate_set);
                BitColor::from_byte_color(c)
            },
            BitColorNodes::FromCellArray => {
                let c: ByteColor = cell_color(state.history, state.coordinate_set);
                BitColor::from_byte_color(c)
            },
            BitColorNodes::FromUNFloat { child } => {
                let u: i64 = child.compute(state).into_inner() as i64;
                let idx: i64 = (u * 792) / 13107200;
                assert(0 <= u * 792 <= 131072 * 792) by (nonlinear_arith)
                    requires
                        0 <= u <= 131072,
                ;
                proof {
                    vstd::arithmetic::div_mod::lemma_div_pos_is_pos(u as int * 792, 13107200);
                    vstd::arithmetic::div_mod::lemma_div_is_ordered(
                        u as int * 792,
                        131072int * 792,
                        13107200,
                    );
                }
                BitColor::from_index(idx as usize)
            },
            BitColorNodes::FromFloatColor { child } => BitColor::from_float_color(
                child.compute(state),
            ),
            BitColorNodes::FromByteColor { child } => BitColor::from_byte_color(
                child.compute(state),
            ),
            BitColorNodes::FromNibbleIndex { child } => {
                let n: u8 = child.compute(state).into_inner();
                proof {
                    vstd::arithmetic::div_mod::lemma_mod_division_less_than_divisor(n as int, 8);
                }
                BitColor::from_index((n % 8) as usize)
            },
            BitColorNodes::ModifyState { child, child_state } => child.compute(
                UpdateState { coordinate_set: child_state.compute(state), ..state },
            ),
            BitColorNodes::IfElse { predicate, child_a, child_b } => {
                if predicate.compute(state).into_inner() {
                    child_a.compute(state)
                } else {
                    child_b.compute(state)
                }
            },
        }
    }
}

/// Nodes that compute a byte colour.
pub enum ByteColorNodes {
    Constant { value: ByteColor },
    FromImage { image: Arc<Image> },
    FromCellArray,
    Mandelbrot,
    FromFloatColor { child: Box<FloatColorNodes> },
    FromBitColor { child: Box<FloatColorNodes> },
    Decompose { r: Box<ByteNodes>, g: Box<ByteNodes>, b: Box<ByteNodes>, a: Box<ByteNodes> },
    ModifyState { child: Box<ByteColorNodes>, child_state: Box<CoordMapNodes> },
    IfElse { predicate: Box<BooleanNodes>, child_a: Box<ByteColorNodes>, child_b: Box<ByteColorNodes> },
}

/// The byte colour standing for a continuous colour, as a spec value.
pub open spec fn spec_byte_of_float(c: FloatColor) -> ByteColor {
    ByteColor {
        r: (c.r.value * 255 / (UN_ONE as int)) as u8,
        g: (c.g.value * 255 / (UN_ONE as int)) as u8,
        b: (c.b.value * 255 / (UN_ONE as int)) as u8,
        a: (c.a.value * 255 / (UN_ONE as int)) as u8,
    }
}

impl ByteColorNodes {
    pub open spec fn wf(self) -> bool
        decreases self,
    {
        match self {
            ByteColorNodes::Constant { value } => true,
            ByteColorNodes::FromImage { image } => image.wf(),
            ByteColorNodes::FromCellArray => true,
            ByteColorNodes::Mandelbrot => true,
            ByteColorNodes::FromFloatColor { child } => child.wf(),
            ByteColorNodes::FromBitColor { child } => child.wf(),
            ByteColorNodes::Decompose { r, g, b, a } => r.wf() && g.wf() && b.wf() && a.wf(),
            ByteColorNodes::ModifyState { child, child_state } => child.wf() && child_state.wf(),
            ByteColorNodes::IfElse { predicate, child_a, child_b } => predicate.wf()
                && child_a.wf() && child_b.wf(),
        }
    }

    pub open spec fn spec_compute(self, coord: CoordinateSet, history: History) -> ByteColor
        decreases self,
    {
        match self {
            ByteColorNodes::Constant { value } => value,
            ByteColorNodes::FromImage { image } => spec_image_color(*image, coord),
            ByteColorNodes::FromCellArray => spec_cell_color(history, coord),
            ByteColorNodes::Mandelbrot => {
                let e = spec_mandel_escape(
                    0,
                    0,
                    2 * coord.x.value as int,
                    coord.y.value as int,
                    0,
                    255,
                );
                ByteColor { r: e as u8, g: e as u8, b: e as u8, a: 255 }
            },
            ByteColorNodes::FromFloatColor { child } => spec_byte_of_float(
                child.spec_compute(coord, history),
            ),
            ByteColorNodes::FromBitColor { child } => spec_byte_of_float(
                child.spec_compute(coord, history),
            ),
            ByteColorNodes::Decompose { r, g, b, a } => ByteColor {
                r: r.spec_compute(coord, history).value,
                g: g.spec_compute(coord, history).value,
                b: b.spec_compute(coord, history).value,
                a: a.spec_compute(coord, history).value,
            },
            ByteColorNodes::ModifyState { child, child_state } => child.spec_compute(
                child_state.spec_compute(coord, history),
                history,
            ),
            ByteColorNodes::IfElse { predicate, child_a, child_b } => {
                if predicate.spec_compute(coord, history).value {
                    child_a.spec_compute(coord, history)
                } else {
                    child_b.spec_compute(coord, history)
                }
            },
        }
    }

    /// Evaluate the node against a context.
    pub fn compute(&self, state: UpdateState) -> (r: ByteColor)
        requires
            self.wf(),
            state.wf(),
        ensures
            r == self.spec_compute(state.coordinate_set, *state.history),
        decreases *self,
    {
        match self {
            ByteColorNodes::Constant { value } => *value,
            ByteColorNodes::FromImage { image } => image_color(&**image, state.coordinate_set),
            ByteColorNodes::FromCellArray => cell_color(state.history, state.coordinate_set),
            ByteColorNodes::Mandelbrot => {
                let e: u8 = mandel_byte(state.coordinate_set);
                ByteColor { r: e, g: e, b: e, a: 255 }
            },
            ByteColorNodes::FromFloatColor { child } => ByteColor::from_float_color(
                child.compute(state),
            ),
            ByteColorNodes::FromBitColor { child } => ByteColor::from_float_color(
                child.compute(state),
            ),
            ByteColorNodes::Decompose { r, g, b, a } => ByteColor {
                r: r.compute(state).into_inner(),
                g: g.compute(state).into_inner(),
                b: b.compute(state).into_inner(),
                a: a.compute(state).into_inner(),
            },
            ByteColorNodes::ModifyState { child, child_state } => child.compute(
                UpdateState { coordinate_set: child_state.compute(state), ..state },
            ),
            ByteColorNodes::IfElse { predicate, child_a, child_b } => {
                if predicate.compute(state).into_inner() {
                    child_a.compute(state)
                } else {
                    child_b.compute(state)
                }
            },
        }
    }
}


impl FloatColorNodes {
    /// Whether every node of the tree sits at a depth where its
    /// generation weight is positive.
    pub open spec fn depth_ok(self, cfg: GrammarConfig, d: int) -> bool
        decreases self,
    {
        match self {
            FloatColorNodes::Gray => spec_leaf_weight(cfg, d) > 0,
            FloatColorNodes::FromImage { image } => spec_leaf_weight(cfg, d) > 0,
            FloatColorNodes::FromCellArray => spec_leaf_weight(cfg, d) > 0,
            FloatColorNodes::Grayscale { child } => spec_pipe_weight(cfg, d) > 0 && child.depth_ok(cfg, d + 1),
            FloatColorNodes::FromBlend { child } => spec_pipe_weight(cfg, d) > 0 && child.depth_ok(cfg, d + 1),
            FloatColorNodes::FromBitColor { child } => spec_pipe_weight(cfg, d) > 0 && child.depth_ok(cfg, d + 1),
            FloatColorNodes::FromByteColor { child } => spec_pipe_weight(cfg, d) > 0 && child.depth_ok(cfg, d + 1),
            FloatColorNodes::RGB { r, g, b, a } => spec_branch_weight(cfg, d) > 0 && r.depth_ok(cfg, d + 1) && g.depth_ok(cfg, d + 1) && b.depth_ok(cfg, d + 1) && a.depth_ok(cfg, d + 1),
            FloatColorNodes::HSV { h, s, v, a } => spec_branch_weight(cfg, d) > 0 && h.depth_ok(cfg, d + 1) && s.depth_ok(cfg, d + 1) && v.depth_ok(cfg, d + 1) && a.depth_ok(cfg, d + 1),
            FloatColorNodes::ModifyState { child, child_state } => spec_branch_weight(cfg, d) > 0 && child.depth_ok(cfg, d + 1) && child_state.depth_ok(cfg, d + 1),
            FloatColorNodes::IfElse { predicate, child_a, child_b } => spec_branch_weight(cfg, d) > 0 && predicate.depth_ok(cfg, d + 1) && child_a.depth_ok(cfg, d + 1) && child_b.depth_ok(cfg, d + 1),
        }
    }

    /// Grow a fresh tree at a depth: the weighted draw selects the
    /// leaf, pipe or branch class, a uniform pick within the class
    /// chooses the variant, and children grow one level deeper.
    pub fn generate_rng(rng: &mut DeterministicRng, state: State, ctx: &GenContext) -> (r: Self)
        requires
            ctx.wf(),
            state.depth <= ctx.cfg.max_leaf_depth,
        ensures
            r.wf(),
            r.depth_ok(ctx.cfg, state.depth as int),
            r == Self::spec_generate(
                old(rng).state,
                state.depth as int,
                ctx.cfg,
                ctx.image,
            ).0,
            final(rng).state == Self::spec_generate(
                old(rng).state,
                state.depth as int,
                ctx.cfg,
                ctx.image,
            ).1,
        decreases ctx.cfg.max_leaf_depth - state.depth,
    {
        let d: usize = state.depth;
        let lw: u64 = ctx.cfg.leaf_weight(d);
        let pw: u64 = ctx.cfg.pipe_weight(d);
        let bw: u64 = ctx.cfg.branch_weight(d);
        let v: Vec<u64> = class_weights(lw * 3, pw * 4, bw * 4, 0);
        let roll: u64 = rng.below(lw * 3 + pw * 4 + bw * 4);
        let idx: usize = pick_weighted(&v, roll);
        if idx == 0 {
            let k: u64 = class_index(roll, 0, lw, 3);
            if k == 0 {
                FloatColorNodes::Gray
            } else if k == 1 {
                FloatColorNodes::FromImage {
                    image: share_image(&ctx.image),
                }
            } else {
                FloatColorNodes::FromCellArray
            }
        } else if idx == 1 {
            let k: u64 = class_index(roll, lw * 3, pw, 4);
            if k == 0 {
                FloatColorNodes::Grayscale {
                    child: Box::new(UNFloatNodes::generate_rng(rng, state.deepen(), ctx)),
                }
            } else if k == 1 {
                FloatColorNodes::FromBlend {
                    child: Box::new(ColorBlendNodes::generate_rng(rng, state.deepen(), ctx)),
                }
            } else if k == 2 {
                FloatColorNodes::FromBitColor {
                    child: Box::new(BitColorNodes::generate_rng(rng, state.deepen(), ctx)),
                }
            } else {
                FloatColorNodes::FromByteColor {
                    child: Box::new(ByteColorNodes::generate_rng(rng, state.deepen(), ctx)),
                }
            }
        } else {
            proof {
                assert(idx == 2);
            }
            let k: u64 = class_index(roll, lw * 3 + pw * 4, bw, 4);
            if k == 0 {
                FloatColorNodes::RGB {
                    r: Box::new(UNFloatNodes::generate_rng(rng, state.deepen(), ctx)),
                    g: Box::new(UNFloatNodes::generate_rng(rng, state.deepen(), ctx)),
                    b: Box::new(UNFloatNodes::generate_rng(rng, state.deepen(), ctx)),
                    a: Box::new(UNFloatNodes::generate_rng(rng, state.deepen(), ctx)),
                }
            } else if k == 1 {
                FloatColorNodes::HSV {
                    h: Box::new(UNFloatNodes::generate_rng(rng, state.deepen(), ctx)),
                    s: Box::new(UNFloatNodes::generate_rng(rng, state.deepen(), ctx)),
                    v: Box::new(UNFloatNodes::generate_rng(rng, state.deepen(), ctx)),
                    a: Box::new(UNFloatNodes::generate_rng(rng, state.deepen(), ctx)),
                }
            } else if k == 2 {
                FloatColorNodes::ModifyState {
                    child: Box::new(FloatColorNodes::generate_rng(rng, state.deepen(), ctx)),
                    child_state: Box::new(CoordMapNodes::generate_rng(rng, state.deepen(), ctx)),
                }
            } else {
                FloatColorNodes::IfElse {
                    predicate: Box::new(BooleanNodes::generate_rng(rng, state.deepen(), ctx)),
                    child_a: Box::new(FloatColorNodes::generate_rng(rng, state.deepen(), ctx)),
                    child_b: Box::new(FloatColorNodes::generate_rng(rng, state.deepen(), ctx)),
                }
            }
        }
    }

    /// Whether one tree can come out of the other by a single
    /// mutation walk: the shape is unchanged except that leaf data may
    /// be rewritten along exactly one path.
    pub open spec fn one_path(self, other: Self) -> bool
        decreases self,
    {
        match (self, other) {
            (FloatColorNodes::Gray, FloatColorNodes::Gray) => true,
            (FloatColorNodes::FromImage { image: image1 }, FloatColorNodes::FromImage { image: image2 }) => true,
            (FloatColorNodes::FromCellArray, FloatColorNodes::FromCellArray) => true,
            (FloatColorNodes::Grayscale { child: child1 }, FloatColorNodes::Grayscale { child: child2 }) => ((*child1).one_path(*child2)),
            (FloatColorNodes::FromBlend { child: child1 }, FloatColorNodes::FromBlend { child: child2 }) => ((*child1).one_path(*child2)),
            (FloatColorNodes::FromBitColor { child: child1 }, FloatColorNodes::FromBitColor { child: child2 }) => ((*child1).one_path(*child2)),
            (FloatColorNodes::FromByteColor { child: child1 }, FloatColorNodes::FromByteColor { child: child2 }) => ((*child1).one_path(*child2)),
            (FloatColorNodes::RGB { r: r1, g: g1, b: b1, a: a1 }, FloatColorNodes::RGB { r: r2, g: g2, b: b2, a: a2 }) => ((*r1).one_path(*r2) && g1 == g2 && b1 == b2 && a1 == a2) || (r1 == r2 && (*g1).one_path(*g2) && b1 == b2 && a1 == a2) || (r1 == r2 && g1 == g2 && (*b1).one_path(*b2) && a1 == a2) || (r1 == r2 && g1 == g2 && b1 == b2 && (*a1).one_path(*a2)),
            (FloatColorNodes::HSV { h: h1, s: s1, v: v1, a: a1 }, FloatColorNodes::HSV { h: h2, s: s2, v: v2, a: a2 }) => ((*h1).one_path(*h2) && s1 == s2 && v1 == v2 && a1 == a2) || (h1 == h2 && (*s1).one_path(*s2) && v1 == v2 && a1 == a2) || (h1 == h2 && s1 == s2 && (*v1).one_path(*v2) && a1 == a2) || (h1 == h2 && s1 == s2 && v1 == v2 && (*a1).one_path(*a2)),
            (FloatColorNodes::ModifyState { child: child1, child_state: child_state1 }, FloatColorNodes::ModifyState { child: child2, child_state: child_state2 }) => ((*child1).one_path(*child2) && child_state1 == child_state2) || (child1 == child2 && (*child_state1).one_path(*child_state2)),
            (FloatColorNodes::IfElse { predicate: predicate1, child_a: child_a1, child_b: child_b1 }, FloatColorNodes::IfElse { predicate: predicate2, child_a: child_a2, child_b: child_b2 }) => ((*predicate1).one_path(*predicate2) && child_a1 == child_a2 && child_b1 == child_b2) || (predicate1 == predicate2 && (*child_a1).one_path(*child_a2) && child_b1 == child_b2) || (predicate1 == predicate2 && child_a1 == child_a2 && (*child_b1).one_path(*child_b2)),
            _ => false,
        }
    }

    /// Mutate the tree at a depth: with the configured probability
    /// the whole subtree is rerolled fresh; otherwise one child (or the
    /// leaf's own data) is chosen and the walk continues there alone.
    pub fn mutate_rng(self, rng: &mut DeterministicRng, state: State, ctx: &GenContext) -> (r: Self)
        requires
            ctx.wf(),
            state.depth <= ctx.cfg.max_leaf_depth,
            self.wf(),
            self.depth_ok(ctx.cfg, state.depth as int),
        ensures
            r.wf(),
            r.depth_ok(ctx.cfg, state.depth as int),
            ctx.cfg.mut_reroll == 0 ==> self.one_path(r),
            r == self.spec_mutate(old(rng).state, state.depth as int, ctx.cfg, ctx.image).0,
            final(rng).state == self.spec_mutate(
                old(rng).state,
                state.depth as int,
                ctx.cfg,
                ctx.image,
            ).1,
        decreases ctx.cfg.max_leaf_depth - state.depth,
    {
        if rng.chance(ctx.cfg.mut_reroll) {
            FloatColorNodes::generate_rng(rng, state, ctx)
        } else {
            match self {
                FloatColorNodes::Gray => FloatColorNodes::Gray,
                FloatColorNodes::FromImage { image } => FloatColorNodes::FromImage { image: share_image(&ctx.image) },
                FloatColorNodes::FromCellArray => FloatColorNodes::FromCellArray,
                FloatColorNodes::Grayscale { child } => FloatColorNodes::Grayscale { child: Box::new(child.mutate_rng(rng, state.deepen(), ctx)) },
                FloatColorNodes::FromBlend { child } => FloatColorNodes::FromBlend { child: Box::new(child.mutate_rng(rng, state.deepen(), ctx)) },
                FloatColorNodes::FromBitColor { child } => FloatColorNodes::FromBitColor { child: Box::new(child.mutate_rng(rng, state.deepen(), ctx)) },
                FloatColorNodes::FromByteColor { child } => FloatColorNodes::FromByteColor { child: Box::new(child.mutate_rng(rng, state.deepen(), ctx)) },
                FloatColorNodes::RGB { r, g, b, a } => {
                    let j: u64 = rng.below(4);
                    if j == 0 {
                        FloatColorNodes::RGB { r: Box::new(r.mutate_rng(rng, state.deepen(), ctx)), g, b, a }
                    } else if j == 1 {
                        FloatColorNodes::RGB { r, g: Box::new(g.mutate_rng(rng, state.deepen(), ctx)), b, a }
                    } else if j == 2 {
                        FloatColorNodes::RGB { r, g, b: Box::new(b.mutate_rng(rng, state.deepen(), ctx)), a }
                    } else {
                        FloatColorNodes::RGB { r, g, b, a: Box::new(a.mutate_rng(rng, state.deepen(), ctx)) }
                    }
                },
                FloatColorNodes::HSV { h, s, v, a } => {
                    let j: u64 = rng.below(4);
                    if j == 0 {
                        FloatColorNodes::HSV { h: Box::new(h.mutate_rng(rng, state.deepen(), ctx)), s, v, a }
                    } else if j == 1 {
                        FloatColorNodes::HSV { h, s: Box::new(s.mutate_rng(rng, state.deepen(), ctx)), v, a }
                    } else if j == 2 {
                        FloatColorNodes::HSV { h, s, v: Box::new(v.mutate_rng(rng, state.deepen(), ctx)), a }
                    } else {
                        FloatColorNodes::HSV { h, s, v, a: Box::new(a.mutate_rng(rng, state.deepen(), ctx)) }
                    }
                },
                FloatColorNodes::ModifyState { child, child_state } => {
                    let j: u64 = rng.below(2);
                    if j == 0 {
                        FloatColorNodes::ModifyState { child: Box::new(child.mutate_rng(rng, state.deepen(), ctx)), child_state }
                    } else {
                        FloatColorNodes::ModifyState { child, child_state: Box::new(child_state.mutate_rng(rng, state.deepen(), ctx)) }
                    }
                },
                FloatColorNodes::IfElse { predicate, child_a, child_b } => {
                    let j: u64 = rng.below(3);
                    if j == 0 {
                        FloatColorNodes::IfElse { predicate: Box::new(predicate.mutate_rng(rng, state.deepen(), ctx)), child_a, child_b }
                    } else if j == 1 {
                        FloatColorNodes::IfElse { predicate, child_a: Box::new(child_a.mutate_rng(rng, state.deepen(), ctx)), child_b }
                    } else {
                        FloatColorNodes::IfElse { predicate, child_a, child_b: Box::new(child_b.mutate_rng(rng, state.deepen(), ctx)) }
                    }
                },
            }
        }
    }
}

impl BitColorNodes {
    /// Whether every node of the tree sits at a depth where its
    /// generation weight is positive.
    pub open spec fn depth_ok(self, cfg: GrammarConfig, d: int) -> bool
        decreases self,
    {
        match self {
            BitColorNodes::Constant { value } => spec_leaf_weight(cfg, d) > 0,
            BitColorNodes::FromImage { image } => spec_leaf_weight(cfg, d) > 0,
            BitColorNodes::FromCellArray => spec_leaf_weight(cfg, d) > 0,
            BitColorNodes::FromUNFloat { child } => spec_pipe_weight(cfg, d) > 0 && child.depth_ok(cfg, d + 1),
            BitColorNodes::FromFloatColor { child } => spec_pipe_weight(cfg, d) > 0 && child.depth_ok(cfg, d + 1),
            BitColorNodes::FromByteColor { child } => spec_pipe_weight(cfg, d) > 0 && child.depth_ok(cfg, d + 1),
            BitColorNodes::FromNibbleIndex { child } => spec_pipe_weight(cfg, d) > 0 && child.depth_ok(cfg, d + 1),
            BitColorNodes::GiveColor { child_a, child_b } => spec_branch_weight(cfg, d) > 0 && child_a.depth_ok(cfg, d + 1) && child_b.depth_ok(cfg, d + 1),
            BitColorNodes::TakeColor { child_a, child_b } => spec_branch_weight(cfg, d) > 0 && child_a.depth_ok(cfg, d + 1) && child_b.depth_ok(cfg, d + 1),
            BitColorNodes::XorColor { child_a, child_b } => spec_branch_weight(cfg, d) > 0 && child_a.depth_ok(cfg, d + 1) && child_b.depth_ok(cfg, d + 1),
            BitColorNodes::EqColor { child_a, child_b } => spec_branch_weight(cfg, d) > 0 && child_a.depth_ok(cfg, d + 1) && child_b.depth_ok(cfg, d + 1),
            BitColorNodes::FromComponents { r, g, b } => spec_branch_weight(cfg, d) > 0 && r.depth_ok(cfg, d + 1) && g.depth_ok(cfg, d + 1) && b.depth_ok(cfg, d + 1),
            BitColorNodes::ModifyState { child, child_state } => spec_branch_weight(cfg, d) > 0 && child.depth_ok(cfg, d + 1) && child_state.depth_ok(cfg, d + 1),
            BitColorNodes::IfElse { predicate, child_a, child_b } => spec_branch_weight(cfg, d) > 0 && predicate.depth_ok(cfg, d + 1) && child_a.depth_ok(cfg, d + 1) && child_b.depth_ok(cfg, d + 1),
        }
    }

    /// Grow a fresh tree at a depth: the weighted draw selects the
    /// leaf, pipe or branch class, a uniform pick within the class
    /// chooses the variant, and children grow one level deeper.
    pub fn generate_rng(rng: &mut DeterministicRng, state: State, ctx: &GenContext) -> (r: Self)
        requires
            ctx.wf(),
            state.depth <= ctx.cfg.max_leaf_depth,
        ensures
            r.wf(),
            r.depth_ok(ctx.cfg, state.depth as int),
            r == Self::spec_generate(
                old(rng).state,
                state.depth as int,
                ctx.cfg,
                ctx.image,
            ).0,
            final(rng).state == Self::spec_generate(
                old(rng).state,
                state.depth as int,
                ctx.cfg,
                ctx.image,
            ).1,
        decreases ctx.cfg.max_leaf_depth - state.depth,
    {
        let d: usize = state.depth;
        let lw: u64 = ctx.cfg.leaf_weight(d);
        let pw: u64 = ctx.cfg.pipe_weight(d);
        let bw: u64 = ctx.cfg.branch_weight(d);
        let v: Vec<u64> = class_weights(lw * 3, pw * 4, bw * 7, 0);
        let roll: u64 = rng.below(lw * 3 + pw * 4 + bw * 7);
        let idx: usize = pick_weighted(&v, roll);
        if idx == 0 {
            let k: u64 = class_index(roll, 0, lw, 3);
            if k == 0 {
                BitColorNodes::Constant {
                    value: BitColor::from_components((rng.coin(), rng.coin(), rng.coin())),
                }
            } else if k == 1 {
                BitColorNodes::FromImage {
                    image: share_image(&ctx.image),
                }
            } else {
                BitColorNodes::FromCellArray
            }
        } else if idx == 1 {
            let k: u64 = class_index(roll, lw * 3, pw, 4);
            if k == 0 {
                BitColorNodes::FromUNFloat {
                    child: Box::new(UNFloatNodes::generate_rng(rng, state.deepen(), ctx)),
                }
            } else if k == 1 {
                BitColorNodes::FromFloatColor {
                    child: Box::new(FloatColorNodes::generate_rng(rng, state.deepen(), ctx)),
                }
            } else if k == 2 {
                BitColorNodes::FromByteColor {
                    child: Box::new(ByteColorNodes::generate_rng(rng, state.deepen(), ctx)),
                }
            } else {
                BitColorNodes::FromNibbleIndex {
                    child: Box::new(NibbleNodes::generate_rng(rng, state.deepen(), ctx)),
                }
            }
        } else {
            proof {
                assert(idx == 2);
            }
            let k: u64 = class_index(roll, lw * 3 + pw * 4, bw, 7);
            if k == 0 {
                BitColorNodes::GiveColor {
                    child_a: Box::new(BitColorNodes::generate_rng(rng, state.deepen(), ctx)),
                    child_b: Box::new(BitColorNodes::generate_rng(rng, state.deepen(), ctx)),
                }
            } else if k == 1 {
                BitColorNodes::TakeColor {
                    child_a: Box::new(BitColorNodes::generate_rng(rng, state.deepen(), ctx)),
                    child_b: Box::new(BitColorNodes::generate_rng(rng, state.deepen(), ctx)),
                }
            } else if k == 2 {
                BitColorNodes::XorColor {
                    child_a: Box::new(BitColorNodes::generate_rng(rng, state.deepen(), ctx)),
                    child_b: Box::new(BitColorNodes::generate_rng(rng, state.deepen(), ctx)),
                }
            } else if k == 3 {
                BitColorNodes::EqColor {
                    child_a: Box::new(BitColorNodes::generate_rng(rng, state.deepen(), ctx)),
                    child_b: Box::new(BitColorNodes::generate_rng(rng, state.deepen(), ctx)),
                }
            } else if k == 4 {
                BitColorNodes::FromComponents {
                    r: Box::new(BooleanNodes::generate_rng(rng, state.deepen(), ctx)),
                    g: Box::new(BooleanNodes::generate_rng(rng, state.deepen(), ctx)),
                    b: Box::new(BooleanNodes::generate_rng(rng, state.deepen(), ctx)),
                }
            } else if k == 5 {
                BitColorNodes::ModifyState {
                    child: Box::new(BitColorNodes::generate_rng(rng, state.deepen(), ctx)),
                    child_state: Box::new(CoordMapNodes::generate_rng(rng, state.deepen(), ctx)),
                }
            } else {
                BitColorNodes::IfElse {
                    predicate: Box::new(BooleanNodes::generate_rng(rng, state.deepen(), ctx)),
                    child_a: Box::new(BitColorNodes::generate_rng(rng, state.deepen(), ctx)),
                    child_b: Box::new(BitColorNodes::generate_rng(rng, state.deepen(), ctx)),
                }
            }
        }
    }

    /// Whether one tree can come out of the other by a single
    /// mutation walk: the shape is unchanged except that leaf data may
    /// be rewritten along exactly one path.
    pub open spec fn one_path(self, other: Self) -> bool
        decreases self,
    {
        match (self, other) {
            (BitColorNodes::Constant { value: value1 }, BitColorNodes::Constant { value: value2 }) => true,
            (BitColorNodes::FromImage { image: image1 }, BitColorNodes::FromImage { image: image2 }) => true,
            (BitColorNodes::FromCellArray, BitColorNodes::FromCellArray) => true,
            (BitColorNodes::FromUNFloat { child: child1 }, BitColorNodes::FromUNFloat { child: child2 }) => ((*child1).one_path(*child2)),
            (BitColorNodes::FromFloatColor { child: child1 }, BitColorNodes::FromFloatColor { child: child2 }) => ((*child1).one_path(*child2)),
            (BitColorNodes::FromByteColor { child: child1 }, BitColorNodes::FromByteColor { child: child2 }) => ((*child1).one_path(*child2)),
            (BitColorNodes::FromNibbleIndex { child: child1 }, BitColorNodes::FromNibbleIndex { child: child2 }) => ((*child1).one_path(*child2)),
            (BitColorNodes::GiveColor { child_a: child_a1, child_b: child_b1 }, BitColorNodes::GiveColor { child_a: child_a2, child_b: child_b2 }) => ((*child_a1).one_path(*child_a2) && child_b1 == child_b2) || (child_a1 == child_a2 && (*child_b1).one_path(*child_b2)),
            (BitColorNodes::TakeColor { child_a: child_a1, child_b: child_b1 }, BitColorNodes::TakeColor { child_a: child_a2, child_b: child_b2 }) => ((*child_a1).one_path(*child_a2) && child_b1 == child_b2) || (child_a1 == child_a2 && (*child_b1).one_path(*child_b2)),
            (BitColorNodes::XorColor { child_a: child_a1, child_b: child_b1 }, BitColorNodes::XorColor { child_a: child_a2, child_b: child_b2 }) => ((*child_a1).one_path(*child_a2) && child_b1 == child_b2) || (child_a1 == child_a2 && (*child_b1).one_path(*child_b2)),
            (BitColorNodes::EqColor { child_a: child_a1, child_b: child_b1 }, BitColorNodes::EqColor { child_a: child_a2, child_b: child_b2 }) => ((*child_a1).one_path(*child_a2) && child_b1 == child_b2) || (child_a1 == child_a2 && (*child_b1).one_path(*child_b2)),
            (BitColorNodes::FromComponents { r: r1, g: g1, b: b1 }, BitColorNodes::FromComponents { r: r2, g: g2, b: b2 }) => ((*r1).one_path(*r2) && g1 == g2 && b1 == b2) || (r1 == r2 && (*g1).one_path(*g2) && b1 == b2) || (r1 == r2 && g1 == g2 && (*b1).one_path(*b2)),
            (BitColorNodes::ModifyState { child: child1, child_state: child_state1 }, BitColorNodes::ModifyState { child: child2, child_state: child_state2 }) => ((*child1).one_path(*child2) && child_state1 == child_state2) || (child1 == child2 && (*child_state1).one_path(*child_state2)),
            (BitColorNodes::IfElse { predicate: predicate1, child_a: child_a1, child_b: child_b1 }, BitColorNodes::IfElse { predicate: predicate2, child_a: child_a2, child_b: child_b2 }) => ((*predicate1).one_path(*predicate2) && child_a1 == child_a2 && child_b1 == child_b2) || (predicate1 == predicate2 && (*child_a1).one_path(*child_a2) && child_b1 == child_b2) || (predicate1 == predicate2 && child_a1 == child_a2 && (*child_b1).one_path(*child_b2)),
            _ => false,
        }
    }

    /// Mutate the tree at a depth: with the configured probability
    /// the whole subtree is rerolled fresh; otherwise one child (or the
    /// leaf's own data) is chosen and the walk continues there alone.
    pub fn mutate_rng(self, rng: &mut DeterministicRng, state: State, ctx: &GenContext) -> (r: Self)
        requires
            ctx.wf(),
            state.depth <= ctx.cfg.max_leaf_depth,
            self.wf(),
            self.depth_ok(ctx.cfg, state.depth as int),
        ensures
            r.wf(),
            r.depth_ok(ctx.cfg, state.depth as int),
            ctx.cfg.mut_reroll == 0 ==> self.one_path(r),
            r == self.spec_mutate(old(rng).state, state.depth as int, ctx.cfg, ctx.image).0,
            final(rng).state == self.spec_mutate(
                old(rng).state,
                state.depth as int,
                ctx.cfg,
                ctx.image,
            ).1,
        decreases ctx.cfg.max_leaf_depth - state.depth,
    {
        if rng.chance(ctx.cfg.mut_reroll) {
            BitColorNodes::generate_rng(rng, state, ctx)
        } else {
            match self {
                BitColorNodes::Constant { value } => BitColorNodes::Constant { value: BitColor::from_components((rng.coin(), rng.coin(), rng.coin())) },
                BitColorNodes::FromImage { image } => BitColorNodes::FromImage { image: share_image(&ctx.image) },
                BitColorNodes::FromCellArray => BitColorNodes::FromCellArray,
                BitColorNodes::FromUNFloat { child } => BitColorNodes::FromUNFloat { child: Box::new(child.mutate_rng(rng, state.deepen(), ctx)) },
                BitColorNodes::FromFloatColor { child } => BitColorNodes::FromFloatColor { child: Box::new(child.mutate_rng(rng, state.deepen(), ctx)) },
                BitColorNodes::FromByteColor { child } => BitColorNodes::FromByteColor { child: Box::new(child.mutate_rng(rng, state.deepen(), ctx)) },
                BitColorNodes::FromNibbleIndex { child } => BitColorNodes::FromNibbleIndex { child: Box::new(child.mutate_rng(rng, state.deepen(), ctx)) },
                BitColorNodes::GiveColor { child_a, child_b } => {
                    let j: u64 = rng.below(2);
                    if j == 0 {
                        BitColorNodes::GiveColor { child_a: Box::new(child_a.mutate_rng(rng, state.deepen(), ctx)), child_b }
                    } else {
                        BitColorNodes::GiveColor { child_a, child_b: Box::new(child_b.mutate_rng(rng, state.deepen(), ctx)) }
                    }
                },
                BitColorNodes::TakeColor { child_a, child_b } => {
                    let j: u64 = rng.below(2);
                    if j == 0 {
                        BitColorNodes::TakeColor { child_a: Box::new(child_a.mutate_rng(rng, state.deepen(), ctx)), child_b }
                    } else {
                        BitColorNodes::TakeColor { child_a, child_b: Box::new(child_b.mutate_rng(rng, state.deepen(), ctx)) }
                    }
                },
                BitColorNodes::XorColor { child_a, child_b } => {
                    let j: u64 = rng.below(2);
                    if j == 0 {
                        BitColorNodes::XorColor { child_a: Box::new(child_a.mutate_rng(rng, state.deepen(), ctx)), child_b }
                    } else {
                        BitColorNodes::XorColor { child_a, child_b: Box::new(child_b.mutate_rng(rng, state.deepen(), ctx)) }
                    }
                },
                BitColorNodes::EqColor { child_a, child_b } => {
                    let j: u64 = rng.below(2);
                    if j == 0 {
                        BitColorNodes::EqColor { child_a: Box::new(child_a.mutate_rng(rng, state.deepen(), ctx)), child_b }
                    } else {
                        BitColorNodes::EqColor { child_a, child_b: Box::new(child_b.mutate_rng(rng, state.deepen(), ctx)) }
                    }
                },
                BitColorNodes::FromComponents { r, g, b } => {
                    let j: u64 = rng.below(3);
                    if j == 0 {
                        BitColorNodes::FromComponents { r: Box::new(r.mutate_rng(rng, state.deepen(), ctx)), g, b }
                    } else if j == 1 {
                        BitColorNodes::FromComponents { r, g: Box::new(g.mutate_rng(rng, state.deepen(), ctx)), b }
                    } else {
                        BitColorNodes::FromComponents { r, g, b: Box::new(b.mutate_rng(rng, state.deepen(), ctx)) }
                    }
                },
                BitColorNodes::ModifyState { child, child_state } => {
                    let j: u64 = rng.below(2);
                    if j == 0 {
                        BitColorNodes::ModifyState { child: Box::new(child.mutate_rng(rng, state.deepen(), ctx)), child_state }
                    } else {
                        BitColorNodes::ModifyState { child, child_state: Box::new(child_state.mutate_rng(rng, state.deepen(), ctx)) }
                    }
                },
                BitColorNodes::IfElse { predicate, child_a, child_b } => {
                    let j: u64 = rng.below(3);
                    if j == 0 {
                        BitColorNodes::IfElse { predicate: Box::new(predicate.mutate_rng(rng, state.deepen(), ctx)), child_a, child_b }
                    } else if j == 1 {
                        BitColorNodes::IfElse { predicate, child_a: Box::new(child_a.mutate_rng(rng, state.deepen(), ctx)), child_b }
                    } else {
                        BitColorNodes::IfElse { predicate, child_a, child_b: Box::new(child_b.mutate_rng(rng, state.deepen(), ctx)) }
                    }
                },
            }
        }
    }
}

impl ByteColorNodes {
    /// Whether every node of the tree sits at a depth where its
    /// generation weight is positive.
    pub open spec fn depth_ok(self, cfg: GrammarConfig, d: int) -> bool
        decreases self,
    {
        match self {
            ByteColorNodes::Constant { value } => spec_leaf_weight(cfg, d) > 0,
            ByteColorNodes::FromImage { image } => spec_leaf_weight(cfg, d) > 0,
            ByteColorNodes::FromCellArray => spec_leaf_weight(cfg, d) > 0,
            ByteColorNodes::Mandelbrot => spec_leaf_weight(cfg, d) > 0,
            ByteColorNodes::FromFloatColor { child } => spec_pipe_weight(cfg, d) > 0 && child.depth_ok(cfg, d + 1),
            ByteColorNodes::FromBitColor { child } => spec_pipe_weight(cfg, d) > 0 && child.depth_ok(cfg, d + 1),
            ByteColorNodes::Decompose { r, g, b, a } => spec_branch_weight(cfg, d) > 0 && r.depth_ok(cfg, d + 1) && g.depth_ok(cfg, d + 1) && b.depth_ok(cfg, d + 1) && a.depth_ok(cfg, d + 1),
            ByteColorNodes::ModifyState { child, child_state } => spec_branch_weight(cfg, d) > 0 && child.depth_ok(cfg, d + 1) && child_state.depth_ok(cfg, d + 1),
            ByteColorNodes::IfElse { predicate, child_a, child_b } => spec_branch_weight(cfg, d) > 0 && predicate.depth_ok(cfg, d + 1) && child_a.depth_ok(cfg, d + 1) && child_b.depth_ok(cfg, d + 1),
        }
    }

    /// Grow a fresh tree at a depth: the weighted draw selects the
    /// leaf, pipe or branch class, a uniform pick within the class
    /// chooses the variant, and children grow one level deeper.
    pub fn generate_rng(rng: &mut DeterministicRng, state: State, ctx: &GenContext) -> (r: Self)
        requires
            ctx.wf(),
            state.depth <= ctx.cfg.max_leaf_depth,
        ensures
            r.wf(),
            r.depth_ok(ctx.cfg, state.depth as int),
            r == Self::spec_generate(
                old(rng).state,
                state.depth as int,
                ctx.cfg,
                ctx.image,
            ).0,
            final(rng).state == Self::spec_generate(
                old(rng).state,
                state.depth as int,
                ctx.cfg,
                ctx.image,
            ).1,
        decreases ctx.cfg.max_leaf_depth - state.depth,
    {
        let d: usize = state.depth;
        let lw: u64 = ctx.cfg.leaf_weight(d);
        let pw: u64 = ctx.cfg.pipe_weight(d);
        let bw: u64 = ctx.cfg.branch_weight(d);
        let v: Vec<u64> = class_weights(lw * 4, pw * 2, bw * 3, 0);
        let roll: u64 = rng.below(lw * 4 + pw * 2 + bw * 3);
        let idx: usize = pick_weighted(&v, roll);
        if idx == 0 {
            let k: u64 = class_index(roll, 0, lw, 4);
            if k == 0 {
                ByteColorNodes::Constant {
                    value: ByteColor { r: rng.byte(), g: rng.byte(), b: rng.byte(), a: rng.byte() },
                }
            } else if k == 1 {
                ByteColorNodes::FromImage {
                    image: share_image(&ctx.image),
                }
            } else if k == 2 {
                ByteColorNodes::FromCellArray
            } else {
                ByteColorNodes::Mandelbrot
            }
        } else if idx == 1 {
            let k: u64 = class_index(roll, lw * 4, pw, 2);
            if k == 0 {
                ByteColorNodes::FromFloatColor {
                    child: Box::new(FloatColorNodes::generate_rng(rng, state.deepen(), ctx)),
                }
            } else {
                ByteColorNodes::FromBitColor {
                    child: Box::new(FloatColorNodes::generate_rng(rng, state.deepen(), ctx)),
                }
            }
        } else {
            proof {
                assert(idx == 2);
            }
            let k: u64 = class_index(roll, lw * 4 + pw * 2, bw, 3);
            if k == 0 {
                ByteColorNodes::Decompose {
                    r: Box::new(ByteNodes::generate_rng(rng, state.deepen(), ctx)),
                    g: Box::new(ByteNodes::generate_rng(rng, state.deepen(), ctx)),
                    b: Box::new(ByteNodes::generate_rng(rng, state.deepen(), ctx)),
                    a: Box::new(ByteNodes::generate_rng(rng, state.deepen(), ctx)),
                }
            } else if k == 1 {
                ByteColorNodes::ModifyState {
                    child: Box::new(ByteColorNodes::generate_rng(rng, state.deepen(), ctx)),
                    child_state: Box::new(CoordMapNodes::generate_rng(rng, state.deepen(), ctx)),
                }
            } else {
                ByteColorNodes::IfElse {
                    predicate: Box::new(BooleanNodes::generate_rng(rng, state.deepen(), ctx)),
                    child_a: Box::new(ByteColorNodes::generate_rng(rng, state.deepen(), ctx)),
                    child_b: Box::new(ByteColorNodes::generate_rng(rng, state.deepen(), ctx)),
                }
            }
        }
    }

    /// Whether one tree can come out of the other by a single
    /// mutation walk: the shape is unchanged except that leaf data may
    /// be rewritten along exactly one path.
    pub open spec fn one_path(self, other: Self) -> bool
        decreases self,
    {
        match (self, other) {
            (ByteColorNodes::Constant { value: value1 }, ByteColorNodes::Constant { value: value2 }) => true,
            (ByteColorNodes::FromImage { image: image1 }, ByteColorNodes::FromImage { image: image2 }) => true,
            (ByteColorNodes::FromCellArray, ByteColorNodes::FromCellArray) => true,
            (ByteColorNodes::Mandelbrot, ByteColorNodes::Mandelbrot) => true,
            (ByteColorNodes::FromFloatColor { child: child1 }, ByteColorNodes::FromFloatColor { child: child2 }) => ((*child1).one_path(*child2)),
            (ByteColorNodes::FromBitColor { child: child1 }, ByteColorNodes::FromBitColor { child: child2 }) => ((*child1).one_path(*child2)),
            (ByteColorNodes::Decompose { r: r1, g: g1, b: b1, a: a1 }, ByteColorNodes::Decompose { r: r2, g: g2, b: b2, a: a2 }) => ((*r1).one_path(*r2) && g1 == g2 && b1 == b2 && a1 == a2) || (r1 == r2 && (*g1).one_path(*g2) && b1 == b2 && a1 == a2) || (r1 == r2 && g1 == g2 && (*b1).one_path(*b2) && a1 == a2) || (r1 == r2 && g1 == g2 && b1 == b2 && (*a1).one_path(*a2)),
            (ByteColorNodes::ModifyState { child: child1, child_state: child_state1 }, ByteColorNodes::ModifyState { child: child2, child_state: child_state2 }) => ((*child1).one_path(*child2) && child_state1 == child_state2) || (child1 == child2 && (*child_state1).one_path(*child_state2)),
            (ByteColorNodes::IfElse { predicate: predicate1, child_a: child_a1, child_b: child_b1 }, ByteColorNodes::IfElse { predicate: predicate2, child_a: child_a2, child_b: child_b2 }) => ((*predicate1).one_path(*predicate2) && child_a1 == child_a2 && child_b1 == child_b2) || (predicate1 == predicate2 && (*child_a1).one_path(*child_a2) && child_b1 == child_b2) || (predicate1 == predicate2 && child_a1 == child_a2 && (*child_b1).one_path(*child_b2)),
            _ => false,
        }
    }

    /// Mutate the tree at a depth: with the configured probability
    /// the whole subtree is rerolled fresh; otherwise one child (or the
    /// leaf's own data) is chosen and the walk continues there alone.
    pub fn mutate_rng(self, rng: &mut DeterministicRng, state: State, ctx: &GenContext) -> (r: Self)
        requires
            ctx.wf(),
            state.depth <= ctx.cfg.max_leaf_depth,
            self.wf(),
            self.depth_ok(ctx.cfg, state.depth as int),
        ensures
            r.wf(),
            r.depth_ok(ctx.cfg, state.depth as int),
            ctx.cfg.mut_reroll == 0 ==> self.one_path(r),
            r == self.spec_mutate(old(rng).state, state.depth as int, ctx.cfg, ctx.image).0,
            final(rng).state == self.spec_mutate(
                old(rng).state,
                state.depth as int,
                ctx.cfg,
                ctx.image,
            ).1,
        decreases ctx.cfg.max_leaf_depth - state.depth,
    {
        if rng.chance(ctx.cfg.mut_reroll) {
            ByteColorNodes::generate_rng(rng, state, ctx)
        } else {
            match self {
                ByteColorNodes::Constant { value } => ByteColorNodes::Constant { value: ByteColor { r: rng.byte(), g: rng.byte(), b: rng.byte(), a: rng.byte() } },
                ByteColorNodes::FromImage { image } => ByteColorNodes::FromImage { image: share_image(&ctx.image) },
                ByteColorNodes::FromCellArray => ByteColorNodes::FromCellArray,
                ByteColorNodes::Mandelbrot => ByteColorNodes::Mandelbrot,
                ByteColorNodes::FromFloatColor { child } => ByteColorNodes::FromFloatColor { child: Box::new(child.mutate_rng(rng, state.deepen(), ctx)) },
                ByteColorNodes::FromBitColor { child } => ByteColorNodes::FromBitColor { child: Box::new(child.mutate_rng(rng, state.deepen(), ctx)) },
                ByteColorNodes::Decompose { r, g, b, a } => {
                    let j: u64 = rng.below(4);
                    if j == 0 {
                        ByteColorNodes::Decompose { r: Box::new(r.mutate_rng(rng, state.deepen(), ctx)), g, b, a }
                    } else if j == 1 {
                        ByteColorNodes::Decompose { r, g: Box::new(g.mutate_rng(rng, state.deepen(), ctx)), b, a }
                    } else if j == 2 {
                        ByteColorNodes::Decompose { r, g, b: Box::new(b.mutate_rng(rng, state.deepen(), ctx)), a }
                    } else {
                        ByteColorNodes::Decompose { r, g, b, a: Box::new(a.mutate_rng(rng, state.deepen(), ctx)) }
                    }
                },
                ByteColorNodes::ModifyState { child, child_state } => {
                    let j: u64 = rng.below(2);
                    if j == 0 {
                        ByteColorNodes::ModifyState { child: Box::new(child.mutate_rng(rng, state.deepen(), ctx)), child_state }
                    } else {
                        ByteColorNodes::ModifyState { child, child_state: Box::new(child_state.mutate_rng(rng, state.deepen(), ctx)) }
                    }
                },
                ByteColorNodes::IfElse { predicate, child_a, child_b } => {
                    let j: u64 = rng.below(3);
                    if j == 0 {
                        ByteColorNodes::IfElse { predicate: Box::new(predicate.mutate_rng(rng, state.deepen(), ctx)), child_a, child_b }
                    } else if j == 1 {
                        ByteColorNodes::IfElse { predicate, child_a: Box::new(child_a.mutate_rng(rng, state.deepen(), ctx)), child_b }
                    } else {
                        ByteColorNodes::IfElse { predicate, child_a, child_b: Box::new(child_b.mutate_rng(rng, state.deepen(), ctx)) }
                    }
                },
            }
        }
    }
}


impl FloatColorNodes {
    /// The tree `generate_rng` grows from a generator state, paired with
    /// the state the generator is left in: the first draw selects the
    /// class and the variant, and children grow one level deeper.
    pub open spec fn spec_generate(s: u128, depth: int, cfg: GrammarConfig, img: Arc<Image>) -> (
        FloatColorNodes,
        u128,
    )
        decreases cfg.max_leaf_depth - depth, 0int,
        when cfg.wf() && 0 <= depth <= cfg.max_leaf_depth
    {
        let s1 = rng_step(s);
        let lw = spec_leaf_weight(cfg, depth);
        let pw = spec_pipe_weight(cfg, depth);
        let bw = spec_branch_weight(cfg, depth);
        let total = 3 * lw + 4 * pw + 4 * bw;
        let roll = (rng_output(s1) as int) % total;
        if roll < 3 * lw {
            let k = roll / lw;
            if k == 0 {
                (FloatColorNodes::Gray, s1)
            } else if k == 1 {
                (FloatColorNodes::FromImage { image: img }, s1)
            } else {
                (FloatColorNodes::FromCellArray, s1)
            }
        } else if roll < 3 * lw + 4 * pw {
            let k = (roll - 3 * lw) / pw;
            if k == 0 {
                ({
                    let g1 = UNFloatNodes::spec_generate(s1, depth + 1, cfg, img);
                    (FloatColorNodes::Grayscale { child: Box::new(g1.0) }, g1.1)
                })
            } else if k == 1 {
                ({
                    let g1 = ColorBlendNodes::spec_generate(s1, depth + 1, cfg, img);
                    (FloatColorNodes::FromBlend { child: Box::new(g1.0) }, g1.1)
                })
            } else if k == 2 {
                ({
                    let g1 = BitColorNodes::spec_generate(s1, depth + 1, cfg, img);
                    (FloatColorNodes::FromBitColor { child: Box::new(g1.0) }, g1.1)
                })
            } else {
                ({
                    let g1 = ByteColorNodes::spec_generate(s1, depth + 1, cfg, img);
                    (FloatColorNodes::FromByteColor { child: Box::new(g1.0) }, g1.1)
                })
            }
        } else {
            let k = (roll - (3 * lw + 4 * pw)) / bw;
            if k == 0 {
                ({
                    let g1 = UNFloatNodes::spec_generate(s1, depth + 1, cfg, img);
                    let g2 = UNFloatNodes::spec_generate(g1.1, depth + 1, cfg, img);
                    let g3 = UNFloatNodes::spec_generate(g2.1, depth + 1, cfg, img);
                    let g4 = UNFloatNodes::spec_generate(g3.1, depth + 1, cfg, img);
                    (FloatColorNodes::RGB { r: Box::new(g1.0), g: Box::new(g2.0), b: Box::new(g3.0), a: Box::new(g4.0) }, g4.1)
                })
            } else if k == 1 {
                ({
                    let g1 = UNFloatNodes::spec_generate(s1, depth + 1, cfg, img);
                    let g2 = UNFloatNodes::spec_generate(g1.1, depth + 1, cfg, img);
                    let g3 = UNFloatNodes::spec_generate(g2.1, depth + 1, cfg, img);
                    let g4 = UNFloatNodes::spec_generate(g3.1, depth + 1, cfg, img);
                    (FloatColorNodes::HSV { h: Box::new(g1.0), s: Box::new(g2.0), v: Box::new(g3.0), a: Box::new(g4.0) }, g4.1)
                })
            } else if k == 2 {
                ({
                    let g1 = FloatColorNodes::spec_generate(s1, depth + 1, cfg, img);
                    let g2 = CoordMapNodes::spec_generate(g1.1, depth + 1, cfg, img);
                    (FloatColorNodes::ModifyState { child: Box::new(g1.0), child_state: Box::new(g2.0) }, g2.1)
                })
            } else {
                ({
                    let g1 = BooleanNodes::spec_generate(s1, depth + 1, cfg, img);
                    let g2 = FloatColorNodes::spec_generate(g1.1, depth + 1, cfg, img);
                    let g3 = FloatColorNodes::spec_generate(g2.1, depth + 1, cfg, img);
                    (FloatColorNodes::IfElse { predicate: Box::new(g1.0), child_a: Box::new(g2.0), child_b: Box::new(g3.0) }, g3.1)
                })
            }
        }
    }
    /// The tree `mutate_rng` leaves behind, paired with the state the
    /// generator is left in: the first draw decides the reroll, a reroll
    /// regenerates the whole subtree at the current depth, and otherwise
    /// the walk continues into the one child the next draw picks, a data
    /// leaf redrawing its own value instead.
    pub open spec fn spec_mutate(self, s: u128, depth: int, cfg: GrammarConfig, img: Arc<Image>) -> (
        FloatColorNodes,
        u128,
    )
        decreases cfg.max_leaf_depth - depth, 1int,
        when cfg.wf() && 0 <= depth <= cfg.max_leaf_depth && self.depth_ok(cfg, depth)
    {
        let s1 = rng_step(s);
        if rng_output(s1) % 131072 < cfg.mut_reroll {
            FloatColorNodes::spec_generate(s1, depth, cfg, img)
        } else {
            match self {
            FloatColorNodes::Gray => (FloatColorNodes::Gray, s1),
            FloatColorNodes::FromImage { image } => (FloatColorNodes::FromImage { image: img }, s1),
            FloatColorNodes::FromCellArray => (FloatColorNodes::FromCellArray, s1),
            FloatColorNodes::Grayscale { child } => ({
                    let m = (*child).spec_mutate(s1, depth + 1, cfg, img);
                    (FloatColorNodes::Grayscale { child: Box::new(m.0) }, m.1)
                }),
            FloatColorNodes::FromBlend { child } => ({
                    let m = (*child).spec_mutate(s1, depth + 1, cfg, img);
                    (FloatColorNodes::FromBlend { child: Box::new(m.0) }, m.1)
                }),
            FloatColorNodes::FromBitColor { child } => ({
                    let m = (*child).spec_mutate(s1, depth + 1, cfg, img);
                    (FloatColorNodes::FromBitColor { child: Box::new(m.0) }, m.1)
                }),
            FloatColorNodes::FromByteColor { child } => ({
                    let m = (*child).spec_mutate(s1, depth + 1, cfg, img);
                    (FloatColorNodes::FromByteColor { child: Box::new(m.0) }, m.1)
                }),
            FloatColorNodes::RGB { r, g, b, a } => ({
                    let s2 = rng_step(s1);
                    let j = rng_output(s2) % 4;
                    if j == 0 {
                        let m = (*r).spec_mutate(s2, depth + 1, cfg, img);
                        (FloatColorNodes::RGB { r: Box::new(m.0), g, b, a }, m.1)
                    } else if j == 1 {
                        let m = (*g).spec_mutate(s2, depth + 1, cfg, img);
                        (FloatColorNodes::RGB { r, g: Box::new(m.0), b, a }, m.1)
                    } else if j == 2 {
                        let m = (*b).spec_mutate(s2, depth + 1, cfg, img);
                        (FloatColorNodes::RGB { r, g, b: Box::new(m.0), a }, m.1)
                    } else {
                        let m = (*a).spec_mutate(s2, depth + 1, cfg, img);
                        (FloatColorNodes::RGB { r, g, b, a: Box::new(m.0) }, m.1)
                    }
                }),
            FloatColorNodes::HSV { h, s, v, a } => ({
                    let s2 = rng_step(s1);
                    let j = rng_output(s2) % 4;
                    if j == 0 {
                        let m = (*h).spec_mutate(s2, depth + 1, cfg, img);
                        (FloatColorNodes::HSV { h: Box::new(m.0), s, v, a }, m.1)
                    } else if j == 1 {
                        let m = (*s).spec_mutate(s2, depth + 1, cfg, img);
                        (FloatColorNodes::HSV { h, s: Box::new(m.0), v, a }, m.1)
                    } else if j == 2 {
                        let m = (*v).spec_mutate(s2, depth + 1, cfg, img);
                        (FloatColorNodes::HSV { h, s, v: Box::new(m.0), a }, m.1)
                    } else {
                        let m = (*a).spec_mutate(s2, depth + 1, cfg, img);
                        (FloatColorNodes::HSV { h, s, v, a: Box::new(m.0) }, m.1)
                    }
                }),
            FloatColorNodes::ModifyState { child, child_state } => ({
                    let s2 = rng_step(s1);
                    let j = rng_output(s2) % 2;
                    if j == 0 {
                        let m = (*child).spec_mutate(s2, depth + 1, cfg, img);
                        (FloatColorNodes::ModifyState { child: Box::new(m.0), child_state }, m.1)
                    } else {
                        let m = (*child_state).spec_mutate(s2, depth + 1, cfg, img);
                        (FloatColorNodes::ModifyState { child, child_state: Box::new(m.0) }, m.1)
                    }
                }),
            FloatColorNodes::IfElse { predicate, child_a, child_b } => ({
                    let s2 = rng_step(s1);
                    let j = rng_output(s2) % 3;
                    if j == 0 {
                        let m = (*predicate).spec_mutate(s2, depth + 1, cfg, img);
                        (FloatColorNodes::IfElse { predicate: Box::new(m.0), child_a, child_b }, m.1)
                    } else if j == 1 {
                        let m = (*child_a).spec_mutate(s2, depth + 1, cfg, img);
                        (FloatColorNodes::IfElse { predicate, child_a: Box::new(m.0), child_b }, m.1)
                    } else {
                        let m = (*child_b).spec_mutate(s2, depth + 1, cfg, img);
                        (FloatColorNodes::IfElse { predicate, child_a, child_b: Box::new(m.0) }, m.1)
                    }
                }),
            }
        }
    }
}

impl BitColorNodes {
    /// The tree `generate_rng` grows from a generator state, paired with
    /// the state the generator is left in: the first draw selects the
    /// class and the variant, and children grow one level deeper.
    pub open spec fn spec_generate(s: u128, depth: int, cfg: GrammarConfig, img: Arc<Image>) -> (
        BitColorNodes,
        u128,
    )
        decreases cfg.max_leaf_depth - depth, 0int,
        when cfg.wf() && 0 <= depth <= cfg.max_leaf_depth
    {
        let s1 = rng_step(s);
        let lw = spec_leaf_weight(cfg, depth);
        let pw = spec_pipe_weight(cfg, depth);
        let bw = spec_branch_weight(cfg, depth);
        let total = 3 * lw + 4 * pw + 7 * bw;
        let roll = (rng_output(s1) as int) % total;
        if roll < 3 * lw {
            let k = roll / lw;
            if k == 0 {
                ({
                    let t1 = rng_step(s1);
                    let t2 = rng_step(t1);
                    let t3 = rng_step(t2);
                    (BitColorNodes::Constant { value: BitColor::spec_from_components((rng_output(t1) % 2 == 1, rng_output(t2) % 2 == 1, rng_output(t3) % 2 == 1)) }, t3)
                })
            } else if k == 1 {
                (BitColorNodes::FromImage { image: img }, s1)
            } else {
                (BitColorNodes::FromCellArray, s1)
            }
        } else if roll < 3 * lw + 4 * pw {
            let k = (roll - 3 * lw) / pw;
            if k == 0 {
                ({
                    let g1 = UNFloatNodes::spec_generate(s1, depth + 1, cfg, img);
                    (BitColorNodes::FromUNFloat { child: Box::new(g1.0) }, g1.1)
                })
            } else if k == 1 {
                ({
                    let g1 = FloatColorNodes::spec_generate(s1, depth + 1, cfg, img);
                    (BitColorNodes::FromFloatColor { child: Box::new(g1.0) }, g1.1)
                })
            } else if k == 2 {
                ({
                    let g1 = ByteColorNodes::spec_generate(s1, depth + 1, cfg, img);
                    (BitColorNodes::FromByteColor { child: Box::new(g1.0) }, g1.1)
                })
            } else {
                ({
                    let g1 = NibbleNodes::spec_generate(s1, depth + 1, cfg, img);
                    (BitColorNodes::FromNibbleIndex { child: Box::new(g1.0) }, g1.1)
                })
            }
        } else {
            let k = (roll - (3 * lw + 4 * pw)) / bw;
            if k == 0 {
                ({
                    let g1 = BitColorNodes::spec_generate(s1, depth + 1, cfg, img);
                    let g2 = BitColorNodes::spec_generate(g1.1, depth + 1, cfg, img);
                    (BitColorNodes::GiveColor { child_a: Box::new(g1.0), child_b: Box::new(g2.0) }, g2.1)
                })
            } else if k == 1 {
                ({
                    let g1 = BitColorNodes::spec_generate(s1, depth + 1, cfg, img);
                    let g2 = BitColorNodes::spec_generate(g1.1, depth + 1, cfg, img);
                    (BitColorNodes::TakeColor { child_a: Box::new(g1.0), child_b: Box::new(g2.0) }, g2.1)
                })
            } else if k == 2 {
                ({
                    let g1 = BitColorNodes::spec_generate(s1, depth + 1, cfg, img);
                    let g2 = BitColorNodes::spec_generate(g1.1, depth + 1, cfg, img);
                    (BitColorNodes::XorColor { child_a: Box::new(g1.0), child_b: Box::new(g2.0) }, g2.1)
                })
            } else if k == 3 {
                ({
                    let g1 = BitColorNodes::spec_generate(s1, depth + 1, cfg, img);
                    let g2 = BitColorNodes::spec_generate(g1.1, depth + 1, cfg, img);
                    (BitColorNodes::EqColor { child_a: Box::new(g1.0), child_b: Box::new(g2.0) }, g2.1)
                })
            } else if k == 4 {
                ({
                    let g1 = BooleanNodes::spec_generate(s1, depth + 1, cfg, img);
                    let g2 = BooleanNodes::spec_generate(g1.1, depth + 1, cfg, img);
                    let g3 = BooleanNodes::spec_generate(g2.1, depth + 1, cfg, img);
                    (BitColorNodes::FromComponents { r: Box::new(g1.0), g: Box::new(g2.0), b: Box::new(g3.0) }, g3.1)
                })
            } else if k == 5 {
                ({
                    let g1 = BitColorNodes::spec_generate(s1, depth + 1, cfg, img);
                    let g2 = CoordMapNodes::spec_generate(g1.1, depth + 1, cfg, img);
                    (BitColorNodes::ModifyState { child: Box::new(g1.0), child_state: Box::new(g2.0) }, g2.1)
                })
            } else {
                ({
                    let g1 = BooleanNodes::spec_generate(s1, depth + 1, cfg, img);
                    let g2 = BitColorNodes::spec_generate(g1.1, depth + 1, cfg, img);
                    let g3 = BitColorNodes::spec_generate(g2.1, depth + 1, cfg, img);
                    (BitColorNodes::IfElse { predicate: Box::new(g1.0), child_a: Box::new(g2.0), child_b: Box::new(g3.0) }, g3.1)
                })
            }
        }
    }
    /// The tree `mutate_rng` leaves behind, paired with the state the
    /// generator is left in: the first draw decides the reroll, a reroll
    /// regenerates the whole subtree at the current depth, and otherwise
    /// the walk continues into the one child the next draw picks, a data
    /// leaf redrawing its own value instead.
    pub open spec fn spec_mutate(self, s: u128, depth: int, cfg: GrammarConfig, img: Arc<Image>) -> (
        BitColorNodes,
        u128,
    )
        decreases cfg.max_leaf_depth - depth, 1int,
        when cfg.wf() && 0 <= depth <= cfg.max_leaf_depth && self.depth_ok(cfg, depth)
    {
        let s1 = rng_step(s);
        if rng_output(s1) % 131072 < cfg.mut_reroll {
            BitColorNodes::spec_generate(s1, depth, cfg, img)
        } else {
            match self {
            BitColorNodes::Constant { value } => ({
                    let t1 = rng_step(s1);
                    let t2 = rng_step(t1);
                    let t3 = rng_step(t2);
                    (BitColorNodes::Constant { value: BitColor::spec_from_components((rng_output(t1) % 2 == 1, rng_output(t2) % 2 == 1, rng_output(t3) % 2 == 1)) }, t3)
                }),
            BitColorNodes::FromImage { image } => (BitColorNodes::FromImage { image: img }, s1),
            BitColorNodes::FromCellArray => (BitColorNodes::FromCellArray, s1),
            BitColorNodes::FromUNFloat { child } => ({
                    let m = (*child).spec_mutate(s1, depth + 1, cfg, img);
                    (BitColorNodes::FromUNFloat { child: Box::new(m.0) }, m.1)
                }),
            BitColorNodes::FromFloatColor { child } => ({
                    let m = (*child).spec_mutate(s1, depth + 1, cfg, img);
                    (BitColorNodes::FromFloatColor { child: Box::new(m.0) }, m.1)
                }),
            BitColorNodes::FromByteColor { child } => ({
                    let m = (*child).spec_mutate(s1, depth + 1, cfg, img);
                    (BitColorNodes::FromByteColor { child: Box::new(m.0) }, m.1)
                }),
            BitColorNodes::FromNibbleIndex { child } => ({
                    let m = (*child).spec_mutate(s1, depth + 1, cfg, img);
                    (BitColorNodes::FromNibbleIndex { child: Box::new(m.0) }, m.1)
                }),
            BitColorNodes::GiveColor { child_a, child_b } => ({
                    let s2 = rng_step(s1);
                    let j = rng_output(s2) % 2;
                    if j == 0 {
                        let m = (*child_a).spec_mutate(s2, depth + 1, cfg, img);
                        (BitColorNodes::GiveColor { child_a: Box::new(m.0), child_b }, m.1)
                    } else {
                        let m = (*child_b).spec_mutate(s2, depth + 1, cfg, img);
                        (BitColorNodes::GiveColor { child_a, child_b: Box::new(m.0) }, m.1)
                    }
                }),
            BitColorNodes::TakeColor { child_a, child_b } => ({
                    let s2 = rng_step(s1);
                    let j = rng_output(s2) % 2;
                    if j == 0 {
                        let m = (*child_a).spec_mutate(s2, depth + 1, cfg, img);
                        (BitColorNodes::TakeColor { child_a: Box::new(m.0), child_b }, m.1)
                    } else {
                        let m = (*child_b).spec_mutate(s2, depth + 1, cfg, img);
                        (BitColorNodes::TakeColor { child_a, child_b: Box::new(m.0) }, m.1)
                    }
                }),
            BitColorNodes::XorColor { child_a, child_b } => ({
                    let s2 = rng_step(s1);
                    let j = rng_output(s2) % 2;
                    if j == 0 {
                        let m = (*child_a).spec_mutate(s2, depth + 1, cfg, img);
                        (BitColorNodes::XorColor { child_a: Box::new(m.0), child_b }, m.1)
                    } else {
                        let m = (*child_b).spec_mutate(s2, depth + 1, cfg, img);
                        (BitColorNodes::XorColor { child_a, child_b: Box::new(m.0) }, m.1)
                    }
                }),
            BitColorNodes::EqColor { child_a, child_b } => ({
                    let s2 = rng_step(s1);
                    let j = rng_output(s2) % 2;
                    if j == 0 {
                        let m = (*child_a).spec_mutate(s2, depth + 1, cfg, img);
                        (BitColorNodes::EqColor { child_a: Box::new(m.0), child_b }, m.1)
                    } else {
                        let m = (*child_b).spec_mutate(s2, depth + 1, cfg, img);
                        (BitColorNodes::EqColor { child_a, child_b: Box::new(m.0) }, m.1)
                    }
                }),
            BitColorNodes::FromComponents { r, g, b } => ({
                    let s2 = rng_step(s1);
                    let j = rng_output(s2) % 3;
                    if j == 0 {
                        let m = (*r).spec_mutate(s2, depth + 1, cfg, img);
                        (BitColorNodes::FromComponents { r: Box::new(m.0), g, b }, m.1)
                    } else if j == 1 {
                        let m = (*g).spec_mutate(s2, depth + 1, cfg, img);
                        (BitColorNodes::FromComponents { r, g: Box::new(m.0), b }, m.1)
                    } else {
                        let m = (*b).spec_mutate(s2, depth + 1, cfg, img);
                        (BitColorNodes::FromComponents { r, g, b: Box::new(m.0) }, m.1)
                    }
                }),
            BitColorNodes::ModifyState { child, child_state } => ({
                    let s2 = rng_step(s1);
                    let j = rng_output(s2) % 2;
                    if j == 0 {
                        let m = (*child).spec_mutate(s2, depth + 1, cfg, img);
                        (BitColorNodes::ModifyState { child: Box::new(m.0), child_state }, m.1)
                    } else {
                        let m = (*child_state).spec_mutate(s2, depth + 1, cfg, img);
                        (BitColorNodes::ModifyState { child, child_state: Box::new(m.0) }, m.1)
                    }
                }),
            BitColorNodes::IfElse { predicate, child_a, child_b } => ({
                    let s2 = rng_step(s1);
                    let j = rng_output(s2) % 3;
                    if j == 0 {
                        let m = (*predicate).spec_mutate(s2, depth + 1, cfg, img);
                        (BitColorNodes::IfElse { predicate: Box::new(m.0), child_a, child_b }, m.1)
                    } else if j == 1 {
                        let m = (*child_a).spec_mutate(s2, depth + 1, cfg, img);
                        (BitColorNodes::IfElse { predicate, child_a: Box::new(m.0), child_b }, m.1)
                    } else {
                        let m = (*child_b).spec_mutate(s2, depth + 1, cfg, img);
                        (BitColorNodes::IfElse { predicate, child_a, child_b: Box::new(m.0) }, m.1)
                    }
                }),
            }
        }
    }
}

impl ByteColorNodes {
    /// The tree `generate_rng` grows from a generator state, paired with
    /// the state the generator is left in: the first draw selects the
    /// class and the variant, and children grow one level deeper.
    pub open spec fn spec_generate(s: u128, depth: int, cfg: GrammarConfig, img: Arc<Image>) -> (
        ByteColorNodes,
        u128,
    )
        decreases cfg.max_leaf_depth - depth, 0int,
        when cfg.wf() && 0 <= depth <= cfg.max_leaf_depth
    {
        let s1 = rng_step(s);
        let lw = spec_leaf_weight(cfg, depth);
        let pw = spec_pipe_weight(cfg, depth);
        let bw = spec_branch_weight(cfg, depth);
        let total = 4 * lw + 2 * pw + 3 * bw;
        let roll = (rng_output(s1) as int) % total;
        if roll < 4 * lw {
            let k = roll / lw;
            if k == 0 {
                ({
                    let t1 = rng_step(s1);
                    let t2 = rng_step(t1);
                    let t3 = rng_step(t2);
                    let t4 = rng_step(t3);
                    (ByteColorNodes::Constant { value: ByteColor { r: (rng_output(t1) % 256) as u8, g: (rng_output(t2) % 256) as u8, b: (rng_output(t3) % 256) as u8, a: (rng_output(t4) % 256) as u8 } }, t4)
                })
            } else if k == 1 {
                (ByteColorNodes::FromImage { image: img }, s1)
            } else if k == 2 {
                (ByteColorNodes::FromCellArray, s1)
            } else {
                (ByteColorNodes::Mandelbrot, s1)
            }
        } else if roll < 4 * lw + 2 * pw {
            let k = (roll - 4 * lw) / pw;
            if k == 0 {
                ({
                    let g1 = FloatColorNodes::spec_generate(s1, depth + 1, cfg, img);
                    (ByteColorNodes::FromFloatColor { child: Box::new(g1.0) }, g1.1)
                })
            } else {
                ({
                    let g1 = FloatColorNodes::spec_generate(s1, depth + 1, cfg, img);
                    (ByteColorNodes::FromBitColor { child: Box::new(g1.0) }, g1.1)
                })
            }
        } else {
            let k = (roll - (4 * lw + 2 * pw)) / bw;
            if k == 0 {
                ({
                    let g1 = ByteNodes::spec_generate(s1, depth + 1, cfg, img);
                    let g2 = ByteNodes::spec_generate(g1.1, depth + 1, cfg, img);
                    let g3 = ByteNodes::spec_generate(g2.1, depth + 1, cfg, img);
                    let g4 = ByteNodes::spec_generate(g3.1, depth + 1, cfg, img);
                    (ByteColorNodes::Decompose { r: Box::new(g1.0), g: Box::new(g2.0), b: Box::new(g3.0), a: Box::new(g4.0) }, g4.1)
                })
            } else if k == 1 {
                ({
                    let g1 = ByteColorNodes::spec_generate(s1, depth + 1, cfg, img);
                    let g2 = CoordMapNodes::spec_generate(g1.1, depth + 1, cfg, img);
                    (ByteColorNodes::ModifyState { child: Box::new(g1.0), child_state: Box::new(g2.0) }, g2.1)
                })
            } else {
                ({
                    let g1 = BooleanNodes::spec_generate(s1, depth + 1, cfg, img);
                    let g2 = ByteColorNodes::spec_generate(g1.1, depth + 1, cfg, img);
                    let g3 = ByteColorNodes::spec_generate(g2.1, depth + 1, cfg, img);
                    (ByteColorNodes::IfElse { predicate: Box::new(g1.0), child_a: Box::new(g2.0), child_b: Box::new(g3.0) }, g3.1)
                })
            }
        }
    }
    /// The tree `mutate_rng` leaves behind, paired with the state the
    /// generator is left in: the first draw decides the reroll, a reroll
    /// regenerates the whole subtree at the current depth, and otherwise
    /// the walk continues into the one child the next draw picks, a data
    /// leaf redrawing its own value instead.
    pub open spec fn spec_mutate(self, s: u128, depth: int, cfg: GrammarConfig, img: Arc<Image>) -> (
        ByteColorNodes,
        u128,
    )
        decreases cfg.max_leaf_depth - depth, 1int,
        when cfg.wf() && 0 <= depth <= cfg.max_leaf_depth && self.depth_ok(cfg, depth)
    {
        let s1 = rng_step(s);
        if rng_output(s1) % 131072 < cfg.mut_reroll {
            ByteColorNodes::spec_generate(s1, depth, cfg, img)
        } else {
            match self {
            ByteColorNodes::Constant { value } => ({
                    let t1 = rng_step(s1);
                    let t2 = rng_step(t1);
                    let t3 = rng_step(t2);
                    let t4 = rng_step(t3);
                    (ByteColorNodes::Constant { value: ByteColor { r: (rng_output(t1) % 256) as u8, g: (rng_output(t2) % 256) as u8, b: (rng_output(t3) % 256) as u8, a: (rng_output(t4) % 256) as u8 } }, t4)
                }),
            ByteColorNodes::FromImage { image } => (ByteColorNodes::FromImage { image: img }, s1),
            ByteColorNodes::FromCellArray => (ByteColorNodes::FromCellArray, s1),
            ByteColorNodes::Mandelbrot => (ByteColorNodes::Mandelbrot, s1),
            ByteColorNodes::FromFloatColor { child } => ({
                    let m = (*child).spec_mutate(s1, depth + 1, cfg, img);
                    (ByteColorNodes::FromFloatColor { child: Box::new(m.0) }, m.1)
                }),
            ByteColorNodes::FromBitColor { child } => ({
                    let m = (*child).spec_mutate(s1, depth + 1, cfg, img);
                    (ByteColorNodes::FromBitColor { child: Box::new(m.0) }, m.1)
                }),
            ByteColorNodes::Decompose { r, g, b, a } => ({
                    let s2 = rng_step(s1);
                    let j = rng_output(s2) % 4;
                    if j == 0 {
                        let m = (*r).spec_mutate(s2, depth + 1, cfg, img);
                        (ByteColorNodes::Decompose { r: Box::new(m.0), g, b, a }, m.1)
                    } else if j == 1 {
                        let m = (*g).spec_mutate(s2, depth + 1, cfg, img);
                        (ByteColorNodes::Decompose { r, g: Box::new(m.0), b, a }, m.1)
                    } else if j == 2 {
                        let m = (*b).spec_mutate(s2, depth + 1, cfg, img);
                        (ByteColorNodes::Decompose { r, g, b: Box::new(m.0), a }, m.1)
                    } else {
                        let m = (*a).spec_mutate(s2, depth + 1, cfg, img);
                        (ByteColorNodes::Decompose { r, g, b, a: Box::new(m.0) }, m.1)
                    }
                }),
            ByteColorNodes::ModifyState { child, child_state } => ({
                    let s2 = rng_step(s1);
                    let j = rng_output(s2) % 2;
                    if j == 0 {
                        let m = (*child).spec_mutate(s2, depth + 1, cfg, img);
                        (ByteColorNodes::ModifyState { child: Box::new(m.0), child_state }, m.1)
                    } else {
                        let m = (*child_state).spec_mutate(s2, depth + 1, cfg, img);
                        (ByteColorNodes::ModifyState { child, child_state: Box::new(m.0) }, m.1)
                    }
                }),
            ByteColorNodes::IfElse { predicate, child_a, child_b } => ({
                    let s2 = rng_step(s1);
                    let j = rng_output(s2) % 3;
                    if j == 0 {
                        let m = (*predicate).spec_mutate(s2, depth + 1, cfg, img);
                        (ByteColorNodes::IfElse { predicate: Box::new(m.0), child_a, child_b }, m.1)
                    } else if j == 1 {
                        let m = (*child_a).spec_mutate(s2, depth + 1, cfg, img);
                        (ByteColorNodes::IfElse { predicate, child_a: Box::new(m.0), child_b }, m.1)
                    } else {
                        let m = (*child_b).spec_mutate(s2, depth + 1, cfg, img);
                        (ByteColorNodes::IfElse { predicate, child_a, child_b: Box::new(m.0) }, m.1)
                    }
                }),
            }
        }
    }
}

} // verus!
