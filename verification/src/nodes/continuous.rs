//! Node families computing angles and continuous scalars.

use vstd::prelude::*;
use std::sync::Arc;
use crate::image::Image;
use crate::colors::hue_spec;
use crate::continuous::{
    Angle, SNFloat, UNFloat, SN_ONE, TURN, UN_ONE, signed_to_unsigned, unsigned_to_signed,
    sn_circular,
};
use crate::coords::{CoordinateSet, UpdateState, tick_fraction};
use crate::discrete::truncated_div;
use crate::history::History;
use crate::nodes::color::FloatColorNodes;
use crate::nodes::coord_map::CoordMapNodes;
use crate::nodes::discrete::{BooleanNodes, NibbleNodes, spec_byte_t};
use crate::nodes::point::SNPointNodes;
use crate::trig::{atan2_spec, atan2_units, cosine, sine, sn_cosine, sn_sine, spec_isqrt, isqrt};

use crate::engine::{
    GenContext, GrammarConfig, State, class_index, class_weights, pick_weighted, spec_branch_weight,
    spec_leaf_weight, spec_pipe_weight,
};
use crate::rng::{DeterministicRng, rng_output, rng_step};

verus! {

/// Nodes that compute an angle.
pub enum AngleNodes {
    FromGametic,
    FromCoordinate,
    FromSNPoint { child: Box<SNPointNodes> },
    FromSNFloat { child: Box<SNFloatNodes> },
    FromUNFloat { child: Box<UNFloatNodes> },
    ModifyState { child: Box<AngleNodes>, child_state: Box<CoordMapNodes> },
    IfElse { predicate: Box<BooleanNodes>, child_a: Box<AngleNodes>, child_b: Box<AngleNodes> },
}

impl AngleNodes {
    pub open spec fn wf(self) -> bool
        decreases self,
    {
        match self {
            AngleNodes::FromGametic => true,
            AngleNodes::FromCoordinate => true,
            AngleNodes::FromSNPoint { child } => child.wf(),
            AngleNodes::FromSNFloat { child } => child.wf(),
            AngleNodes::FromUNFloat { child } => child.wf(),
            AngleNodes::ModifyState { child, child_state } => child.wf() && child_state.wf(),
            AngleNodes::IfElse { predicate, child_a, child_b } => predicate.wf() && child_a.wf()
                && child_b.wf(),
        }
    }

    pub open spec fn spec_compute(self, coord: CoordinateSet, history: History) -> Angle
        decreases self,
    {
        match self {
            AngleNodes::FromGametic => Angle {
                value: (truncated_div(coord.t as int, 10) % (TURN as int)) as i32,
            },
            AngleNodes::FromCoordinate => Angle {
                value: atan2_spec(-coord.x.value as int, coord.y.value as int) as i32,
            },
            AngleNodes::FromSNPoint { child } => {
                let p = child.spec_compute(coord, history);
                Angle { value: atan2_spec(p.x.value as int, p.y.value as int) as i32 }
            },
            AngleNodes::FromSNFloat { child } => Angle {
                value: (signed_to_unsigned(child.spec_compute(coord, history).value as int) % (
                TURN as int)) as i32,
            },
            AngleNodes::FromUNFloat { child } => Angle {
                value: ((child.spec_compute(coord, history).value as int) % (TURN as int)) as i32,
            },
            AngleNodes::ModifyState { child, child_state } => child.spec_compute(
                child_state.spec_compute(coord, history),
                history,
            ),
            AngleNodes::IfElse { predicate, child_a, child_b } => {
                if predicate.spec_compute(coord, history).value {
                    child_a.spec_compute(coord, history)
                } else {
                    child_b.spec_compute(coord, history)
                }
            },
        }
    }

    /// Evaluate the node against a context.
    pub fn compute(&self, state: UpdateState) -> (r: Angle)
        requires
            self.wf(),
            state.wf(),
        ensures
            r == self.spec_compute(state.coordinate_set, *state.history),
            r.wf(),
        decreases *self,
    {
        match self {
            AngleNodes::FromGametic => {
                let t: i64 = state.coordinate_set.t;
                let ticks: i64 = if t >= 0 {
                    t / 10
                } else {
                    -((-t) / 10)
                };
                Angle::new(ticks)
            },
            AngleNodes::FromCoordinate => Angle {
                value: atan2_units(
                    -(state.coordinate_set.x.into_inner() as i64),
                    state.coordinate_set.y.into_inner() as i64,
                ),
            },
            AngleNodes::FromSNPoint { child } => child.compute(state).to_angle(),
            AngleNodes::FromSNFloat { child } => child.compute(state).to_angle(),
            AngleNodes::FromUNFloat { child } => child.compute(state).to_angle(),
            AngleNodes::ModifyState { child, child_state } => child.compute(
                UpdateState { coordinate_set: child_state.compute(state), ..state },
            ),
            AngleNodes::IfElse { predicate, child_a, child_b } => {
                if predicate.compute(state).into_inner() {
                    child_a.compute(state)
                } else {
                    child_b.compute(state)
                }
            },
        }
    }
}

/// Nodes that compute a signed-normalised scalar.
pub enum SNFloatNodes {
    Sin { child: Box<AngleNodes> },
    Cos { child: Box<AngleNodes> },
    Constant { value: SNFloat },
    FromAngle { child: Box<AngleNodes> },
    FromUNFloat { child: Box<UNFloatNodes> },
    Multiply { child_a: Box<SNFloatNodes>, child_b: Box<SNFloatNodes> },
    Abs { child: Box<SNFloatNodes> },
    Invert { child: Box<SNFloatNodes> },
    XRatio,
    YRatio,
    FromGametic,
    SubDivide { child_a: Box<SNFloatNodes>, child_b: Box<NibbleNodes> },
    ModifyState { child: Box<SNFloatNodes>, child_state: Box<CoordMapNodes> },
    IfElse { predicate: Box<BooleanNodes>, child_a: Box<SNFloatNodes>, child_b: Box<SNFloatNodes> },
}

impl SNFloatNodes {
    pub open spec fn wf(self) -> bool
        decreases self,
    {
        match self {
            SNFloatNodes::Sin { child } => child.wf(),
            SNFloatNodes::Cos { child } => child.wf(),
            SNFloatNodes::Constant { value } => value.wf(),
            SNFloatNodes::FromAngle { child } => child.wf(),
            SNFloatNodes::FromUNFloat { child } => child.wf(),
            SNFloatNodes::Multiply { child_a, child_b } => child_a.wf() && child_b.wf(),
            SNFloatNodes::Abs { child } => child.wf(),
            SNFloatNodes::Invert { child } => child.wf(),
            SNFloatNodes::XRatio => true,
            SNFloatNodes::YRatio => true,
            SNFloatNodes::FromGametic => true,
            SNFloatNodes::SubDivide { child_a, child_b } => child_a.wf() && child_b.wf(),
            SNFloatNodes::ModifyState { child, child_state } => child.wf() && child_state.wf(),
            SNFloatNodes::IfElse { predicate, child_a, child_b } => predicate.wf() && child_a.wf()
                && child_b.wf(),
        }
    }

    pub open spec fn spec_compute(self, coord: CoordinateSet, history: History) -> SNFloat
        decreases self,
    {
        match self {
            SNFloatNodes::Sin { child } => SNFloat {
                value: sn_sine(child.spec_compute(coord, history).value as int) as i32,
            },
            SNFloatNodes::Cos { child } => SNFloat {
                value: sn_cosine(child.spec_compute(coord, history).value as int) as i32,
            },
            SNFloatNodes::Constant { value } => value,
            SNFloatNodes::FromAngle { child } => SNFloat {
                value: unsigned_to_signed(child.spec_compute(coord, history).value as int) as i32,
            },
            SNFloatNodes::FromUNFloat { child } => SNFloat {
                value: unsigned_to_signed(child.spec_compute(coord, history).value as int) as i32,
            },
            SNFloatNodes::Multiply { child_a, child_b } => SNFloat {
                value: truncated_div(
                    child_a.spec_compute(coord, history).value * child_b.spec_compute(
                        coord,
                        history,
                    ).value,
                    SN_ONE as int,
                ) as i32,
            },
            SNFloatNodes::Abs { child } => {
                let v = child.spec_compute(coord, history).value;
                SNFloat {
                    value: if v >= 0 {
                        v
                    } else {
                        (-v) as i32
                    },
                }
            },
            SNFloatNodes::Invert { child } => SNFloat {
                value: (-child.spec_compute(coord, history).value) as i32,
            },
            SNFloatNodes::XRatio => coord.x,
            SNFloatNodes::YRatio => coord.y,
            SNFloatNodes::FromGametic => SNFloat {
                value: (2 * ((coord.t as int) % (SN_ONE as int)) - SN_ONE) as i32,
            },
            SNFloatNodes::SubDivide { child_a, child_b } => {
                let v = child_a.spec_compute(coord, history).value;
                let n = child_b.spec_compute(coord, history).value;
                SNFloat {
                    value: if v >= 0 {
                        ((v * n) % (SN_ONE as int)) as i32
                    } else {
                        (-(((-v) * n) % (SN_ONE as int))) as i32
                    },
                }
            },
            SNFloatNodes::ModifyState { child, child_state } => child.spec_compute(
                child_state.spec_compute(coord, history),
                history,
            ),
            SNFloatNodes::IfElse { predicate, child_a, child_b } => {
                if predicate.spec_compute(coord, history).value {
                    child_a.spec_compute(coord, history)
                } else {
                    child_b.spec_compute(coord, history)
                }
            },
        }
    }

    /// Evaluate the node against a context.
    pub fn compute(&self, state: UpdateState) -> (r: SNFloat)
        requires
            self.wf(),
            state.wf(),
        ensures
            r == self.spec_compute(state.coordinate_set, *state.history),
            r.wf(),
        decreases *self,
    {
        match self {
            SNFloatNodes::Sin { child } => sine(child.compute(state)),
            SNFloatNodes::Cos { child } => cosine(child.compute(state)),
            SNFloatNodes::Constant { value } => *value,
            SNFloatNodes::FromAngle { child } => child.compute(state).to_signed(),
            SNFloatNodes::FromUNFloat { child } => child.compute(state).to_signed(),
            SNFloatNodes::Multiply { child_a, child_b } => child_a.compute(state).multiply(
                child_b.compute(state),
            ),
            SNFloatNodes::Abs { child } => child.compute(state).abs(),
            SNFloatNodes::Invert { child } => child.compute(state).invert(),
            SNFloatNodes::XRatio => state.coordinate_set.x,
            SNFloatNodes::YRatio => state.coordinate_set.y,
            SNFloatNodes::FromGametic => SNFloat::new(
                2 * tick_fraction(state.coordinate_set.t) - SN_ONE,
            ),
            SNFloatNodes::SubDivide { child_a, child_b } => child_a.compute(state).subdivide(
                child_b.compute(state),
            ),
            SNFloatNodes::ModifyState { child, child_state } => child.compute(
                UpdateState { coordinate_set: child_state.compute(state), ..state },
            ),
            SNFloatNodes::IfElse { predicate, child_a, child_b } => {
                if predicate.compute(state).into_inner() {
                    child_a.compute(state)
                } else {
                    child_b.compute(state)
                }
            },
        }
    }
}

/// The wrapped euclidean distance of two points, halved and capped, in
/// unit-range units.
pub open spec fn spec_distance(ax: int, ay: int, bx: int, by: int) -> int {
    let dx = ax - bx;
    let dy = ay - by;
    let d = spec_isqrt(dx * dx + dy * dy);
    if d > UN_ONE {
        UN_ONE as int
    } else {
        d
    }
}

/// Nodes that compute a unit-range scalar.
pub enum UNFloatNodes {
    Constant { value: UNFloat },
    FromAngle { child: Box<AngleNodes> },
    FromSNFloat { child: Box<SNFloatNodes> },
    AbsSNFloat { child: Box<SNFloatNodes> },
    SquareSNFloat { child: Box<SNFloatNodes> },
    Multiply { child_a: Box<UNFloatNodes>, child_b: Box<UNFloatNodes> },
    CircularAdd { child_a: Box<UNFloatNodes>, child_b: Box<UNFloatNodes> },
    InvertNormalised { child: Box<UNFloatNodes> },
    ColorAverage { child: Box<FloatColorNodes> },
    ColorComponentR { child: Box<FloatColorNodes> },
    ColorComponentG { child: Box<FloatColorNodes> },
    ColorComponentB { child: Box<FloatColorNodes> },
    ColorComponentH { child: Box<FloatColorNodes> },
    FromGametic,
    SubDivide { child_a: Box<UNFloatNodes>, child_b: Box<NibbleNodes> },
    EuclideanDistance { child_a: Box<SNPointNodes>, child_b: Box<SNPointNodes> },
    ModifyState { child: Box<UNFloatNodes>, child_state: Box<CoordMapNodes> },
    IfElse { predicate: Box<BooleanNodes>, child_a: Box<UNFloatNodes>, child_b: Box<UNFloatNodes> },
}

impl UNFloatNodes {
    pub open spec fn wf(self) -> bool
        decreases self,
    {
        match self {
            UNFloatNodes::Constant { value } => value.wf(),
            UNFloatNodes::FromAngle { child } => child.wf(),
            UNFloatNodes::FromSNFloat { child } => child.wf(),
            UNFloatNodes::AbsSNFloat { child } => child.wf(),
            UNFloatNodes::SquareSNFloat { child } => child.wf(),
            UNFloatNodes::Multiply { child_a, child_b } => child_a.wf() && child_b.wf(),
            UNFloatNodes::CircularAdd { child_a, child_b } => child_a.wf() && child_b.wf(),
            UNFloatNodes::InvertNormalised { child } => child.wf(),
            UNFloatNodes::ColorAverage { child } => child.wf(),
            UNFloatNodes::ColorComponentR { child } => child.wf(),
            UNFloatNodes::ColorComponentG { child } => child.wf(),
            UNFloatNodes::ColorComponentB { child } => child.wf(),
            UNFloatNodes::ColorComponentH { child } => child.wf(),
            UNFloatNodes::FromGametic => true,
            UNFloatNodes::SubDivide { child_a, child_b } => child_a.wf() && child_b.wf(),
            UNFloatNodes::EuclideanDistance { child_a, child_b } => child_a.wf() && child_b.wf(),
            UNFloatNodes::ModifyState { child, child_state } => child.wf() && child_state.wf(),
            UNFloatNodes::IfElse { predicate, child_a, child_b } => predicate.wf() && child_a.wf()
                && child_b.wf(),
        }
    }

    pub open spec fn spec_compute(self, coord: CoordinateSet, history: History) -> UNFloat
        decreases self,
    {
        match self {
            UNFloatNodes::Constant { value } => value,
            UNFloatNodes::FromAngle { child } => UNFloat {
                value: child.spec_compute(coord, history).value,
            },
            UNFloatNodes::FromSNFloat { child } => UNFloat {
                value: signed_to_unsigned(child.spec_compute(coord, history).value as int) as i32,
            },
            UNFloatNodes::AbsSNFloat { child } => {
                let v = child.spec_compute(coord, history).value;
                UNFloat {
                    value: if v >= 0 {
                        (2 * v) as i32
                    } else {
                        (-2 * v) as i32
                    },
                }
            },
            UNFloatNodes::SquareSNFloat { child } => {
                let v = child.spec_compute(coord, history).value;
                UNFloat { value: (v * v / 32768) as i32 }
            },
            UNFloatNodes::Multiply { child_a, child_b } => UNFloat {
                value: (child_a.spec_compute(coord, history).value * child_b.spec_compute(
                    coord,
                    history,
                ).value / (UN_ONE as int)) as i32,
            },
            UNFloatNodes::CircularAdd { child_a, child_b } => UNFloat {
                value: ((child_a.spec_compute(coord, history).value + child_b.spec_compute(
                    coord,
                    history,
                ).value) % (UN_ONE as int)) as i32,
            },
            UNFloatNodes::InvertNormalised { child } => UNFloat {
                value: (UN_ONE - child.spec_compute(coord, history).value) as i32,
            },
            UNFloatNodes::ColorAverage { child } => {
                let c = child.spec_compute(coord, history);
                UNFloat { value: ((c.r.value + c.g.value + c.b.value) / 3) as i32 }
            },
            UNFloatNodes::ColorComponentR { child } => child.spec_compute(coord, history).r,
            UNFloatNodes::ColorComponentG { child } => child.spec_compute(coord, history).g,
            UNFloatNodes::ColorComponentB { child } => child.spec_compute(coord, history).b,
            UNFloatNodes::ColorComponentH { child } => {
                let c = child.spec_compute(coord, history);
                UNFloat {
                    value: hue_spec(c.r.value as int, c.g.value as int, c.b.value as int) as i32,
                }
            },
            UNFloatNodes::FromGametic => UNFloat { value: (spec_byte_t(coord) * 512) as i32 },
            UNFloatNodes::SubDivide { child_a, child_b } => UNFloat {
                value: ((child_a.spec_compute(coord, history).value * child_b.spec_compute(
                    coord,
                    history,
                ).value) % (UN_ONE as int)) as i32,
            },
            UNFloatNodes::EuclideanDistance { child_a, child_b } => {
                let a = child_a.spec_compute(coord, history);
                let b = child_b.spec_compute(coord, history);
                UNFloat {
                    value: spec_distance(
                        a.x.value as int,
                        a.y.value as int,
                        b.x.value as int,
                        b.y.value as int,
                    ) as i32,
                }
            },
            UNFloatNodes::ModifyState { child, child_state } => child.spec_compute(
                child_state.spec_compute(coord, history),
                history,
            ),
            UNFloatNodes::IfElse { predicate, child_a, child_b } => {
                if predicate.spec_compute(coord, history).value {
                    child_a.spec_compute(coord, history)
                } else {
                    child_b.spec_compute(coord, history)
                }
            },
        }
    }

    /// Evaluate the node against a context.
    pub fn compute(&self, state: UpdateState) -> (r: UNFloat)
        requires
            self.wf(),
            state.wf(),
        ensures
            r == self.spec_compute(state.coordinate_set, *state.history),
            r.wf(),
        decreases *self,
    {
        match self {
            UNFloatNodes::Constant { value } => *value,
            UNFloatNodes::FromAngle { child } => child.compute(state).to_unsigned(),
            UNFloatNodes::FromSNFloat { child } => child.compute(state).to_unsigned(),
            UNFloatNodes::AbsSNFloat { child } => {
                let v: SNFloat = child.compute(state).abs();
                UNFloat::new(2 * v.into_inner())
            },
            UNFloatNodes::SquareSNFloat { child } => {
                let v: i64 = child.compute(state).into_inner() as i64;
                proof {
                    crate::continuous::lemma_scale_div_bound(
                        if v >= 0 {
                            v as int
                        } else {
                            -v as int
                        },
                        SN_ONE as int,
                        if v >= 0 {
                            2 * v as int
                        } else {
                            -2 * v as int
                        },
                    );
                    vstd::arithmetic::mul::lemma_mul_is_commutative(v as int, v as int);
                }
                assert(v * v >= 0 && v * v <= 0x1_0000_0000 && v * v / 32768 <= 131072)
                    by (nonlinear_arith)
                    requires
                        -65536 <= v <= 65536,
                ;
                UNFloat::new(((v * v) / 32768) as i32)
            },
            UNFloatNodes::Multiply { child_a, child_b } => child_a.compute(state).multiply(
                child_b.compute(state),
            ),
            UNFloatNodes::CircularAdd { child_a, child_b } => child_a.compute(state).circular_add(
                child_b.compute(state),
            ),
            UNFloatNodes::InvertNormalised { child } => child.compute(state).invert(),
            UNFloatNodes::ColorAverage { child } => crate::colors::get_average(
                child.compute(state),
            ),
            UNFloatNodes::ColorComponentR { child } => child.compute(state).r,
            UNFloatNodes::ColorComponentG { child } => child.compute(state).g,
            UNFloatNodes::ColorComponentB { child } => child.compute(state).b,
            UNFloatNodes::ColorComponentH { child } => crate::colors::get_hue_unfloat(
                child.compute(state),
            ),
            UNFloatNodes::FromGametic => state.coordinate_set.get_unfloat_t(),
            UNFloatNodes::SubDivide { child_a, child_b } => child_a.compute(state).subdivide(
                child_b.compute(state),
            ),
            UNFloatNodes::EuclideanDistance { child_a, child_b } => {
                let a = child_a.compute(state);
                let b = child_b.compute(state);
                let dx: i64 = a.x.into_inner() as i64 - b.x.into_inner() as i64;
                let dy: i64 = a.y.into_inner() as i64 - b.y.into_inner() as i64;
                assert(dx * dx + dy * dy <= 0x8_0000_0000 && dx * dx >= 0 && dy * dy >= 0)
                    by (nonlinear_arith)
                    requires
                        -131072 <= dx <= 131072,
                        -131072 <= dy <= 131072,
                ;
                let d: u64 = isqrt((dx * dx + dy * dy) as u64);
                if d > UN_ONE as u64 {
                    UNFloat::new(UN_ONE)
                } else {
                    UNFloat::new(d as i32)
                }
            },
            UNFloatNodes::ModifyState { child, child_state } => child.compute(
                UpdateState { coordinate_set: child_state.compute(state), ..state },
            ),
            UNFloatNodes::IfElse { predicate, child_a, child_b } => {
                if predicate.compute(state).into_inner() {
                    child_a.compute(state)
                } else {
                    child_b.compute(state)
                }
            },
        }
    }
}


impl AngleNodes {
    /// Whether every node of the tree sits at a depth where its
    /// generation weight is positive.
    pub open spec fn depth_ok(self, cfg: GrammarConfig, d: int) -> bool
        decreases self,
    {
        match self {
            AngleNodes::FromGametic => spec_leaf_weight(cfg, d) > 0,
            AngleNodes::FromCoordinate => spec_leaf_weight(cfg, d) > 0,
            AngleNodes::FromSNPoint { child } => spec_pipe_weight(cfg, d) > 0 && child.depth_ok(cfg, d + 1),
            AngleNodes::FromSNFloat { child } => spec_pipe_weight(cfg, d) > 0 && child.depth_ok(cfg, d + 1),
            AngleNodes::FromUNFloat { child } => spec_pipe_weight(cfg, d) > 0 && child.depth_ok(cfg, d + 1),
            AngleNodes::ModifyState { child, child_state } => spec_branch_weight(cfg, d) > 0 && child.depth_ok(cfg, d + 1) && child_state.depth_ok(cfg, d + 1),
            AngleNodes::IfElse { predicate, child_a, child_b } => spec_branch_weight(cfg, d) > 0 && predicate.depth_ok(cfg, d + 1) && child_a.depth_ok(cfg, d + 1) && child_b.depth_ok(cfg, d + 1),
        }
    }

    /// Grow a fresh tree at a depth: the weighted draw selects the
    /// leaf, pipe or branch class, a uniform pick within the class
    /// chooses the variant, and children grow one level deeper.
    pub fn generate_rng(rng: &mut DeterministicRng, state: State, ctx: &GenContext) -> (r: Self)
        requires
            ctx.wf(),
            state.depth <= ctx.cfg.max_leaf_depth,
        ensures
            r.wf(),
            r.depth_ok(ctx.cfg, state.depth as int),
            r == Self::spec_generate(
                old(rng).state,
                state.depth as int,
                ctx.cfg,
                ctx.image,
            ).0,
            final(rng).state == Self::spec_generate(
                old(rng).state,
                state.depth as int,
                ctx.cfg,
                ctx.image,
            ).1,
        decreases ctx.cfg.max_leaf_depth - state.depth,
    {
        let d: usize = state.depth;
        let lw: u64 = ctx.cfg.leaf_weight(d);
        let pw: u64 = ctx.cfg.pipe_weight(d);
        let bw: u64 = ctx.cfg.branch_weight(d);
        let v: Vec<u64> = class_weights(lw * 2, pw * 3, bw * 2, 0);
        let roll: u64 = rng.below(lw * 2 + pw * 3 + bw * 2);
        let idx: usize = pick_weighted(&v, roll);
        if idx == 0 {
            let k: u64 = class_index(roll, 0, lw, 2);
            if k == 0 {
                AngleNodes::FromGametic
            } else {
                AngleNodes::FromCoordinate
            }
        } else if idx == 1 {
            let k: u64 = class_index(roll, lw * 2, pw, 3);
            if k == 0 {
                AngleNodes::FromSNPoint {
                    child: Box::new(SNPointNodes::generate_rng(rng, state.deepen(), ctx)),
                }
            } else if k == 1 {
                AngleNodes::FromSNFloat {
                    child: Box::new(SNFloatNodes::generate_rng(rng, state.deepen(), ctx)),
                }
            } else {
                AngleNodes::FromUNFloat {
                    child: Box::new(UNFloatNodes::generate_rng(rng, state.deepen(), ctx)),
                }
            }
        } else {
            proof {
                assert(idx == 2);
            }
            let k: u64 = class_index(roll, lw * 2 + pw * 3, bw, 2);
            if k == 0 {
                AngleNodes::ModifyState {
                    child: Box::new(AngleNodes::generate_rng(rng, state.deepen(), ctx)),
                    child_state: Box::new(CoordMapNodes::generate_rng(rng, state.deepen(), ctx)),
                }
            } else {
                AngleNodes::IfElse {
                    predicate: Box::new(BooleanNodes::generate_rng(rng, state.deepen(), ctx)),
                    child_a: Box::new(AngleNodes::generate_rng(rng, state.deepen(), ctx)),
                    child_b: Box::new(AngleNodes::generate_rng(rng, state.deepen(), ctx)),
                }
            }
        }
    }

    /// Whether one tree can come out of the other by a single
    /// mutation walk: the shape is unchanged except that leaf data may
    /// be rewritten along exactly one path.
    pub open spec fn one_path(self, other: Self) -> bool
        decreases self,
    {
        match (self, other) {
            (AngleNodes::FromGametic, AngleNodes::FromGametic) => true,
            (AngleNodes::FromCoordinate, AngleNodes::FromCoordinate) => true,
            (AngleNodes::FromSNPoint { child: child1 }, AngleNodes::FromSNPoint { child: child2 }) => ((*child1).one_path(*child2)),
            (AngleNodes::FromSNFloat { child: child1 }, AngleNodes::FromSNFloat { child: child2 }) => ((*child1).one_path(*child2)),
            (AngleNodes::FromUNFloat { child: child1 }, AngleNodes::FromUNFloat { child: child2 }) => ((*child1).one_path(*child2)),
            (AngleNodes::ModifyState { child: child1, child_state: child_state1 }, AngleNodes::ModifyState { child: child2, child_state: child_state2 }) => ((*child1).one_path(*child2) && child_state1 == child_state2) || (child1 == child2 && (*child_state1).one_path(*child_state2)),
            (AngleNodes::IfElse { predicate: predicate1, child_a: child_a1, child_b: child_b1 }, AngleNodes::IfElse { predicate: predicate2, child_a: child_a2, child_b: child_b2 }) => ((*predicate1).one_path(*predicate2) && child_a1 == child_a2 && child_b1 == child_b2) || (predicate1 == predicate2 && (*child_a1).one_path(*child_a2) && child_b1 == child_b2) || (predicate1 == predicate2 && child_a1 == child_a2 && (*child_b1).one_path(*child_b2)),
            _ => false,
        }
    }

    /// Mutate the tree at a depth: with the configured probability
    /// the whole subtree is rerolled fresh; otherwise one child (or the
    /// leaf's own data) is chosen and the walk continues there alone.
    pub fn mutate_rng(self, rng: &mut DeterministicRng, state: State, ctx: &GenContext) -> (r: Self)
        requires
            ctx.wf(),
            state.depth <= ctx.cfg.max_leaf_depth,
            self.wf(),
            self.depth_ok(ctx.cfg, state.depth as int),
        ensures
            r.wf(),
            r.depth_ok(ctx.cfg, state.depth as int),
            ctx.cfg.mut_reroll == 0 ==> self.one_path(r),
            r == self.spec_mutate(old(rng).state, state.depth as int, ctx.cfg, ctx.image).0,
            final(rng).state == self.spec_mutate(
                old(rng).state,
                state.depth as int,
                ctx.cfg,
                ctx.image,
            ).1,
        decreases ctx.cfg.max_leaf_depth - state.depth,
    {
        if rng.chance(ctx.cfg.mut_reroll) {
            AngleNodes::generate_rng(rng, state, ctx)
        } else {
            match self {
                AngleNodes::FromGametic => AngleNodes::FromGametic,
                AngleNodes::FromCoordinate => AngleNodes::FromCoordinate,
                AngleNodes::FromSNPoint { child } => AngleNodes::FromSNPoint { child: Box::new(child.mutate_rng(rng, state.deepen(), ctx)) },
                AngleNodes::FromSNFloat { child } => AngleNodes::FromSNFloat { child: Box::new(child.mutate_rng(rng, state.deepen(), ctx)) },
                AngleNodes::FromUNFloat { child } => AngleNodes::FromUNFloat { child: Box::new(child.mutate_rng(rng, state.deepen(), ctx)) },
                AngleNodes::ModifyState { child, child_state } => {
                    let j: u64 = rng.below(2);
                    if j == 0 {
                        AngleNodes::ModifyState { child: Box::new(child.mutate_rng(rng, state.deepen(), ctx)), child_state }
                    } else {
                        AngleNodes::ModifyState { child, child_state: Box::new(child_state.mutate_rng(rng, state.deepen(), ctx)) }
                    }
                },
                AngleNodes::IfElse { predicate, child_a, child_b } => {
                    let j: u64 = rng.below(3);
                    if j == 0 {
                        AngleNodes::IfElse { predicate: Box::new(predicate.mutate_rng(rng, state.deepen(), ctx)), child_a, child_b }
                    } else if j == 1 {
                        AngleNodes::IfElse { predicate, child_a: Box::new(child_a.mutate_rng(rng, state.deepen(), ctx)), child_b }
                    } else {
                        AngleNodes::IfElse { predicate, child_a, child_b: Box::new(child_b.mutate_rng(rng, state.deepen(), ctx)) }
                    }
                },
            }
        }
    }
}

impl SNFloatNodes {
    /// Whether every node of the tree sits at a depth where its
    /// generation weight is positive.
    pub open spec fn depth_ok(self, cfg: GrammarConfig, d: int) -> bool
        decreases self,
    {
        match self {
            SNFloatNodes::Constant { value } => spec_leaf_weight(cfg, d) > 0,
            SNFloatNodes::XRatio => spec_leaf_weight(cfg, d) > 0,
            SNFloatNodes::YRatio => spec_leaf_weight(cfg, d) > 0,
            SNFloatNodes::FromGametic => spec_leaf_weight(cfg, d) > 0,
            SNFloatNodes::Sin { child } => spec_pipe_weight(cfg, d) > 0 && child.depth_ok(cfg, d + 1),
            SNFloatNodes::Cos { child } => spec_pipe_weight(cfg, d) > 0 && child.depth_ok(cfg, d + 1),
            SNFloatNodes::FromAngle { child } => spec_pipe_weight(cfg, d) > 0 && child.depth_ok(cfg, d + 1),
            SNFloatNodes::FromUNFloat { child } => spec_pipe_weight(cfg, d) > 0 && child.depth_ok(cfg, d + 1),
            SNFloatNodes::Abs { child } => spec_pipe_weight(cfg, d) > 0 && child.depth_ok(cfg, d + 1),
            SNFloatNodes::Invert { child } => spec_pipe_weight(cfg, d) > 0 && child.depth_ok(cfg, d + 1),
            SNFloatNodes::Multiply { child_a, child_b } => spec_branch_weight(cfg, d) > 0 && child_a.depth_ok(cfg, d + 1) && child_b.depth_ok(cfg, d + 1),
            SNFloatNodes::SubDivide { child_a, child_b } => spec_branch_weight(cfg, d) > 0 && child_a.depth_ok(cfg, d + 1) && child_b.depth_ok(cfg, d + 1),
            SNFloatNodes::ModifyState { child, child_state } => spec_branch_weight(cfg, d) > 0 && child.depth_ok(cfg, d + 1) && child_state.depth_ok(cfg, d + 1),
            SNFloatNodes::IfElse { predicate, child_a, child_b } => spec_branch_weight(cfg, d) > 0 && predicate.depth_ok(cfg, d + 1) && child_a.depth_ok(cfg, d + 1) && child_b.depth_ok(cfg, d + 1),
        }
    }

    /// Grow a fresh tree at a depth: the weighted draw selects the
    /// leaf, pipe or branch class, a uniform pick within the class
    /// chooses the variant, and children grow one level deeper.
    pub fn generate_rng(rng: &mut DeterministicRng, state: State, ctx: &GenContext) -> (r: Self)
        requires
            ctx.wf(),
            state.depth <= ctx.cfg.max_leaf_depth,
        ensures
            r.wf(),
            r.depth_ok(ctx.cfg, state.depth as int),
            r == Self::spec_generate(
                old(rng).state,
                state.depth as int,
                ctx.cfg,
                ctx.image,
            ).0,
            final(rng).state == Self::spec_generate(
                old(rng).state,
                state.depth as int,
                ctx.cfg,
                ctx.image,
            ).1,
        decreases ctx.cfg.max_leaf_depth - state.depth,
    {
        let d: usize = state.depth;
        let lw: u64 = ctx.cfg.leaf_weight(d);
        let pw: u64 = ctx.cfg.pipe_weight(d);
        let bw: u64 = ctx.cfg.branch_weight(d);
        let v: Vec<u64> = class_weights(lw * 4, pw * 6, bw * 4, 0);
        let roll: u64 = rng.below(lw * 4 + pw * 6 + bw * 4);
        let idx: usize = pick_weighted(&v, roll);
        if idx == 0 {
            let k: u64 = class_index(roll, 0, lw, 4);
            if k == 0 {
                SNFloatNodes::Constant {
                    value: SNFloat::new(rng.signed_units()),
                }
            } else if k == 1 {
                SNFloatNodes::XRatio
            } else if k == 2 {
                SNFloatNodes::YRatio
            } else {
                SNFloatNodes::FromGametic
            }
        } else if idx == 1 {
            let k: u64 = class_index(roll, lw * 4, pw, 6);
            if k == 0 {
                SNFloatNodes::Sin {
                    child: Box::new(AngleNodes::generate_rng(rng, state.deepen(), ctx)),
                }
            } else if k == 1 {
                SNFloatNodes::Cos {
                    child: Box::new(AngleNodes::generate_rng(rng, state.deepen(), ctx)),
                }
            } else if k == 2 {
                SNFloatNodes::FromAngle {
                    child: Box::new(AngleNodes::generate_rng(rng, state.deepen(), ctx)),
                }
            } else if k == 3 {
                SNFloatNodes::FromUNFloat {
                    child: Box::new(UNFloatNodes::generate_rng(rng, state.deepen(), ctx)),
                }
            } else if k == 4 {
                SNFloatNodes::Abs {
                    child: Box::new(SNFloatNodes::generate_rng(rng, state.deepen(), ctx)),
                }
            } else {
                SNFloatNodes::Invert {
                    child: Box::new(SNFloatNodes::generate_rng(rng, state.deepen(), ctx)),
                }
            }
        } else {
            proof {
                assert(idx == 2);
            }
            let k: u64 = class_index(roll, lw * 4 + pw * 6, bw, 4);
            if k == 0 {
                SNFloatNodes::Multiply {
                    child_a: Box::new(SNFloatNodes::generate_rng(rng, state.deepen(), ctx)),
                    child_b: Box::new(SNFloatNodes::generate_rng(rng, state.deepen(), ctx)),
                }
            } else if k == 1 {
                SNFloatNodes::SubDivide {
                    child_a: Box::new(SNFloatNodes::generate_rng(rng, state.deepen(), ctx)),
                    child_b: Box::new(NibbleNodes::generate_rng(rng, state.deepen(), ctx)),
                }
            } else if k == 2 {
                SNFloatNodes::ModifyState {
                    child: Box::new(SNFloatNodes::generate_rng(rng, state.deepen(), ctx)),
                    child_state: Box::new(CoordMapNodes::generate_rng(rng, state.deepen(), ctx)),
                }
            } else {
                SNFloatNodes::IfElse {
                    predicate: Box::new(BooleanNodes::generate_rng(rng, state.deepen(), ctx)),
                    child_a: Box::new(SNFloatNodes::generate_rng(rng, state.deepen(), ctx)),
                    child_b: Box::new(SNFloatNodes::generate_rng(rng, state.deepen(), ctx)),
                }
            }
        }
    }

    /// Whether one tree can come out of the other by a single
    /// mutation walk: the shape is unchanged except that leaf data may
    /// be rewritten along exactly one path.
    pub open spec fn one_path(self, other: Self) -> bool
        decreases self,
    {
        match (self, other) {
            (SNFloatNodes::Constant { value: value1 }, SNFloatNodes::Constant { value: value2 }) => true,
            (SNFloatNodes::XRatio, SNFloatNodes::XRatio) => true,
            (SNFloatNodes::YRatio, SNFloatNodes::YRatio) => true,
            (SNFloatNodes::FromGametic, SNFloatNodes::FromGametic) => true,
            (SNFloatNodes::Sin { child: child1 }, SNFloatNodes::Sin { child: child2 }) => ((*child1).one_path(*child2)),
            (SNFloatNodes::Cos { child: child1 }, SNFloatNodes::Cos { child: child2 }) => ((*child1).one_path(*child2)),
            (SNFloatNodes::FromAngle { child: child1 }, SNFloatNodes::FromAngle { child: child2 }) => ((*child1).one_path(*child2)),
            (SNFloatNodes::FromUNFloat { child: child1 }, SNFloatNodes::FromUNFloat { child: child2 }) => ((*child1).one_path(*child2)),
            (SNFloatNodes::Abs { child: child1 }, SNFloatNodes::Abs { child: child2 }) => ((*child1).one_path(*child2)),
            (SNFloatNodes::Invert { child: child1 }, SNFloatNodes::Invert { child: child2 }) => ((*child1).one_path(*child2)),
            (SNFloatNodes::Multiply { child_a: child_a1, child_b: child_b1 }, SNFloatNodes::Multiply { child_a: child_a2, child_b: child_b2 }) => ((*child_a1).one_path(*child_a2) && child_b1 == child_b2) || (child_a1 == child_a2 && (*child_b1).one_path(*child_b2)),
            (SNFloatNodes::SubDivide { child_a: child_a1, child_b: child_b1 }, SNFloatNodes::SubDivide { child_a: child_a2, child_b: child_b2 }) => ((*child_a1).one_path(*child_a2) && child_b1 == child_b2) || (child_a1 == child_a2 && (*child_b1).one_path(*child_b2)),
            (SNFloatNodes::ModifyState { child: child1, child_state: child_state1 }, SNFloatNodes::ModifyState { child: child2, child_state: child_state2 }) => ((*child1).one_path(*child2) && child_state1 == child_state2) || (child1 == child2 && (*child_state1).one_path(*child_state2)),
            (SNFloatNodes::IfElse { predicate: predicate1, child_a: child_a1, child_b: child_b1 }, SNFloatNodes::IfElse { predicate: predicate2, child_a: child_a2, child_b: child_b2 }) => ((*predicate1).one_path(*predicate2) && child_a1 == child_a2 && child_b1 == child_b2) || (predicate1 == predicate2 && (*child_a1).one_path(*child_a2) && child_b1 == child_b2) || (predicate1 == predicate2 && child_a1 == child_a2 && (*child_b1).one_path(*child_b2)),
            _ => false,
        }
    }

    /// Mutate the tree at a depth: with the configured probability
    /// the whole subtree is rerolled fresh; otherwise one child (or the
    /// leaf's own data) is chosen and the walk continues there alone.
    pub fn mutate_rng(self, rng: &mut DeterministicRng, state: State, ctx: &GenContext) -> (r: Self)
        requires
            ctx.wf(),
            state.depth <= ctx.cfg.max_leaf_depth,
            self.wf(),
            self.depth_ok(ctx.cfg, state.depth as int),
        ensures
            r.wf(),
            r.depth_ok(ctx.cfg, state.depth as int),
            ctx.cfg.mut_reroll == 0 ==> self.one_path(r),
            r == self.spec_mutate(old(rng).state, state.depth as int, ctx.cfg, ctx.image).0,
            final(rng).state == self.spec_mutate(
                old(rng).state,
                state.depth as int,
                ctx.cfg,
                ctx.image,
            ).1,
        decreases ctx.cfg.max_leaf_depth - state.depth,
    {
        if rng.chance(ctx.cfg.mut_reroll) {
            SNFloatNodes::generate_rng(rng, state, ctx)
        } else {
            match self {
                SNFloatNodes::Constant { value } => SNFloatNodes::Constant { value: SNFloat::new(rng.signed_units()) },
                SNFloatNodes::XRatio => SNFloatNodes::XRatio,
                SNFloatNodes::YRatio => SNFloatNodes::YRatio,
                SNFloatNodes::FromGametic => SNFloatNodes::FromGametic,
                SNFloatNodes::Sin { child } => SNFloatNodes::Sin { child: Box::new(child.mutate_rng(rng, state.deepen(), ctx)) },
                SNFloatNodes::Cos { child } => SNFloatNodes::Cos { child: Box::new(child.mutate_rng(rng, state.deepen(), ctx)) },
                SNFloatNodes::FromAngle { child } => SNFloatNodes::FromAngle { child: Box::new(child.mutate_rng(rng, state.deepen(), ctx)) },
                SNFloatNodes::FromUNFloat { child } => SNFloatNodes::FromUNFloat { child: Box::new(child.mutate_rng(rng, state.deepen(), ctx)) },
                SNFloatNodes::Abs { child } => SNFloatNodes::Abs { child: Box::new(child.mutate_rng(rng, state.deepen(), ctx)) },
                SNFloatNodes::Invert { child } => SNFloatNodes::Invert { child: Box::new(child.mutate_rng(rng, state.deepen(), ctx)) },
                SNFloatNodes::Multiply { child_a, child_b } => {
                    let j: u64 = rng.below(2);
                    if j == 0 {
                        SNFloatNodes::Multiply { child_a: Box::new(child_a.mutate_rng(rng, state.deepen(), ctx)), child_b }
                    } else {
                        SNFloatNodes::Multiply { child_a, child_b: Box::new(child_b.mutate_rng(rng, state.deepen(), ctx)) }
                    }
                },
                SNFloatNodes::SubDivide { child_a, child_b } => {
                    let j: u64 = rng.below(2);
                    if j == 0 {
                        SNFloatNodes::SubDivide { child_a: Box::new(child_a.mutate_rng(rng, state.deepen(), ctx)), child_b }
                    } else {
                        SNFloatNodes::SubDivide { child_a, child_b: Box::new(child_b.mutate_rng(rng, state.deepen(), ctx)) }
                    }
                },
                SNFloatNodes::ModifyState { child, child_state } => {
                    let j: u64 = rng.below(2);
                    if j == 0 {
                        SNFloatNodes::ModifyState { child: Box::new(child.mutate_rng(rng, state.deepen(), ctx)), child_state }
                    } else {
                        SNFloatNodes::ModifyState { child, child_state: Box::new(child_state.mutate_rng(rng, state.deepen(), ctx)) }
                    }
                },
                SNFloatNodes::IfElse { predicate, child_a, child_b } => {
                    let j: u64 = rng.below(3);
                    if j == 0 {
                        SNFloatNodes::IfElse { predicate: Box::new(predicate.mutate_rng(rng, state.deepen(), ctx)), child_a, child_b }
                    } else if j == 1 {
                        SNFloatNodes::IfElse { predicate, child_a: Box::new(child_a.mutate_rng(rng, state.deepen(), ctx)), child_b }
                    } else {
                        SNFloatNodes::IfElse { predicate, child_a, child_b: Box::new(child_b.mutate_rng(rng, state.deepen(), ctx)) }
                    }
                },
            }
        }
    }
}

impl UNFloatNodes {
    /// Whether every node of the tree sits at a depth where its
    /// generation weight is positive.
    pub open spec fn depth_ok(self, cfg: GrammarConfig, d: int) -> bool
        decreases self,
    {
        match self {
            UNFloatNodes::Constant { value } => spec_leaf_weight(cfg, d) > 0,
            UNFloatNodes::FromGametic => spec_leaf_weight(cfg, d) > 0,
            UNFloatNodes::FromAngle { child } => spec_pipe_weight(cfg, d) > 0 && child.depth_ok(cfg, d + 1),
            UNFloatNodes::FromSNFloat { child } => spec_pipe_weight(cfg, d) > 0 && child.depth_ok(cfg, d + 1),
            UNFloatNodes::AbsSNFloat { child } => spec_pipe_weight(cfg, d) > 0 && child.depth_ok(cfg, d + 1),
            UNFloatNodes::SquareSNFloat { child } => spec_pipe_weight(cfg, d) > 0 && child.depth_ok(cfg, d + 1),
            UNFloatNodes::InvertNormalised { child } => spec_pipe_weight(cfg, d) > 0 && child.depth_ok(cfg, d + 1),
            UNFloatNodes::ColorAverage { child } => spec_pipe_weight(cfg, d) > 0 && child.depth_ok(cfg, d + 1),
            UNFloatNodes::ColorComponentR { child } => spec_pipe_weight(cfg, d) > 0 && child.depth_ok(cfg, d + 1),
            UNFloatNodes::ColorComponentG { child } => spec_pipe_weight(cfg, d) > 0 && child.depth_ok(cfg, d + 1),
            UNFloatNodes::ColorComponentB { child } => spec_pipe_weight(cfg, d) > 0 && child.depth_ok(cfg, d + 1),
            UNFloatNodes::ColorComponentH { child } => spec_pipe_weight(cfg, d) > 0 && child.depth_ok(cfg, d + 1),
            UNFloatNodes::Multiply { child_a, child_b } => spec_branch_weight(cfg, d) > 0 && child_a.depth_ok(cfg, d + 1) && child_b.depth_ok(cfg, d + 1),
            UNFloatNodes::CircularAdd { child_a, child_b } => spec_branch_weight(cfg, d) > 0 && child_a.depth_ok(cfg, d + 1) && child_b.depth_ok(cfg, d + 1),
            UNFloatNodes::SubDivide { child_a, child_b } => spec_branch_weight(cfg, d) > 0 && child_a.depth_ok(cfg, d + 1) && child_b.depth_ok(cfg, d + 1),
            UNFloatNodes::EuclideanDistance { child_a, child_b } => spec_branch_weight(cfg, d) > 0 && child_a.depth_ok(cfg, d + 1) && child_b.depth_ok(cfg, d + 1),
            UNFloatNodes::ModifyState { child, child_state } => spec_branch_weight(cfg, d) > 0 && child.depth_ok(cfg, d + 1) && child_state.depth_ok(cfg, d + 1),
            UNFloatNodes::IfElse { predicate, child_a, child_b } => spec_branch_weight(cfg, d) > 0 && predicate.depth_ok(cfg, d + 1) && child_a.depth_ok(cfg, d + 1) && child_b.depth_ok(cfg, d + 1),
        }
    }

    /// Grow a fresh tree at a depth: the weighted draw selects the
    /// leaf, pipe or branch class, a uniform pick within the class
    /// chooses the variant, and children grow one level deeper.
    pub fn generate_rng(rng: &mut DeterministicRng, state: State, ctx: &GenContext) -> (r: Self)
        requires
            ctx.wf(),
            state.depth <= ctx.cfg.max_leaf_depth,
        ensures
            r.wf(),
            r.depth_ok(ctx.cfg, state.depth as int),
            r == Self::spec_generate(
                old(rng).state,
                state.depth as int,
                ctx.cfg,
                ctx.image,
            ).0,
            final(rng).state == Self::spec_generate(
                old(rng).state,
                state.depth as int,
                ctx.cfg,
                ctx.image,
            ).1,
        decreases ctx.cfg.max_leaf_depth - state.depth,
    {
        let d: usize = state.depth;
        let lw: u64 = ctx.cfg.leaf_weight(d);
        let pw: u64 = ctx.cfg.pipe_weight(d);
        let bw: u64 = ctx.cfg.branch_weight(d);
        let v: Vec<u64> = class_weights(lw * 2, pw * 10, bw * 6, 0);
        let roll: u64 = rng.below(lw * 2 + pw * 10 + bw * 6);
        let idx: usize = pick_weighted(&v, roll);
        if idx == 0 {
            let k: u64 = class_index(roll, 0, lw, 2);
            if k == 0 {
                UNFloatNodes::Constant {
                    value: UNFloat::new(rng.unit_units()),
                }
            } else {
                UNFloatNodes::FromGametic
            }
        } else if idx == 1 {
            let k: u64 = class_index(roll, lw * 2, pw, 10);
            if k == 0 {
                UNFloatNodes::FromAngle {
                    child: Box::new(AngleNodes::generate_rng(rng, state.deepen(), ctx)),
                }
            } else if k == 1 {
                UNFloatNodes::FromSNFloat {
                    child: Box::new(SNFloatNodes::generate_rng(rng, state.deepen(), ctx)),
                }
            } else if k == 2 {
                UNFloatNodes::AbsSNFloat {
                    child: Box::new(SNFloatNodes::generate_rng(rng, state.deepen(), ctx)),
                }
            } else if k == 3 {
                UNFloatNodes::SquareSNFloat {
                    child: Box::new(SNFloatNodes::generate_rng(rng, state.deepen(), ctx)),
                }
            } else if k == 4 {
                UNFloatNodes::InvertNormalised {
                    child: Box::new(UNFloatNodes::generate_rng(rng, state.deepen(), ctx)),
                }
            } else if k == 5 {
                UNFloatNodes::ColorAverage {
                    child: Box::new(FloatColorNodes::generate_rng(rng, state.deepen(), ctx)),
                }
            } else if k == 6 {
                UNFloatNodes::ColorComponentR {
                    child: Box::new(FloatColorNodes::generate_rng(rng, state.deepen(), ctx)),
                }
            } else if k == 7 {
                UNFloatNodes::ColorComponentG {
                    child: Box::new(FloatColorNodes::generate_rng(rng, state.deepen(), ctx)),
                }
            } else if k == 8 {
                UNFloatNodes::ColorComponentB {
                    child: Box::new(FloatColorNodes::generate_rng(rng, state.deepen(), ctx)),
                }
            } else {
                UNFloatNodes::ColorComponentH {
                    child: Box::new(FloatColorNodes::generate_rng(rng, state.deepen(), ctx)),
                }
            }
        } else {
            proof {
                assert(idx == 2);
            }
            let k: u64 = class_index(roll, lw * 2 + pw * 10, bw, 6);
            if k == 0 {
                UNFloatNodes::Multiply {
                    child_a: Box::new(UNFloatNodes::generate_rng(rng, state.deepen(), ctx)),
                    child_b: Box::new(UNFloatNodes::generate_rng(rng, state.deepen(), ctx)),
                }
            } else if k == 1 {
                UNFloatNodes::CircularAdd {
                    child_a: Box::new(UNFloatNodes::generate_rng(rng, state.deepen(), ctx)),
                    child_b: Box::new(UNFloatNodes::generate_rng(rng, state.deepen(), ctx)),
                }
            } else if k == 2 {
                UNFloatNodes::SubDivide {
                    child_a: Box::new(UNFloatNodes::generate_rng(rng, state.deepen(), ctx)),
                    child_b: Box::new(NibbleNodes::generate_rng(rng, state.deepen(), ctx)),
                }
            } else if k == 3 {
                UNFloatNodes::EuclideanDistance {
                    child_a: Box::new(SNPointNodes::generate_rng(rng, state.deepen(), ctx)),
                    child_b: Box::new(SNPointNodes::generate_rng(rng, state.deepen(), ctx)),
                }
            } else if k == 4 {
                UNFloatNodes::ModifyState {
                    child: Box::new(UNFloatNodes::generate_rng(rng, state.deepen(), ctx)),
                    child_state: Box::new(CoordMapNodes::generate_rng(rng, state.deepen(), ctx)),
                }
            } else {
                UNFloatNodes::IfElse {
                    predicate: Box::new(BooleanNodes::generate_rng(rng, state.deepen(), ctx)),
                    child_a: Box::new(UNFloatNodes::generate_rng(rng, state.deepen(), ctx)),
                    child_b: Box::new(UNFloatNodes::generate_rng(rng, state.deepen(), ctx)),
                }
            }
        }
    }

    /// Whether one tree can come out of the other by a single
    /// mutation walk: the shape is unchanged except that leaf data may
    /// be rewritten along exactly one path.
    pub open spec fn one_path(self, other: Self) -> bool
        decreases self,
    {
        match (self, other) {
            (UNFloatNodes::Constant { value: value1 }, UNFloatNodes::Constant { value: value2 }) => true,
            (UNFloatNodes::FromGametic, UNFloatNodes::FromGametic) => true,
            (UNFloatNodes::FromAngle { child: child1 }, UNFloatNodes::FromAngle { child: child2 }) => ((*child1).one_path(*child2)),
            (UNFloatNodes::FromSNFloat { child: child1 }, UNFloatNodes::FromSNFloat { child: child2 }) => ((*child1).one_path(*child2)),
            (UNFloatNodes::AbsSNFloat { child: child1 }, UNFloatNodes::AbsSNFloat { child: child2 }) => ((*child1).one_path(*child2)),
            (UNFloatNodes::SquareSNFloat { child: child1 }, UNFloatNodes::SquareSNFloat { child: child2 }) => ((*child1).one_path(*child2)),
            (UNFloatNodes::InvertNormalised { child: child1 }, UNFloatNodes::InvertNormalised { child: child2 }) => ((*child1).one_path(*child2)),
            (UNFloatNodes::ColorAverage { child: child1 }, UNFloatNodes::ColorAverage { child: child2 }) => ((*child1).one_path(*child2)),
            (UNFloatNodes::ColorComponentR { child: child1 }, UNFloatNodes::ColorComponentR { child: child2 }) => ((*child1).one_path(*child2)),
            (UNFloatNodes::ColorComponentG { child: child1 }, UNFloatNodes::ColorComponentG { child: child2 }) => ((*child1).one_path(*child2)),
            (UNFloatNodes::ColorComponentB { child: child1 }, UNFloatNodes::ColorComponentB { child: child2 }) => ((*child1).one_path(*child2)),
            (UNFloatNodes::ColorComponentH { child: child1 }, UNFloatNodes::ColorComponentH { child: child2 }) => ((*child1).one_path(*child2)),
            (UNFloatNodes::Multiply { child_a: child_a1, child_b: child_b1 }, UNFloatNodes::Multiply { child_a: child_a2, child_b: child_b2 }) => ((*child_a1).one_path(*child_a2) && child_b1 == child_b2) || (child_a1 == child_a2 && (*child_b1).one_path(*child_b2)),
            (UNFloatNodes::CircularAdd { child_a: child_a1, child_b: child_b1 }, UNFloatNodes::CircularAdd { child_a: child_a2, child_b: child_b2 }) => ((*child_a1).one_path(*child_a2) && child_b1 == child_b2) || (child_a1 == child_a2 && (*child_b1).one_path(*child_b2)),
            (UNFloatNodes::SubDivide { child_a: child_a1, child_b: child_b1 }, UNFloatNodes::SubDivide { child_a: child_a2, child_b: child_b2 }) => ((*child_a1).one_path(*child_a2) && child_b1 == child_b2) || (child_a1 == child_a2 && (*child_b1).one_path(*child_b2)),
            (UNFloatNodes::EuclideanDistance { child_a: child_a1, child_b: child_b1 }, UNFloatNodes::EuclideanDistance { child_a: child_a2, child_b: child_b2 }) => ((*child_a1).one_path(*child_a2) && child_b1 == child_b2) || (child_a1 == child_a2 && (*child_b1).one_path(*child_b2)),
            (UNFloatNodes::ModifyState { child: child1, child_state: child_state1 }, UNFloatNodes::ModifyState { child: child2, child_state: child_state2 }) => ((*child1).one_path(*child2) && child_state1 == child_state2) || (child1 == child2 && (*child_state1).one_path(*child_state2)),
            (UNFloatNodes::IfElse { predicate: predicate1, child_a: child_a1, child_b: child_b1 }, UNFloatNodes::IfElse { predicate: predicate2, child_a: child_a2, child_b: child_b2 }) => ((*predicate1).one_path(*predicate2) && child_a1 == child_a2 && child_b1 == child_b2) || (predicate1 == predicate2 && (*child_a1).one_path(*child_a2) && child_b1 == child_b2) || (predicate1 == predicate2 && child_a1 == child_a2 && (*child_b1).one_path(*child_b2)),
            _ => false,
        }
    }

    /// Mutate the tree at a depth: with the configured probability
    /// the whole subtree is rerolled fresh; otherwise one child (or the
    /// leaf's own data) is chosen and the walk continues there alone.
    pub fn mutate_rng(self, rng: &mut DeterministicRng, state: State, ctx: &GenContext) -> (r: Self)
        requires
            ctx.wf(),
            state.depth <= ctx.cfg.max_leaf_depth,
            self.wf(),
            self.depth_ok(ctx.cfg, state.depth as int),
        ensures
            r.wf(),
            r.depth_ok(ctx.cfg, state.depth as int),
            ctx.cfg.mut_reroll == 0 ==> self.one_path(r),
            r == self.spec_mutate(old(rng).state, state.depth as int, ctx.cfg, ctx.image).0,
            final(rng).state == self.spec_mutate(
                old(rng).state,
                state.depth as int,
                ctx.cfg,
                ctx.image,
            ).1,
        decreases ctx.cfg.max_leaf_depth - state.depth,
    {
        if rng.chance(ctx.cfg.mut_reroll) {
            UNFloatNodes::generate_rng(rng, state, ctx)
        } else {
            match self {
                UNFloatNodes::Constant { value } => UNFloatNodes::Constant { value: UNFloat::new(rng.unit_units()) },
                UNFloatNodes::FromGametic => UNFloatNodes::FromGametic,
                UNFloatNodes::FromAngle { child } => UNFloatNodes::FromAngle { child: Box::new(child.mutate_rng(rng, state.deepen(), ctx)) },
                UNFloatNodes::FromSNFloat { child } => UNFloatNodes::FromSNFloat { child: Box::new(child.mutate_rng(rng, state.deepen(), ctx)) },
                UNFloatNodes::AbsSNFloat { child } => UNFloatNodes::AbsSNFloat { child: Box::new(child.mutate_rng(rng, state.deepen(), ctx)) },
                UNFloatNodes::SquareSNFloat { child } => UNFloatNodes::SquareSNFloat { child: Box::new(child.mutate_rng(rng, state.deepen(), ctx)) },
                UNFloatNodes::InvertNormalised { child } => UNFloatNodes::InvertNormalised { child: Box::new(child.mutate_rng(rng, state.deepen(), ctx)) },
                UNFloatNodes::ColorAverage { child } => UNFloatNodes::ColorAverage { child: Box::new(child.mutate_rng(rng, state.deepen(), ctx)) },
                UNFloatNodes::ColorComponentR { child } => UNFloatNodes::ColorComponentR { child: Box::new(child.mutate_rng(rng, state.deepen(), ctx)) },
                UNFloatNodes::ColorComponentG { child } => UNFloatNodes::ColorComponentG { child: Box::new(child.mutate_rng(rng, state.deepen(), ctx)) },
                UNFloatNodes::ColorComponentB { child } => UNFloatNodes::ColorComponentB { child: Box::new(child.mutate_rng(rng, state.deepen(), ctx)) },
                UNFloatNodes::ColorComponentH { child } => UNFloatNodes::ColorComponentH { child: Box::new(child.mutate_rng(rng, state.deepen(), ctx)) },
                UNFloatNodes::Multiply { child_a, child_b } => {
                    let j: u64 = rng.below(2);
                    if j == 0 {
                        UNFloatNodes::Multiply { child_a: Box::new(child_a.mutate_rng(rng, state.deepen(), ctx)), child_b }
                    } else {
                        UNFloatNodes::Multiply { child_a, child_b: Box::new(child_b.mutate_rng(rng, state.deepen(), ctx)) }
                    }
                },
                UNFloatNodes::CircularAdd { child_a, child_b } => {
                    let j: u64 = rng.below(2);
                    if j == 0 {
                        UNFloatNodes::CircularAdd { child_a: Box::new(child_a.mutate_rng(rng, state.deepen(), ctx)), child_b }
                    } else {
                        UNFloatNodes::CircularAdd { child_a, child_b: Box::new(child_b.mutate_rng(rng, state.deepen(), ctx)) }
                    }
                },
                UNFloatNodes::SubDivide { child_a, child_b } => {
                    let j: u64 = rng.below(2);
                    if j == 0 {
                        UNFloatNodes::SubDivide { child_a: Box::new(child_a.mutate_rng(rng, state.deepen(), ctx)), child_b }
                    } else {
                        UNFloatNodes::SubDivide { child_a, child_b: Box::new(child_b.mutate_rng(rng, state.deepen(), ctx)) }
                    }
                },
                UNFloatNodes::EuclideanDistance { child_a, child_b } => {
                    let j: u64 = rng.below(2);
                    if j == 0 {
                        UNFloatNodes::EuclideanDistance { child_a: Box::new(child_a.mutate_rng(rng, state.deepen(), ctx)), child_b }
                    } else {
                        UNFloatNodes::EuclideanDistance { child_a, child_b: Box::new(child_b.mutate_rng(rng, state.deepen(), ctx)) }
                    }
                },
                UNFloatNodes::ModifyState { child, child_state } => {
                    let j: u64 = rng.below(2);
                    if j == 0 {
                        UNFloatNodes::ModifyState { child: Box::new(child.mutate_rng(rng, state.deepen(), ctx)), child_state }
                    } else {
                        UNFloatNodes::ModifyState { child, child_state: Box::new(child_state.mutate_rng(rng, state.deepen(), ctx)) }
                    }
                },
                UNFloatNodes::IfElse { predicate, child_a, child_b } => {
                    let j: u64 = rng.below(3);
                    if j == 0 {
                        UNFloatNodes::IfElse { predicate: Box::new(predicate.mutate_rng(rng, state.deepen(), ctx)), child_a, child_b }
                    } else if j == 1 {
                        UNFloatNodes::IfElse { predicate, child_a: Box::new(child_a.mutate_rng(rng, state.deepen(), ctx)), child_b }
                    } else {
                        UNFloatNodes::IfElse { predicate, child_a, child_b: Box::new(child_b.mutate_rng(rng, state.deepen(), ctx)) }
                    }
                },
            }
        }
    }
}


impl AngleNodes {
    /// The tree `generate_rng` grows from a generator state, paired with
    /// the state the generator is left in: the first draw selects the
    /// class and the variant, and children grow one level deeper.
    pub open spec fn spec_generate(s: u128, depth: int, cfg: GrammarConfig, img: Arc<Image>) -> (
        AngleNodes,
        u128,
    )
        decreases cfg.max_leaf_depth - depth, 0int,
        when cfg.wf() && 0 <= depth <= cfg.max_leaf_depth
    {
        let s1 = rng_step(s);
        let lw = spec_leaf_weight(cfg, depth);
        let pw = spec_pipe_weight(cfg, depth);
        let bw = spec_branch_weight(cfg, depth);
        let total = 2 * lw + 3 * pw + 2 * bw;
        let roll = (rng_output(s1) as int) % total;
        if roll < 2 * lw {
            let k = roll / lw;
            if k == 0 {
                (AngleNodes::FromGametic, s1)
            } else {
                (AngleNodes::FromCoordinate, s1)
            }
        } else if roll < 2 * lw + 3 * pw {
            let k = (roll - 2 * lw) / pw;
            if k == 0 {
                ({
                    let g1 = SNPointNodes::spec_generate(s1, depth + 1, cfg, img);
                    (AngleNodes::FromSNPoint { child: Box::new(g1.0) }, g1.1)
                })
            } else if k == 1 {
                ({
                    let g1 = SNFloatNodes::spec_generate(s1, depth + 1, cfg, img);
                    (AngleNodes::FromSNFloat { child: Box::new(g1.0) }, g1.1)
                })
            } else {
                ({
                    let g1 = UNFloatNodes::spec_generate(s1, depth + 1, cfg, img);
                    (AngleNodes::FromUNFloat { child: Box::new(g1.0) }, g1.1)
                })
            }
        } else {
            let k = (roll - (2 * lw + 3 * pw)) / bw;
            if k == 0 {
                ({
                    let g1 = AngleNodes::spec_generate(s1, depth + 1, cfg, img);
                    let g2 = CoordMapNodes::spec_generate(g1.1, depth + 1, cfg, img);
                    (AngleNodes::ModifyState { child: Box::new(g1.0), child_state: Box::new(g2.0) }, g2.1)
                })
            } else {
                ({
                    let g1 = BooleanNodes::spec_generate(s1, depth + 1, cfg, img);
                    let g2 = AngleNodes::spec_generate(g1.1, depth + 1, cfg, img);
                    let g3 = AngleNodes::spec_generate(g2.1, depth + 1, cfg, img);
                    (AngleNodes::IfElse { predicate: Box::new(g1.0), child_a: Box::new(g2.0), child_b: Box::new(g3.0) }, g3.1)
                })
            }
        }
    }
    /// The tree `mutate_rng` leaves behind, paired with the state the
    /// generator is left in: the first draw decides the reroll, a reroll
    /// regenerates the whole subtree at the current depth, and otherwise
    /// the walk continues into the one child the next draw picks, a data
    /// leaf redrawing its own value instead.
    pub open spec fn spec_mutate(self, s: u128, depth: int, cfg: GrammarConfig, img: Arc<Image>) -> (
        AngleNodes,
        u128,
    )
        decreases cfg.max_leaf_depth - depth, 1int,
        when cfg.wf() && 0 <= depth <= cfg.max_leaf_depth && self.depth_ok(cfg, depth)
    {
        let s1 = rng_step(s);
        if rng_output(s1) % 131072 < cfg.mut_reroll {
            AngleNodes::spec_generate(s1, depth, cfg, img)
        } else {
            match self {
            AngleNodes::FromGametic => (AngleNodes::FromGametic, s1),
            AngleNodes::FromCoordinate => (AngleNodes::FromCoordinate, s1),
            AngleNodes::FromSNPoint { child } => ({
                    let m = (*child).spec_mutate(s1, depth + 1, cfg, img);
                    (AngleNodes::FromSNPoint { child: Box::new(m.0) }, m.1)
                }),
            AngleNodes::FromSNFloat { child } => ({
                    let m = (*child).spec_mutate(s1, depth + 1, cfg, img);
                    (AngleNodes::FromSNFloat { child: Box::new(m.0) }, m.1)
                }),
            AngleNodes::FromUNFloat { child } => ({
                    let m = (*child).spec_mutate(s1, depth + 1, cfg, img);
                    (AngleNodes::FromUNFloat { child: Box::new(m.0) }, m.1)
                }),
            AngleNodes::ModifyState { child, child_state } => ({
                    let s2 = rng_step(s1);
                    let j = rng_output(s2) % 2;
                    if j == 0 {
                        let m = (*child).spec_mutate(s2, depth + 1, cfg, img);
                        (AngleNodes::ModifyState { child: Box::new(m.0), child_state }, m.1)
                    } else {
                        let m = (*child_state).spec_mutate(s2, depth + 1, cfg, img);
                        (AngleNodes::ModifyState { child, child_state: Box::new(m.0) }, m.1)
                    }
                }),
            AngleNodes::IfElse { predicate, child_a, child_b } => ({
                    let s2 = rng_step(s1);
                    let j = rng_output(s2) % 3;
                    if j == 0 {
                        let m = (*predicate).spec_mutate(s2, depth + 1, cfg, img);
                        (AngleNodes::IfElse { predicate: Box::new(m.0), child_a, child_b }, m.1)
                    } else if j == 1 {
                        let m = (*child_a).spec_mutate(s2, depth + 1, cfg, img);
                        (AngleNodes::IfElse { predicate, child_a: Box::new(m.0), child_b }, m.1)
                    } else {
                        let m = (*child_b).spec_mutate(s2, depth + 1, cfg, img);
                        (AngleNodes::IfElse { predicate, child_a, child_b: Box::new(m.0) }, m.1)
                    }
                }),
            }
        }
    }
}

impl SNFloatNodes {
    /// The tree `generate_rng` grows from a generator state, paired with
    /// the state the generator is left in: the first draw selects the
    /// class and the variant, and children grow one level deeper.
    pub open spec fn spec_generate(s: u128, depth: int, cfg: GrammarConfig, img: Arc<Image>) -> (
        SNFloatNodes,
        u128,
    )
        decreases cfg.max_leaf_depth - depth, 0int,
        when cfg.wf() && 0 <= depth <= cfg.max_leaf_depth
    {
        let s1 = rng_step(s);
        let lw = spec_leaf_weight(cfg, depth);
        let pw = spec_pipe_weight(cfg, depth);
        let bw = spec_branch_weight(cfg, depth);
        let total = 4 * lw + 6 * pw + 4 * bw;
        let roll = (rng_output(s1) as int) % total;
        if roll < 4 * lw {
            let k = roll / lw;
            if k == 0 {
                ({
                    let t1 = rng_step(s1);
                    (SNFloatNodes::Constant { value: SNFloat { value: ((rng_output(t1) % 131073) - 65536) as i32 } }, t1)
                })
            } else if k == 1 {
                (SNFloatNodes::XRatio, s1)
            } else if k == 2 {
                (SNFloatNodes::YRatio, s1)
            } else {
                (SNFloatNodes::FromGametic, s1)
            }
        } else if roll < 4 * lw + 6 * pw {
            let k = (roll - 4 * lw) / pw;
            if k == 0 {
                ({
                    let g1 = AngleNodes::spec_generate(s1, depth + 1, cfg, img);
                    (SNFloatNodes::Sin { child: Box::new(g1.0) }, g1.1)
                })
            } else if k == 1 {
                ({
                    let g1 = AngleNodes::spec_generate(s1, depth + 1, cfg, img);
                    (SNFloatNodes::Cos { child: Box::new(g1.0) }, g1.1)
                })
            } else if k == 2 {
                ({
                    let g1 = AngleNodes::spec_generate(s1, depth + 1, cfg, img);
                    (SNFloatNodes::FromAngle { child: Box::new(g1.0) }, g1.1)
                })
            } else if k == 3 {
                ({
                    let g1 = UNFloatNodes::spec_generate(s1, depth + 1, cfg, img);
                    (SNFloatNodes::FromUNFloat { child: Box::new(g1.0) }, g1.1)
                })
            } else if k == 4 {
                ({
                    let g1 = SNFloatNodes::spec_generate(s1, depth + 1, cfg, img);
                    (SNFloatNodes::Abs { child: Box::new(g1.0) }, g1.1)
                })
            } else {
                ({
                    let g1 = SNFloatNodes::spec_generate(s1, depth + 1, cfg, img);
                    (SNFloatNodes::Invert { child: Box::new(g1.0) }, g1.1)
                })
            }
        } else {
            let k = (roll - (4 * lw + 6 * pw)) / bw;
            if k == 0 {
                ({
                    let g1 = SNFloatNodes::spec_generate(s1, depth + 1, cfg, img);
                    let g2 = SNFloatNodes::spec_generate(g1.1, depth + 1, cfg, img);
                    (SNFloatNodes::Multiply { child_a: Box::new(g1.0), child_b: Box::new(g2.0) }, g2.1)
                })
            } else if k == 1 {
                ({
                    let g1 = SNFloatNodes::spec_generate(s1, depth + 1, cfg, img);
                    let g2 = NibbleNodes::spec_generate(g1.1, depth + 1, cfg, img);
                    (SNFloatNodes::SubDivide { child_a: Box::new(g1.0), child_b: Box::new(g2.0) }, g2.1)
                })
            } else if k == 2 {
                ({
                    let g1 = SNFloatNodes::spec_generate(s1, depth + 1, cfg, img);
                    let g2 = CoordMapNodes::spec_generate(g1.1, depth + 1, cfg, img);
                    (SNFloatNodes::ModifyState { child: Box::new(g1.0), child_state: Box::new(g2.0) }, g2.1)
                })
            } else {
                ({
                    let g1 = BooleanNodes::spec_generate(s1, depth + 1, cfg, img);
                    let g2 = SNFloatNodes::spec_generate(g1.1, depth + 1, cfg, img);
                    let g3 = SNFloatNodes::spec_generate(g2.1, depth + 1, cfg, img);
                    (SNFloatNodes::IfElse { predicate: Box::new(g1.0), child_a: Box::new(g2.0), child_b: Box::new(g3.0) }, g3.1)
                })
            }
        }
    }
    /// The tree `mutate_rng` leaves behind, paired with the state the
    /// generator is left in: the first draw decides the reroll, a reroll
    /// regenerates the whole subtree at the current depth, and otherwise
    /// the walk continues into the one child the next draw picks, a data
    /// leaf redrawing its own value instead.
    pub open spec fn spec_mutate(self, s: u128, depth: int, cfg: GrammarConfig, img: Arc<Image>) -> (
        SNFloatNodes,
        u128,
    )
        decreases cfg.max_leaf_depth - depth, 1int,
        when cfg.wf() && 0 <= depth <= cfg.max_leaf_depth && self.depth_ok(cfg, depth)
    {
        let s1 = rng_step(s);
        if rng_output(s1) % 131072 < cfg.mut_reroll {
            SNFloatNodes::spec_generate(s1, depth, cfg, img)
        } else {
            match self {
            SNFloatNodes::Constant { value } => ({
                    let t1 = rng_step(s1);
                    (SNFloatNodes::Constant { value: SNFloat { value: ((rng_output(t1) % 131073) - 65536) as i32 } }, t1)
                }),
            SNFloatNodes::XRatio => (SNFloatNodes::XRatio, s1),
            SNFloatNodes::YRatio => (SNFloatNodes::YRatio, s1),
            SNFloatNodes::FromGametic => (SNFloatNodes::FromGametic, s1),
            SNFloatNodes::Sin { child } => ({
                    let m = (*child).spec_mutate(s1, depth + 1, cfg, img);
                    (SNFloatNodes::Sin { child: Box::new(m.0) }, m.1)
                }),
            SNFloatNodes::Cos { child } => ({
                    let m = (*child).spec_mutate(s1, depth + 1, cfg, img);
                    (SNFloatNodes::Cos { child: Box::new(m.0) }, m.1)
                }),
            SNFloatNodes::FromAngle { child } => ({
                    let m = (*child).spec_mutate(s1, depth + 1, cfg, img);
                    (SNFloatNodes::FromAngle { child: Box::new(m.0) }, m.1)
                }),
            SNFloatNodes::FromUNFloat { child } => ({
                    let m = (*child).spec_mutate(s1, depth + 1, cfg, img);
                    (SNFloatNodes::FromUNFloat { child: Box::new(m.0) }, m.1)
                }),
            SNFloatNodes::Abs { child } => ({
                    let m = (*child).spec_mutate(s1, depth + 1, cfg, img);
                    (SNFloatNodes::Abs { child: Box::new(m.0) }, m.1)
                }),
            SNFloatNodes::Invert { child } => ({
                    let m = (*child).spec_mutate(s1, depth + 1, cfg, img);
                    (SNFloatNodes::Invert { child: Box::new(m.0) }, m.1)
                }),
            SNFloatNodes::Multiply { child_a, child_b } => ({
                    let s2 = rng_step(s1);
                    let j = rng_output(s2) % 2;
                    if j == 0 {
                        let m = (*child_a).spec_mutate(s2, depth + 1, cfg, img);
                        (SNFloatNodes::Multiply { child_a: Box::new(m.0), child_b }, m.1)
                    } else {
                        let m = (*child_b).spec_mutate(s2, depth + 1, cfg, img);
                        (SNFloatNodes::Multiply { child_a, child_b: Box::new(m.0) }, m.1)
                    }
                }),
            SNFloatNodes::SubDivide { child_a, child_b } => ({
                    let s2 = rng_step(s1);
                    let j = rng_output(s2) % 2;
                    if j == 0 {
                        let m = (*child_a).spec_mutate(s2, depth + 1, cfg, img);
                        (SNFloatNodes::SubDivide { child_a: Box::new(m.0), child_b }, m.1)
                    } else {
                        let m = (*child_b).spec_mutate(s2, depth + 1, cfg, img);
                        (SNFloatNodes::SubDivide { child_a, child_b: Box::new(m.0) }, m.1)
                    }
                }),
            SNFloatNodes::ModifyState { child, child_state } => ({
                    let s2 = rng_step(s1);
                    let j = rng_output(s2) % 2;
                    if j == 0 {
                        let m = (*child).spec_mutate(s2, depth + 1, cfg, img);
                        (SNFloatNodes::ModifyState { child: Box::new(m.0), child_state }, m.1)
                    } else {
                        let m = (*child_state).spec_mutate(s2, depth + 1, cfg, img);
                        (SNFloatNodes::ModifyState { child, child_state: Box::new(m.0) }, m.1)
                    }
                }),
            SNFloatNodes::IfElse { predicate, child_a, child_b } => ({
                    let s2 = rng_step(s1);
                    let j = rng_output(s2) % 3;
                    if j == 0 {
                        let m = (*predicate).spec_mutate(s2, depth + 1, cfg, img);
                        (SNFloatNodes::IfElse { predicate: Box::new(m.0), child_a, child_b }, m.1)
                    } else if j == 1 {
                        let m = (*child_a).spec_mutate(s2, depth + 1, cfg, img);
                        (SNFloatNodes::IfElse { predicate, child_a: Box::new(m.0), child_b }, m.1)
                    } else {
                        let m = (*child_b).spec_mutate(s2, depth + 1, cfg, img);
                        (SNFloatNodes::IfElse { predicate, child_a, child_b: Box::new(m.0) }, m.1)
                    }
                }),
            }
        }
    }
}

impl UNFloatNodes {
    /// The tree `generate_rng` grows from a generator state, paired with
    /// the state the generator is left in: the first draw selects the
    /// class and the variant, and children grow one level deeper.
    pub open spec fn spec_generate(s: u128, depth: int, cfg: GrammarConfig, img: Arc<Image>) -> (
        UNFloatNodes,
        u128,
    )
        decreases cfg.max_leaf_depth - depth, 0int,
        when cfg.wf() && 0 <= depth <= cfg.max_leaf_depth
    {
        let s1 = rng_step(s);
        let lw = spec_leaf_weight(cfg, depth);
        let pw = spec_pipe_weight(cfg, depth);
        let bw = spec_branch_weight(cfg, depth);
        let total = 2 * lw + 10 * pw + 6 * bw;
        let roll = (rng_output(s1) as int) % total;
        if roll < 2 * lw {
            let k = roll / lw;
            if k == 0 {
                ({
                    let t1 = rng_step(s1);
                    (UNFloatNodes::Constant { value: UNFloat { value: (rng_output(t1) % 131073) as i32 } }, t1)
                })
            } else {
                (UNFloatNodes::FromGametic, s1)
            }
        } else if roll < 2 * lw + 10 * pw {
            let k = (roll - 2 * lw) / pw;
            if k == 0 {
                ({
                    let g1 = AngleNodes::spec_generate(s1, depth + 1, cfg, img);
                    (UNFloatNodes::FromAngle { child: Box::new(g1.0) }, g1.1)
                })
            } else if k == 1 {
                ({
                    let g1 = SNFloatNodes::spec_generate(s1, depth + 1, cfg, img);
                    (UNFloatNodes::FromSNFloat { child: Box::new(g1.0) }, g1.1)
                })
            } else if k == 2 {
                ({
                    let g1 = SNFloatNodes::spec_generate(s1, depth + 1, cfg, img);
                    (UNFloatNodes::AbsSNFloat { child: Box::new(g1.0) }, g1.1)
                })
            } else if k == 3 {
                ({
                    let g1 = SNFloatNodes::spec_generate(s1, depth + 1, cfg, img);
                    (UNFloatNodes::SquareSNFloat { child: Box::new(g1.0) }, g1.1)
                })
            } else if k == 4 {
                ({
                    let g1 = UNFloatNodes::spec_generate(s1, depth + 1, cfg, img);
                    (UNFloatNodes::InvertNormalised { child: Box::new(g1.0) }, g1.1)
                })
            } else if k == 5 {
                ({
                    let g1 = FloatColorNodes::spec_generate(s1, depth + 1, cfg, img);
                    (UNFloatNodes::ColorAverage { child: Box::new(g1.0) }, g1.1)
                })
            } else if k == 6 {
                ({
                    let g1 = FloatColorNodes::spec_generate(s1, depth + 1, cfg, img);
                    (UNFloatNodes::ColorComponentR { child: Box::new(g1.0) }, g1.1)
                })
            } else if k == 7 {
                ({
                    let g1 = FloatColorNodes::spec_generate(s1, depth + 1, cfg, img);
                    (UNFloatNodes::ColorComponentG { child: Box::new(g1.0) }, g1.1)
                })
            } else if k == 8 {
                ({
                    let g1 = FloatColorNodes::spec_generate(s1, depth + 1, cfg, img);
                    (UNFloatNodes::ColorComponentB { child: Box::new(g1.0) }, g1.1)
                })
            } else {
                ({
                    let g1 = FloatColorNodes::spec_generate(s1, depth + 1, cfg, img);
                    (UNFloatNodes::ColorComponentH { child: Box::new(g1.0) }, g1.1)
                })
            }
        } else {
            let k = (roll - (2 * lw + 10 * pw)) / bw;
            if k == 0 {
                ({
                    let g1 = UNFloatNodes::spec_generate(s1, depth + 1, cfg, img);
                    let g2 = UNFloatNodes::spec_generate(g1.1, depth + 1, cfg, img);
                    (UNFloatNodes::Multiply { child_a: Box::new(g1.0), child_b: Box::new(g2.0) }, g2.1)
                })
            } else if k == 1 {
                ({
                    let g1 = UNFloatNodes::spec_generate(s1, depth + 1, cfg, img);
                    let g2 = UNFloatNodes::spec_generate(g1.1, depth + 1, cfg, img);
                    (UNFloatNodes::CircularAdd { child_a: Box::new(g1.0), child_b: Box::new(g2.0) }, g2.1)
                })
            } else if k == 2 {
                ({
                    let g1 = UNFloatNodes::spec_generate(s1, depth + 1, cfg, img);
                    let g2 = NibbleNodes::spec_generate(g1.1, depth + 1, cfg, img);
                    (UNFloatNodes::SubDivide { child_a: Box::new(g1.0), child_b: Box::new(g2.0) }, g2.1)
                })
            } else if k == 3 {
                ({
                    let g1 = SNPointNodes::spec_generate(s1, depth + 1, cfg, img);
                    let g2 = SNPointNodes::spec_generate(g1.1, depth + 1, cfg, img);
                    (UNFloatNodes::EuclideanDistance { child_a: Box::new(g1.0), child_b: Box::new(g2.0) }, g2.1)
                })
            } else if k == 4 {
                ({
                    let g1 = UNFloatNodes::spec_generate(s1, depth + 1, cfg, img);
                    let g2 = CoordMapNodes::spec_generate(g1.1, depth + 1, cfg, img);
                    (UNFloatNodes::ModifyState { child: Box::new(g1.0), child_state: Box::new(g2.0) }, g2.1)
                })
            } else {
                ({
                    let g1 = BooleanNodes::spec_generate(s1, depth + 1, cfg, img);
                    let g2 = UNFloatNodes::spec_generate(g1.1, depth + 1, cfg, img);
                    let g3 = UNFloatNodes::spec_generate(g2.1, depth + 1, cfg, img);
                    (UNFloatNodes::IfElse { predicate: Box::new(g1.0), child_a: Box::new(g2.0), child_b: Box::new(g3.0) }, g3.1)
                })
            }
        }
    }
    /// The tree `mutate_rng` leaves behind, paired with the state the
    /// generator is left in: the first draw decides the reroll, a reroll
    /// regenerates the whole subtree at the current depth, and otherwise
    /// the walk continues into the one child the next draw picks, a data
    /// leaf redrawing its own value instead.
    pub open spec fn spec_mutate(self, s: u128, depth: int, cfg: GrammarConfig, img: Arc<Image>) -> (
        UNFloatNodes,
        u128,
    )
        decreases cfg.max_leaf_depth - depth, 1int,
        when cfg.wf() && 0 <= depth <= cfg.max_leaf_depth && self.depth_ok(cfg, depth)
    {
        let s1 = rng_step(s);
        if rng_output(s1) % 131072 < cfg.mut_reroll {
            UNFloatNodes::spec_generate(s1, depth, cfg, img)
        } else {
            match self {
            UNFloatNodes::Constant { value } => ({
                    let t1 = rng_step(s1);
                    (UNFloatNodes::Constant { value: UNFloat { value: (rng_output(t1) % 131073) as i32 } }, t1)
                }),
            UNFloatNodes::FromGametic => (UNFloatNodes::FromGametic, s1),
            UNFloatNodes::FromAngle { child } => ({
                    let m = (*child).spec_mutate(s1, depth + 1, cfg, img);
                    (UNFloatNodes::FromAngle { child: Box::new(m.0) }, m.1)
                }),
            UNFloatNodes::FromSNFloat { child } => ({
                    let m = (*child).spec_mutate(s1, depth + 1, cfg, img);
                    (UNFloatNodes::FromSNFloat { child: Box::new(m.0) }, m.1)
                }),
            UNFloatNodes::AbsSNFloat { child } => ({
                    let m = (*child).spec_mutate(s1, depth + 1, cfg, img);
                    (UNFloatNodes::AbsSNFloat { child: Box::new(m.0) }, m.1)
                }),
            UNFloatNodes::SquareSNFloat { child } => ({
                    let m = (*child).spec_mutate(s1, depth + 1, cfg, img);
                    (UNFloatNodes::SquareSNFloat { child: Box::new(m.0) }, m.1)
                }),
            UNFloatNodes::InvertNormalised { child } => ({
                    let m = (*child).spec_mutate(s1, depth + 1, cfg, img);
                    (UNFloatNodes::InvertNormalised { child: Box::new(m.0) }, m.1)
                }),
            UNFloatNodes::ColorAverage { child } => ({
                    let m = (*child).spec_mutate(s1, depth + 1, cfg, img);
                    (UNFloatNodes::ColorAverage { child: Box::new(m.0) }, m.1)
                }),
            UNFloatNodes::ColorComponentR { child } => ({
                    let m = (*child).spec_mutate(s1, depth + 1, cfg, img);
                    (UNFloatNodes::ColorComponentR { child: Box::new(m.0) }, m.1)
                }),
            UNFloatNodes::ColorComponentG { child } => ({
                    let m = (*child).spec_mutate(s1, depth + 1, cfg, img);
                    (UNFloatNodes::ColorComponentG { child: Box::new(m.0) }, m.1)
                }),
            UNFloatNodes::ColorComponentB { child } => ({
                    let m = (*child).spec_mutate(s1, depth + 1, cfg, img);
                    (UNFloatNodes::ColorComponentB { child: Box::new(m.0) }, m.1)
                }),
            UNFloatNodes::ColorComponentH { child } => ({
                    let m = (*child).spec_mutate(s1, depth + 1, cfg, img);
                    (UNFloatNodes::ColorComponentH { child: Box::new(m.0) }, m.1)
                }),
            UNFloatNodes::Multiply { child_a, child_b } => ({
                    let s2 = rng_step(s1);
                    let j = rng_output(s2) % 2;
                    if j == 0 {
                        let m = (*child_a).spec_mutate(s2, depth + 1, cfg, img);
                        (UNFloatNodes::Multiply { child_a: Box::new(m.0), child_b }, m.1)
                    } else {
                        let m = (*child_b).spec_mutate(s2, depth + 1, cfg, img);
                        (UNFloatNodes::Multiply { child_a, child_b: Box::new(m.0) }, m.1)
                    }
                }),
            UNFloatNodes::CircularAdd { child_a, child_b } => ({
                    let s2 = rng_step(s1);
                    let j = rng_output(s2) % 2;
                    if j == 0 {
                        let m = (*child_a).spec_mutate(s2, depth + 1, cfg, img);
                        (UNFloatNodes::CircularAdd { child_a: Box::new(m.0), child_b }, m.1)
                    } else {
                        let m = (*child_b).spec_mutate(s2, depth + 1, cfg, img);
                        (UNFloatNodes::CircularAdd { child_a, child_b: Box::new(m.0) }, m.1)
                    }
                }),
            UNFloatNodes::SubDivide { child_a, child_b } => ({
                    let s2 = rng_step(s1);
                    let j = rng_output(s2) % 2;
                    if j == 0 {
                        let m = (*child_a).spec_mutate(s2, depth + 1, cfg, img);
                        (UNFloatNodes::SubDivide { child_a: Box::new(m.0), child_b }, m.1)
                    } else {
                        let m = (*child_b).spec_mutate(s2, depth + 1, cfg, img);
                        (UNFloatNodes::SubDivide { child_a, child_b: Box::new(m.0) }, m.1)
                    }
                }),
            UNFloatNodes::EuclideanDistance { child_a, child_b } => ({
                    let s2 = rng_step(s1);
                    let j = rng_output(s2) % 2;
                    if j == 0 {
                        let m = (*child_a).spec_mutate(s2, depth + 1, cfg, img);
                        (UNFloatNodes::EuclideanDistance { child_a: Box::new(m.0), child_b }, m.1)
                    } else {
                        let m = (*child_b).spec_mutate(s2, depth + 1, cfg, img);
                        (UNFloatNodes::EuclideanDistance { child_a, child_b: Box::new(m.0) }, m.1)
                    }
                }),
            UNFloatNodes::ModifyState { child, child_state } => ({
                    let s2 = rng_step(s1);
                    let j = rng_output(s2) % 2;
                    if j == 0 {
                        let m = (*child).spec_mutate(s2, depth + 1, cfg, img);
                        (UNFloatNodes::ModifyState { child: Box::new(m.0), child_state }, m.1)
                    } else {
                        let m = (*child_state).spec_mutate(s2, depth + 1, cfg, img);
                        (UNFloatNodes::ModifyState { child, child_state: Box::new(m.0) }, m.1)
                    }
                }),
            UNFloatNodes::IfElse { predicate, child_a, child_b } => ({
                    let s2 = rng_step(s1);
                    let j = rng_output(s2) % 3;
                    if j == 0 {
                        let m = (*predicate).spec_mutate(s2, depth + 1, cfg, img);
                        (UNFloatNodes::IfElse { predicate: Box::new(m.0), child_a, child_b }, m.1)
                    } else if j == 1 {
                        let m = (*child_a).spec_mutate(s2, depth + 1, cfg, img);
                        (UNFloatNodes::IfElse { predicate, child_a: Box::new(m.0), child_b }, m.1)
                    } else {
                        let m = (*child_b).spec_mutate(s2, depth + 1, cfg, img);
                        (UNFloatNodes::IfElse { predicate, child_a, child_b: Box::new(m.0) }, m.1)
                    }
                }),
            }
        }
    }
}

} // verus!
