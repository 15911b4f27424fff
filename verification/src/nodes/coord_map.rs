//! Nodes that remap the coordinate set.
//!
//! A coordinate remap transforms only the plane coordinates; the tick
//! and the history reference pass through unchanged.  The polar pair
//! uses the documented convention: `ToPolar` writes the angle of the
//! vector `(y, -x)` (the axis of symmetry vertical), encoded into the
//! signed range, into `x`, and the capped radius into `y`; `FromPolar`
//! reads `x` back as such an encoded angle and `y` as the radius.

use vstd::prelude::*;
use std::sync::Arc;
use crate::image::Image;
use crate::continuous::{Angle, SNFloat, SN_ONE, TURN, sn_circular, unsigned_to_signed, signed_to_unsigned};
use crate::coords::{CoordinateSet, UpdateState, t_shifted};
use crate::discrete::truncated_div;
use crate::history::History;
use crate::nodes::continuous::{AngleNodes, SNFloatNodes};
use crate::nodes::discrete::BooleanNodes;
use crate::trig::{atan2_spec, atan2_units, cosine, sine, sn_cosine, sn_sine, spec_isqrt, isqrt};

use crate::engine::{
    GenContext, GrammarConfig, State, class_index, class_weights, pick_weighted, spec_branch_weight,
    spec_leaf_weight, spec_pipe_weight,
};
use crate::rng::{DeterministicRng, rng_output, rng_step};

verus! {

/// Nodes that compute a new coordinate set from the current one.
pub enum CoordMapNodes {
    Shift { x: Box<SNFloatNodes>, y: Box<SNFloatNodes> },
    Scale { x: Box<SNFloatNodes>, y: Box<SNFloatNodes> },
    Rotation { angle: Box<AngleNodes> },
    ToPolar,
    FromPolar,
    IfElse { predicate: Box<BooleanNodes>, child_a: Box<CoordMapNodes>, child_b: Box<CoordMapNodes> },
}

impl CoordMapNodes {
    pub open spec fn wf(self) -> bool
        decreases self,
    {
        match self {
            CoordMapNodes::Shift { x, y } => x.wf() && y.wf(),
            CoordMapNodes::Scale { x, y } => x.wf() && y.wf(),
            CoordMapNodes::Rotation { angle } => angle.wf(),
            CoordMapNodes::ToPolar => true,
            CoordMapNodes::FromPolar => true,
            CoordMapNodes::IfElse { predicate, child_a, child_b } => predicate.wf() && child_a.wf()
                && child_b.wf(),
        }
    }

    pub open spec fn spec_compute(self, coord: CoordinateSet, history: History) -> CoordinateSet
        decreases self,
    {
        match self {
            CoordMapNodes::Shift { x, y } => {
                let dx = x.spec_compute(coord, history);
                let dy = y.spec_compute(coord, history);
                CoordinateSet {
                    x: SNFloat { value: sn_circular(coord.x.value + dx.value) as i32 },
                    y: SNFloat { value: sn_circular(coord.y.value + dy.value) as i32 },
                    t: t_shifted(coord.t as int, 0) as i64,
                }
            },
            CoordMapNodes::Scale { x, y } => {
                let sx = x.spec_compute(coord, history);
                let sy = y.spec_compute(coord, history);
                CoordinateSet {
                    x: SNFloat {
                        value: truncated_div(coord.x.value * sx.value, SN_ONE as int) as i32,
                    },
                    y: SNFloat {
                        value: truncated_div(coord.y.value * sy.value, SN_ONE as int) as i32,
                    },
                    t: truncated_div(coord.t * SN_ONE, SN_ONE as int) as i64,
                }
            },
            CoordMapNodes::Rotation { angle } => {
                let a = angle.spec_compute(coord, history);
                let c = sn_cosine(a.value as int);
                let s = sn_sine(a.value as int);
                let xc = truncated_div(coord.x.value * c, SN_ONE as int);
                let ys = truncated_div(coord.y.value * s, SN_ONE as int);
                let xs = truncated_div(coord.x.value * s, SN_ONE as int);
                let yc = truncated_div(coord.y.value * c, SN_ONE as int);
                CoordinateSet {
                    x: SNFloat { value: sn_circular(xc - ys) as i32 },
                    y: SNFloat { value: sn_circular(xs + yc) as i32 },
                    t: coord.t,
                }
            },
            CoordMapNodes::ToPolar => {
                let a = atan2_spec(-coord.x.value as int, coord.y.value as int);
                let d = spec_isqrt(
                    coord.x.value * coord.x.value + coord.y.value * coord.y.value,
                );
                CoordinateSet {
                    x: SNFloat { value: unsigned_to_signed(a) as i32 },
                    y: SNFloat {
                        value: if d > SN_ONE {
                            SN_ONE
                        } else {
                            d as i32
                        },
                    },
                    t: coord.t,
                }
            },
            CoordMapNodes::FromPolar => {
                let a = signed_to_unsigned(coord.x.value as int) % (TURN as int);
                let c = sn_cosine(a);
                let s = sn_sine(a);
                CoordinateSet {
                    x: SNFloat { value: truncated_div(coord.y.value * c, SN_ONE as int) as i32 },
                    y: SNFloat { value: truncated_div(coord.y.value * s, SN_ONE as int) as i32 },
                    t: coord.t,
                }
            },
            CoordMapNodes::IfElse { predicate, child_a, child_b } => {
                if predicate.spec_compute(coord, history).value {
                    child_a.spec_compute(coord, history)
                } else {
                    child_b.spec_compute(coord, history)
                }
            },
        }
    }

    /// Evaluate the node against a context.
    pub fn compute(&self, state: UpdateState) -> (r: CoordinateSet)
        requires
            self.wf(),
            state.wf(),
        ensures
            r == self.spec_compute(state.coordinate_set, *state.history),
            r.wf(),
        decreases *self,
    {
        let coord: CoordinateSet = state.coordinate_set;
        match self {
            CoordMapNodes::Shift { x, y } => coord.get_coord_shifted(
                x.compute(state),
                y.compute(state),
                SNFloat::new(0),
            ),
            CoordMapNodes::Scale { x, y } => coord.get_coord_scaled(
                x.compute(state),
                y.compute(state),
                SNFloat::new(SN_ONE),
            ),
            CoordMapNodes::Rotation { angle } => {
                let a: Angle = angle.compute(state);
                let c: SNFloat = cosine(a);
                let s: SNFloat = sine(a);
                let xc: SNFloat = coord.x.multiply(c);
                let ys: SNFloat = coord.y.multiply(s);
                let xs: SNFloat = coord.x.multiply(s);
                let yc: SNFloat = coord.y.multiply(c);
                CoordinateSet {
                    x: SNFloat::new(0).circular_add_value(xc.into_inner() - ys.into_inner()),
                    y: SNFloat::new(0).circular_add_value(xs.into_inner() + yc.into_inner()),
                    t: coord.t,
                }
            },
            CoordMapNodes::ToPolar => {
                let xv: i64 = coord.x.into_inner() as i64;
                let yv: i64 = coord.y.into_inner() as i64;
                let a: i32 = atan2_units(-xv, yv);
                assert(xv * xv + yv * yv <= 0x2_0000_0000 && xv * xv >= 0 && yv * yv >= 0)
                    by (nonlinear_arith)
                    requires
                        -65536 <= xv <= 65536,
                        -65536 <= yv <= 65536,
                ;
                let d: u64 = isqrt((xv * xv + yv * yv) as u64);
                CoordinateSet {
                    x: SNFloat::new(a - SN_ONE),
                    y: if d > SN_ONE as u64 {
                        SNFloat::new(SN_ONE)
                    } else {
                        SNFloat::new(d as i32)
                    },
                    t: coord.t,
                }
            },
            CoordMapNodes::FromPolar => {
                let a: Angle = coord.x.to_angle();
                let c: SNFloat = cosine(a);
                let s: SNFloat = sine(a);
                CoordinateSet { x: coord.y.multiply(c), y: coord.y.multiply(s), t: coord.t }
            },
            CoordMapNodes::IfElse { predicate, child_a, child_b } => {
                if predicate.compute(state).into_inner() {
                    child_a.compute(state)
                } else {
                    child_b.compute(state)
                }
            },
        }
    }
}


impl CoordMapNodes {
    /// Whether every node of the tree sits at a depth where its
    /// generation weight is positive.
    pub open spec fn depth_ok(self, cfg: GrammarConfig, d: int) -> bool
        decreases self,
    {
        match self {
            CoordMapNodes::ToPolar => spec_leaf_weight(cfg, d) > 0,
            CoordMapNodes::FromPolar => spec_leaf_weight(cfg, d) > 0,
            CoordMapNodes::Rotation { angle } => spec_pipe_weight(cfg, d) > 0 && angle.depth_ok(cfg, d + 1),
            CoordMapNodes::Shift { x, y } => spec_branch_weight(cfg, d) > 0 && x.depth_ok(cfg, d + 1) && y.depth_ok(cfg, d + 1),
            CoordMapNodes::Scale { x, y } => spec_branch_weight(cfg, d) > 0 && x.depth_ok(cfg, d + 1) && y.depth_ok(cfg, d + 1),
            CoordMapNodes::IfElse { predicate, child_a, child_b } => spec_branch_weight(cfg, d) > 0 && predicate.depth_ok(cfg, d + 1) && child_a.depth_ok(cfg, d + 1) && child_b.depth_ok(cfg, d + 1),
        }
    }

    /// Grow a fresh tree at a depth: the weighted draw selects the
    /// leaf, pipe or branch class, a uniform pick within the class
    /// chooses the variant, and children grow one level deeper.
    pub fn generate_rng(rng: &mut DeterministicRng, state: State, ctx: &GenContext) -> (r: Self)
        requires
            ctx.wf(),
            state.depth <= ctx.cfg.max_leaf_depth,
        ensures
            r.wf(),
            r.depth_ok(ctx.cfg, state.depth as int),
            r == Self::spec_generate(
                old(rng).state,
                state.depth as int,
                ctx.cfg,
                ctx.image,
            ).0,
            final(rng).state == Self::spec_generate(
                old(rng).state,
                state.depth as int,
                ctx.cfg,
                ctx.image,
            ).1,
        decreases ctx.cfg.max_leaf_depth - state.depth,
    {
        let d: usize = state.depth;
        let lw: u64 = ctx.cfg.leaf_weight(d);
        let pw: u64 = ctx.cfg.pipe_weight(d);
        let bw: u64 = ctx.cfg.branch_weight(d);
        let v: Vec<u64> = class_weights(lw * 2, pw * 1, bw * 3, 0);
        let roll: u64 = rng.below(lw * 2 + pw * 1 + bw * 3);
        let idx: usize = pick_weighted(&v, roll);
        if idx == 0 {
            let k: u64 = class_index(roll, 0, lw, 2);
            if k == 0 {
                CoordMapNodes::ToPolar
            } else {
                CoordMapNodes::FromPolar
            }
        } else if idx == 1 {
            CoordMapNodes::Rotation {
                angle: Box::new(AngleNodes::generate_rng(rng, state.deepen(), ctx)),
            }
        } else {
            proof {
                assert(idx == 2);
            }
            let k: u64 = class_index(roll, lw * 2 + pw * 1, bw, 3);
            if k == 0 {
                CoordMapNodes::Shift {
                    x: Box::new(SNFloatNodes::generate_rng(rng, state.deepen(), ctx)),
                    y: Box::new(SNFloatNodes::generate_rng(rng, state.deepen(), ctx)),
                }
            } else if k == 1 {
                CoordMapNodes::Scale {
                    x: Box::new(SNFloatNodes::generate_rng(rng, state.deepen(), ctx)),
                    y: Box::new(SNFloatNodes::generate_rng(rng, state.deepen(), ctx)),
                }
            } else {
                CoordMapNodes::IfElse {
                    predicate: Box::new(BooleanNodes::generate_rng(rng, state.deepen(), ctx)),
                    child_a: Box::new(CoordMapNodes::generate_rng(rng, state.deepen(), ctx)),
                    child_b: Box::new(CoordMapNodes::generate_rng(rng, state.deepen(), ctx)),
                }
            }
        }
    }

    /// Whether one tree can come out of the other by a single
    /// mutation walk: the shape is unchanged except that leaf data may
    /// be rewritten along exactly one path.
    pub open spec fn one_path(self, other: Self) -> bool
        decreases self,
    {
        match (self, other) {
            (CoordMapNodes::ToPolar, CoordMapNodes::ToPolar) => true,
            (CoordMapNodes::FromPolar, CoordMapNodes::FromPolar) => true,
            (CoordMapNodes::Rotation { angle: angle1 }, CoordMapNodes::Rotation { angle: angle2 }) => ((*angle1).one_path(*angle2)),
            (CoordMapNodes::Shift { x: x1, y: y1 }, CoordMapNodes::Shift { x: x2, y: y2 }) => ((*x1).one_path(*x2) && y1 == y2) || (x1 == x2 && (*y1).one_path(*y2)),
            (CoordMapNodes::Scale { x: x1, y: y1 }, CoordMapNodes::Scale { x: x2, y: y2 }) => ((*x1).one_path(*x2) && y1 == y2) || (x1 == x2 && (*y1).one_path(*y2)),
            (CoordMapNodes::IfElse { predicate: predicate1, child_a: child_a1, child_b: child_b1 }, CoordMapNodes::IfElse { predicate: predicate2, child_a: child_a2, child_b: child_b2 }) => ((*predicate1).one_path(*predicate2) && child_a1 == child_a2 && child_b1 == child_b2) || (predicate1 == predicate2 && (*child_a1).one_path(*child_a2) && child_b1 == child_b2) || (predicate1 == predicate2 && child_a1 == child_a2 && (*child_b1).one_path(*child_b2)),
            _ => false,
        }
    }

    /// Mutate the tree at a depth: with the configured probability
    /// the whole subtree is rerolled fresh; otherwise one child (or the
    /// leaf's own data) is chosen and the walk continues there alone.
    pub fn mutate_rng(self, rng: &mut DeterministicRng, state: State, ctx: &GenContext) -> (r: Self)
        requires
            ctx.wf(),
            state.depth <= ctx.cfg.max_leaf_depth,
            self.wf(),
            self.depth_ok(ctx.cfg, state.depth as int),
        ensures
            r.wf(),
            r.depth_ok(ctx.cfg, state.depth as int),
            ctx.cfg.mut_reroll == 0 ==> self.one_path(r),
            r == self.spec_mutate(old(rng).state, state.depth as int, ctx.cfg, ctx.image).0,
            final(rng).state == self.spec_mutate(
                old(rng).state,
                state.depth as int,
                ctx.cfg,
                ctx.image,
            ).1,
        decreases ctx.cfg.max_leaf_depth - state.depth,
    {
        if rng.chance(ctx.cfg.mut_reroll) {
            CoordMapNodes::generate_rng(rng, state, ctx)
        } else {
            match self {
                CoordMapNodes::ToPolar => CoordMapNodes::ToPolar,
                CoordMapNodes::FromPolar => CoordMapNodes::FromPolar,
                CoordMapNodes::Rotation { angle } => CoordMapNodes::Rotation { angle: Box::new(angle.mutate_rng(rng, state.deepen(), ctx)) },
                CoordMapNodes::Shift { x, y } => {
                    let j: u64 = rng.below(2);
                    if j == 0 {
                        CoordMapNodes::Shift { x: Box::new(x.mutate_rng(rng, state.deepen(), ctx)), y }
                    } else {
                        CoordMapNodes::Shift { x, y: Box::new(y.mutate_rng(rng, state.deepen(), ctx)) }
                    }
                },
                CoordMapNodes::Scale { x, y } => {
                    let j: u64 = rng.below(2);
                    if j == 0 {
                        CoordMapNodes::Scale { x: Box::new(x.mutate_rng(rng, state.deepen(), ctx)), y }
                    } else {
                        CoordMapNodes::Scale { x, y: Box::new(y.mutate_rng(rng, state.deepen(), ctx)) }
                    }
                },
                CoordMapNodes::IfElse { predicate, child_a, child_b } => {
                    let j: u64 = rng.below(3);
                    if j == 0 {
                        CoordMapNodes::IfElse { predicate: Box::new(predicate.mutate_rng(rng, state.deepen(), ctx)), child_a, child_b }
                    } else if j == 1 {
                        CoordMapNodes::IfElse { predicate, child_a: Box::new(child_a.mutate_rng(rng, state.deepen(), ctx)), child_b }
                    } else {
                        CoordMapNodes::IfElse { predicate, child_a, child_b: Box::new(child_b.mutate_rng(rng, state.deepen(), ctx)) }
                    }
                },
            }
        }
    }
}


impl CoordMapNodes {
    /// The tree `generate_rng` grows from a generator state, paired with
    /// the state the generator is left in: the first draw selects the
    /// class and the variant, and children grow one level deeper.
    pub open spec fn spec_generate(s: u128, depth: int, cfg: GrammarConfig, img: Arc<Image>) -> (
        CoordMapNodes,
        u128,
    )
        decreases cfg.max_leaf_depth - depth, 0int,
        when cfg.wf() && 0 <= depth <= cfg.max_leaf_depth
    {
        let s1 = rng_step(s);
        let lw = spec_leaf_weight(cfg, depth);
        let pw = spec_pipe_weight(cfg, depth);
        let bw = spec_branch_weight(cfg, depth);
        let total = 2 * lw + 1 * pw + 3 * bw;
        let roll = (rng_output(s1) as int) % total;
        if roll < 2 * lw {
            let k = roll / lw;
            if k == 0 {
                (CoordMapNodes::ToPolar, s1)
            } else {
                (CoordMapNodes::FromPolar, s1)
            }
        } else if roll < 2 * lw + 1 * pw {
            let k = (roll - 2 * lw) / pw;
            ({
                    let g1 = AngleNodes::spec_generate(s1, depth + 1, cfg, img);
                    (CoordMapNodes::Rotation { angle: Box::new(g1.0) }, g1.1)
                })
        } else {
            let k = (roll - (2 * lw + 1 * pw)) / bw;
            if k == 0 {
                ({
                    let g1 = SNFloatNodes::spec_generate(s1, depth + 1, cfg, img);
                    let g2 = SNFloatNodes::spec_generate(g1.1, depth + 1, cfg, img);
                    (CoordMapNodes::Shift { x: Box::new(g1.0), y: Box::new(g2.0) }, g2.1)
                })
            } else if k == 1 {
                ({
                    let g1 = SNFloatNodes::spec_generate(s1, depth + 1, cfg, img);
                    let g2 = SNFloatNodes::spec_generate(g1.1, depth + 1, cfg, img);
                    (CoordMapNodes::Scale { x: Box::new(g1.0), y: Box::new(g2.0) }, g2.1)
                })
            } else {
                ({
                    let g1 = BooleanNodes::spec_generate(s1, depth + 1, cfg, img);
                    let g2 = CoordMapNodes::spec_generate(g1.1, depth + 1, cfg, img);
                    let g3 = CoordMapNodes::spec_generate(g2.1, depth + 1, cfg, img);
                    (CoordMapNodes::IfElse { predicate: Box::new(g1.0), child_a: Box::new(g2.0), child_b: Box::new(g3.0) }, g3.1)
                })
            }
        }
    }
    /// The tree `mutate_rng` leaves behind, paired with the state the
    /// generator is left in: the first draw decides the reroll, a reroll
    /// regenerates the whole subtree at the current depth, and otherwise
    /// the walk continues into the one child the next draw picks, a data
    /// leaf redrawing its own value instead.
    pub open spec fn spec_mutate(self, s: u128, depth: int, cfg: GrammarConfig, img: Arc<Image>) -> (
        CoordMapNodes,
        u128,
    )
        decreases cfg.max_leaf_depth - depth, 1int,
        when cfg.wf() && 0 <= depth <= cfg.max_leaf_depth && self.depth_ok(cfg, depth)
    {
        let s1 = rng_step(s);
        if rng_output(s1) % 131072 < cfg.mut_reroll {
            CoordMapNodes::spec_generate(s1, depth, cfg, img)
        } else {
            match self {
            CoordMapNodes::ToPolar => (CoordMapNodes::ToPolar, s1),
            CoordMapNodes::FromPolar => (CoordMapNodes::FromPolar, s1),
            CoordMapNodes::Rotation { angle } => ({
                    let m = (*angle).spec_mutate(s1, depth + 1, cfg, img);
                    (CoordMapNodes::Rotation { angle: Box::new(m.0) }, m.1)
                }),
            CoordMapNodes::Shift { x, y } => ({
                    let s2 = rng_step(s1);
                    let j = rng_output(s2) % 2;
                    if j == 0 {
                        let m = (*x).spec_mutate(s2, depth + 1, cfg, img);
                        (CoordMapNodes::Shift { x: Box::new(m.0), y }, m.1)
                    } else {
                        let m = (*y).spec_mutate(s2, depth + 1, cfg, img);
                        (CoordMapNodes::Shift { x, y: Box::new(m.0) }, m.1)
                    }
                }),
            CoordMapNodes::Scale { x, y } => ({
                    let s2 = rng_step(s1);
                    let j = rng_output(s2) % 2;
                    if j == 0 {
                        let m = (*x).spec_mutate(s2, depth + 1, cfg, img);
                        (CoordMapNodes::Scale { x: Box::new(m.0), y }, m.1)
                    } else {
                        let m = (*y).spec_mutate(s2, depth + 1, cfg, img);
                        (CoordMapNodes::Scale { x, y: Box::new(m.0) }, m.1)
                    }
                }),
            CoordMapNodes::IfElse { predicate, child_a, child_b } => ({
                    let s2 = rng_step(s1);
                    let j = rng_output(s2) % 3;
                    if j == 0 {
                        let m = (*predicate).spec_mutate(s2, depth + 1, cfg, img);
                        (CoordMapNodes::IfElse { predicate: Box::new(m.0), child_a, child_b }, m.1)
                    } else if j == 1 {
                        let m = (*child_a).spec_mutate(s2, depth + 1, cfg, img);
                        (CoordMapNodes::IfElse { predicate, child_a: Box::new(m.0), child_b }, m.1)
                    } else {
                        let m = (*child_b).spec_mutate(s2, depth + 1, cfg, img);
                        (CoordMapNodes::IfElse { predicate, child_a, child_b: Box::new(m.0) }, m.1)
                    }
                }),
            }
        }
    }
}

} // verus!
