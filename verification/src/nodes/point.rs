//! Nodes that compute a point of the signed-normalised plane.

use vstd::prelude::*;
use std::sync::Arc;
use crate::image::Image;
use crate::continuous::SNFloat;
use crate::coords::{CoordinateSet, UpdateState};
use crate::engine::{
    GenContext, GrammarConfig, State, class_index, class_weights, pick_weighted, spec_branch_weight,
    spec_leaf_weight, spec_pipe_weight,
};
use crate::history::History;
use crate::nodes::continuous::SNFloatNodes;
use crate::points::SNPoint;
use crate::rng::{DeterministicRng, rng_output, rng_step};

verus! {

/// Nodes that compute a point.
pub enum SNPointNodes {
    Zero,
    Constant { value: SNPoint },
    Invert { child: Box<SNPointNodes> },
    FromSNFloats { child_a: Box<SNFloatNodes>, child_b: Box<SNFloatNodes> },
}

impl SNPointNodes {
    pub open spec fn wf(self) -> bool
        decreases self,
    {
        match self {
            SNPointNodes::Zero => true,
            SNPointNodes::Constant { value } => value.wf(),
            SNPointNodes::Invert { child } => child.wf(),
            SNPointNodes::FromSNFloats { child_a, child_b } => child_a.wf() && child_b.wf(),
        }
    }

    pub open spec fn spec_compute(self, coord: CoordinateSet, history: History) -> SNPoint
        decreases self,
    {
        match self {
            SNPointNodes::Zero => SNPoint::spec_zero(),
            SNPointNodes::Constant { value } => value,
            SNPointNodes::Invert { child } => {
                let p = child.spec_compute(coord, history);
                SNPoint {
                    x: crate::continuous::SNFloat { value: (-p.x.value) as i32 },
                    y: crate::continuous::SNFloat { value: (-p.y.value) as i32 },
                }
            },
            SNPointNodes::FromSNFloats { child_a, child_b } => SNPoint {
                x: child_a.spec_compute(coord, history),
                y: child_b.spec_compute(coord, history),
            },
        }
    }

    /// Evaluate the node against a context.
    pub fn compute(&self, state: UpdateState) -> (r: SNPoint)
        requires
            self.wf(),
            state.wf(),
        ensures
            r == self.spec_compute(state.coordinate_set, *state.history),
            r.wf(),
        decreases *self,
    {
        match self {
            SNPointNodes::Zero => SNPoint::zero(),
            SNPointNodes::Constant { value } => *value,
            SNPointNodes::Invert { child } => child.compute(state).invert(),
            SNPointNodes::FromSNFloats { child_a, child_b } => SNPoint::new(
                child_a.compute(state),
                child_b.compute(state),
            ),
        }
    }

    /// Whether every node of the tree sits at a depth where its
    /// generation weight is positive.
    pub open spec fn depth_ok(self, cfg: GrammarConfig, d: int) -> bool
        decreases self,
    {
        match self {
            SNPointNodes::Zero => spec_leaf_weight(cfg, d) > 0,
            SNPointNodes::Constant { value } => spec_leaf_weight(cfg, d) > 0,
            SNPointNodes::Invert { child } => spec_pipe_weight(cfg, d) > 0 && child.depth_ok(
                cfg,
                d + 1,
            ),
            SNPointNodes::FromSNFloats { child_a, child_b } => spec_branch_weight(cfg, d) > 0
                && child_a.depth_ok(cfg, d + 1) && child_b.depth_ok(cfg, d + 1),
        }
    }

    /// Grow a fresh tree at a depth: the weighted draw selects the leaf,
    /// pipe or branch class, a uniform pick within the class chooses the
    /// variant, and children grow one level deeper.
    pub fn generate_rng(rng: &mut DeterministicRng, state: State, ctx: &GenContext) -> (r: Self)
        requires
            ctx.wf(),
            state.depth <= ctx.cfg.max_leaf_depth,
        ensures
            r.wf(),
            r.depth_ok(ctx.cfg, state.depth as int),
            r == Self::spec_generate(
                old(rng).state,
                state.depth as int,
                ctx.cfg,
                ctx.image,
            ).0,
            final(rng).state == Self::spec_generate(
                old(rng).state,
                state.depth as int,
                ctx.cfg,
                ctx.image,
            ).1,
        decreases ctx.cfg.max_leaf_depth - state.depth,
    {
        let d: usize = state.depth;
        let lw: u64 = ctx.cfg.leaf_weight(d);
        let pw: u64 = ctx.cfg.pipe_weight(d);
        let bw: u64 = ctx.cfg.branch_weight(d);
        let v: Vec<u64> = class_weights(lw * 2, pw * 1, bw * 1, 0);
        let roll: u64 = rng.below(lw * 2 + pw * 1 + bw * 1);
        let idx: usize = pick_weighted(&v, roll);
        if idx == 0 {
            let k: u64 = class_index(roll, 0, lw, 2);
            if k == 0 {
                SNPointNodes::Zero
            } else {
                SNPointNodes::Constant {
                    value: SNPoint::new(
                        SNFloat::new(rng.signed_units()),
                        SNFloat::new(rng.signed_units()),
                    ),
                }
            }
        } else if idx == 1 {
            SNPointNodes::Invert {
                child: Box::new(SNPointNodes::generate_rng(rng, state.deepen(), ctx)),
            }
        } else {
            proof {
                assert(idx == 2);
            }
            SNPointNodes::FromSNFloats {
                child_a: Box::new(SNFloatNodes::generate_rng(rng, state.deepen(), ctx)),
                child_b: Box::new(SNFloatNodes::generate_rng(rng, state.deepen(), ctx)),
            }
        }
    }

    /// Whether one tree can come out of the other by a single mutation
    /// walk: the shape is unchanged except that leaf data may be
    /// rewritten along exactly one path.
    pub open spec fn one_path(self, other: Self) -> bool
        decreases self,
    {
        match (self, other) {
            (SNPointNodes::Zero, SNPointNodes::Zero) => true,
            (SNPointNodes::Constant { value: a }, SNPointNodes::Constant { value: b }) => true,
            (SNPointNodes::Invert { child: a }, SNPointNodes::Invert { child: b }) => (*a).one_path(
                *b,
            ),
            (
                SNPointNodes::FromSNFloats { child_a: a1, child_b: b1 },
                SNPointNodes::FromSNFloats { child_a: a2, child_b: b2 },
            ) => ((*a1).one_path(*a2) && b1 == b2) || (a1 == a2 && (*b1).one_path(*b2)),
            _ => false,
        }
    }

    /// Mutate the tree at a depth: with the configured probability the
    /// whole subtree is rerolled fresh; otherwise one child (or the
    /// leaf's own data) is chosen and the walk continues there alone.
    pub fn mutate_rng(self, rng: &mut DeterministicRng, state: State, ctx: &GenContext) -> (r: Self)
        requires
            ctx.wf(),
            state.depth <= ctx.cfg.max_leaf_depth,
            self.wf(),
            self.depth_ok(ctx.cfg, state.depth as int),
        ensures
            r.wf(),
            r.depth_ok(ctx.cfg, state.depth as int),
            ctx.cfg.mut_reroll == 0 ==> self.one_path(r),
            r == self.spec_mutate(old(rng).state, state.depth as int, ctx.cfg, ctx.image).0,
            final(rng).state == self.spec_mutate(
                old(rng).state,
                state.depth as int,
                ctx.cfg,
                ctx.image,
            ).1,
        decreases ctx.cfg.max_leaf_depth - state.depth,
    {
        if rng.chance(ctx.cfg.mut_reroll) {
            SNPointNodes::generate_rng(rng, state, ctx)
        } else {
            match self {
                SNPointNodes::Zero => SNPointNodes::Zero,
                SNPointNodes::Constant { value } => SNPointNodes::Constant {
                    value: SNPoint::new(
                        SNFloat::new(rng.signed_units()),
                        SNFloat::new(rng.signed_units()),
                    ),
                },
                SNPointNodes::Invert { child } => SNPointNodes::Invert {
                    child: Box::new(child.mutate_rng(rng, state.deepen(), ctx)),
                },
                SNPointNodes::FromSNFloats { child_a, child_b } => {
                    if rng.below(2) == 0 {
                        SNPointNodes::FromSNFloats {
                            child_a: Box::new(child_a.mutate_rng(rng, state.deepen(), ctx)),
                            child_b,
                        }
                    } else {
                        SNPointNodes::FromSNFloats {
                            child_a,
                            child_b: Box::new(child_b.mutate_rng(rng, state.deepen(), ctx)),
                        }
                    }
                },
            }
        }
    }
}


impl SNPointNodes {
    /// The tree `generate_rng` grows from a generator state, paired with
    /// the state the generator is left in: the first draw selects the
    /// class and the variant, and children grow one level deeper.
    pub open spec fn spec_generate(s: u128, depth: int, cfg: GrammarConfig, img: Arc<Image>) -> (
        SNPointNodes,
        u128,
    )
        decreases cfg.max_leaf_depth - depth, 0int,
        when cfg.wf() && 0 <= depth <= cfg.max_leaf_depth
    {
        let s1 = rng_step(s);
        let lw = spec_leaf_weight(cfg, depth);
        let pw = spec_pipe_weight(cfg, depth);
        let bw = spec_branch_weight(cfg, depth);
        let total = 2 * lw + 1 * pw + 1 * bw;
        let roll = (rng_output(s1) as int) % total;
        if roll < 2 * lw {
            let k = roll / lw;
            if k == 0 {
                (SNPointNodes::Zero, s1)
            } else {
                ({
                    let t1 = rng_step(s1);
                    let t2 = rng_step(t1);
                    (SNPointNodes::Constant { value: SNPoint { x: SNFloat { value: ((rng_output(t1) % 131073) - 65536) as i32 }, y: SNFloat { value: ((rng_output(t2) % 131073) - 65536) as i32 } } }, t2)
                })
            }
        } else if roll < 2 * lw + 1 * pw {
            let k = (roll - 2 * lw) / pw;
            ({
                    let g1 = SNPointNodes::spec_generate(s1, depth + 1, cfg, img);
                    (SNPointNodes::Invert { child: Box::new(g1.0) }, g1.1)
                })
        } else {
            let k = (roll - (2 * lw + 1 * pw)) / bw;
            ({
                    let g1 = SNFloatNodes::spec_generate(s1, depth + 1, cfg, img);
                    let g2 = SNFloatNodes::spec_generate(g1.1, depth + 1, cfg, img);
                    (SNPointNodes::FromSNFloats { child_a: Box::new(g1.0), child_b: Box::new(g2.0) }, g2.1)
                })
        }
    }
    /// The tree `mutate_rng` leaves behind, paired with the state the
    /// generator is left in: the first draw decides the reroll, a reroll
    /// regenerates the whole subtree at the current depth, and otherwise
    /// the walk continues into the one child the next draw picks, a data
    /// leaf redrawing its own value instead.
    pub open spec fn spec_mutate(self, s: u128, depth: int, cfg: GrammarConfig, img: Arc<Image>) -> (
        SNPointNodes,
        u128,
    )
        decreases cfg.max_leaf_depth - depth, 1int,
        when cfg.wf() && 0 <= depth <= cfg.max_leaf_depth && self.depth_ok(cfg, depth)
    {
        let s1 = rng_step(s);
        if rng_output(s1) % 131072 < cfg.mut_reroll {
            SNPointNodes::spec_generate(s1, depth, cfg, img)
        } else {
            match self {
            SNPointNodes::Zero => (SNPointNodes::Zero, s1),
            SNPointNodes::Constant { value } => ({
                    let t1 = rng_step(s1);
                    let t2 = rng_step(t1);
                    (SNPointNodes::Constant { value: SNPoint { x: SNFloat { value: ((rng_output(t1) % 131073) - 65536) as i32 }, y: SNFloat { value: ((rng_output(t2) % 131073) - 65536) as i32 } } }, t2)
                }),
            SNPointNodes::Invert { child } => ({
                    let m = (*child).spec_mutate(s1, depth + 1, cfg, img);
                    (SNPointNodes::Invert { child: Box::new(m.0) }, m.1)
                }),
            SNPointNodes::FromSNFloats { child_a, child_b } => ({
                    let s2 = rng_step(s1);
                    let j = rng_output(s2) % 2;
                    if j == 0 {
                        let m = (*child_a).spec_mutate(s2, depth + 1, cfg, img);
                        (SNPointNodes::FromSNFloats { child_a: Box::new(m.0), child_b }, m.1)
                    } else {
                        let m = (*child_b).spec_mutate(s2, depth + 1, cfg, img);
                        (SNPointNodes::FromSNFloats { child_a, child_b: Box::new(m.0) }, m.1)
                    }
                }),
            }
        }
    }
}

} // verus!
