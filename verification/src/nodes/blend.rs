//! Nodes that blend two colours.

use vstd::prelude::*;
use std::sync::Arc;
use crate::image::Image;
use crate::colors::{FloatColor, overlay_channel_spec, screen_channel_spec};
use crate::continuous::{UNFloat, UN_ONE};
use crate::coords::{CoordinateSet, UpdateState};
use crate::history::History;
use crate::nodes::color::FloatColorNodes;
use crate::nodes::coord_map::CoordMapNodes;
use crate::nodes::discrete::BooleanNodes;

use crate::engine::{
    GenContext, GrammarConfig, State, class_index, class_weights, pick_weighted, spec_branch_weight,
    spec_leaf_weight, spec_pipe_weight,
};
use crate::rng::{DeterministicRng, rng_output, rng_step};

verus! {

/// Nodes that compute a continuous colour by blending.
pub enum ColorBlendNodes {
    Gray,
    Invert { child: Box<FloatColorNodes> },
    Overlay { color_a: Box<FloatColorNodes>, color_b: Box<FloatColorNodes> },
    ScreenDodge { color_a: Box<FloatColorNodes>, color_b: Box<FloatColorNodes> },
    ModifyState { child: Box<ColorBlendNodes>, child_state: Box<CoordMapNodes> },
    IfElse { predicate: Box<BooleanNodes>, child_a: Box<ColorBlendNodes>, child_b: Box<ColorBlendNodes> },
}

impl ColorBlendNodes {
    pub open spec fn wf(self) -> bool
        decreases self,
    {
        match self {
            ColorBlendNodes::Gray => true,
            ColorBlendNodes::Invert { child } => child.wf(),
            ColorBlendNodes::Overlay { color_a, color_b } => color_a.wf() && color_b.wf(),
            ColorBlendNodes::ScreenDodge { color_a, color_b } => color_a.wf() && color_b.wf(),
            ColorBlendNodes::ModifyState { child, child_state } => child.wf() && child_state.wf(),
            ColorBlendNodes::IfElse { predicate, child_a, child_b } => predicate.wf()
                && child_a.wf() && child_b.wf(),
        }
    }

    pub open spec fn spec_compute(self, coord: CoordinateSet, history: History) -> FloatColor
        decreases self,
    {
        match self {
            ColorBlendNodes::Gray => FloatColor {
                r: UNFloat { value: UN_ONE },
                g: UNFloat { value: UN_ONE },
                b: UNFloat { value: UN_ONE },
                a: UNFloat { value: UN_ONE },
            },
            ColorBlendNodes::Invert { child } => {
                let c = child.spec_compute(coord, history);
                FloatColor {
                    r: UNFloat { value: (UN_ONE - c.r.value) as i32 },
                    g: UNFloat { value: (UN_ONE - c.g.value) as i32 },
                    b: UNFloat { value: (UN_ONE - c.b.value) as i32 },
                    a: UNFloat { value: (UN_ONE - c.a.value) as i32 },
                }
            },
            ColorBlendNodes::Overlay { color_a, color_b } => {
                let a = color_a.spec_compute(coord, history);
                let b = color_b.spec_compute(coord, history);
                FloatColor {
                    r: UNFloat {
                        value: overlay_channel_spec(a.r.value as int, b.r.value as int) as i32,
                    },
                    g: UNFloat {
                        value: overlay_channel_spec(a.g.value as int, b.g.value as int) as i32,
                    },
                    b: UNFloat {
                        value: overlay_channel_spec(a.b.value as int, b.b.value as int) as i32,
                    },
                    a: UNFloat { value: UN_ONE },
                }
            },
            ColorBlendNodes::ScreenDodge { color_a, color_b } => {
                let a = color_a.spec_compute(coord, history);
                let b = color_b.spec_compute(coord, history);
                FloatColor {
                    r: UNFloat {
                        value: screen_channel_spec(a.r.value as int, b.r.value as int) as i32,
                    },
                    g: UNFloat {
                        value: screen_channel_spec(a.g.value as int, b.g.value as int) as i32,
                    },
                    b: UNFloat {
                        value: screen_channel_spec(a.b.value as int, b.b.value as int) as i32,
                    },
                    a: UNFloat { value: UN_ONE },
                }
            },
            ColorBlendNodes::ModifyState { child, child_state } => child.spec_compute(
                child_state.spec_compute(coord, history),
                history,
            ),
            ColorBlendNodes::IfElse { predicate, child_a, child_b } => {
                if predicate.spec_compute(coord, history).value {
                    child_a.spec_compute(coord, history)
                } else {
                    child_b.spec_compute(coord, history)
                }
            },
        }
    }

    /// Evaluate the node against a context.
    pub fn compute(&self, state: UpdateState) -> (r: FloatColor)
        requires
            self.wf(),
            state.wf(),
        ensures
            r == self.spec_compute(state.coordinate_set, *state.history),
            r.wf(),
        decreases *self,
    {
        match self {
            ColorBlendNodes::Gray => FloatColor::white(),
            ColorBlendNodes::Invert { child } => {
                let c: FloatColor = child.compute(state);
                FloatColor {
                    r: c.r.invert(),
                    g: c.g.invert(),
                    b: c.b.invert(),
                    a: c.a.invert(),
                }
            },
            ColorBlendNodes::Overlay { color_a, color_b } => {
                let a: FloatColor = color_a.compute(state);
                let b: FloatColor = color_b.compute(state);
                FloatColor {
                    r: crate::colors::overlay_channel(a.r, b.r),
                    g: crate::colors::overlay_channel(a.g, b.g),
                    b: crate::colors::overlay_channel(a.b, b.b),
                    a: UNFloat::new(UN_ONE),
                }
            },
            ColorBlendNodes::ScreenDodge { color_a, color_b } => {
                let a: FloatColor = color_a.compute(state);
                let b: FloatColor = color_b.compute(state);
                FloatColor {
                    r: crate::colors::screen_channel(a.r, b.r),
                    g: crate::colors::screen_channel(a.g, b.g),
                    b: crate::colors::screen_channel(a.b, b.b),
                    a: UNFloat::new(UN_ONE),
                }
            },
            ColorBlendNodes::ModifyState { child, child_state } => child.compute(
                UpdateState { coordinate_set: child_state.compute(state), ..state },
            ),
            ColorBlendNodes::IfElse { predicate, child_a, child_b } => {
                if predicate.compute(state).into_inner() {
                    child_a.compute(state)
                } else {
                    child_b.compute(state)
                }
            },
        }
    }
}


impl ColorBlendNodes {
    /// Whether every node of the tree sits at a depth where its
    /// generation weight is positive.
    pub open spec fn depth_ok(self, cfg: GrammarConfig, d: int) -> bool
        decreases self,
    {
        match self {
            ColorBlendNodes::Gray => spec_leaf_weight(cfg, d) > 0,
            ColorBlendNodes::Invert { child } => spec_pipe_weight(cfg, d) > 0 && child.depth_ok(cfg, d + 1),
            ColorBlendNodes::Overlay { color_a, color_b } => spec_branch_weight(cfg, d) > 0 && color_a.depth_ok(cfg, d + 1) && color_b.depth_ok(cfg, d + 1),
            ColorBlendNodes::ScreenDodge { color_a, color_b } => spec_branch_weight(cfg, d) > 0 && color_a.depth_ok(cfg, d + 1) && color_b.depth_ok(cfg, d + 1),
            ColorBlendNodes::ModifyState { child, child_state } => spec_branch_weight(cfg, d) > 0 && child.depth_ok(cfg, d + 1) && child_state.depth_ok(cfg, d + 1),
            ColorBlendNodes::IfElse { predicate, child_a, child_b } => spec_branch_weight(cfg, d) > 0 && predicate.depth_ok(cfg, d + 1) && child_a.depth_ok(cfg, d + 1) && child_b.depth_ok(cfg, d + 1),
        }
    }

    /// Grow a fresh tree at a depth: the weighted draw selects the
    /// leaf, pipe or branch class, a uniform pick within the class
    /// chooses the variant, and children grow one level deeper.
    pub fn generate_rng(rng: &mut DeterministicRng, state: State, ctx: &GenContext) -> (r: Self)
        requires
            ctx.wf(),
            state.depth <= ctx.cfg.max_leaf_depth,
        ensures
            r.wf(),
            r.depth_ok(ctx.cfg, state.depth as int),
            r == Self::spec_generate(
                old(rng).state,
                state.depth as int,
                ctx.cfg,
                ctx.image,
            ).0,
            final(rng).state == Self::spec_generate(
                old(rng).state,
                state.depth as int,
                ctx.cfg,
                ctx.image,
            ).1,
        decreases ctx.cfg.max_leaf_depth - state.depth,
    {
        let d: usize = state.depth;
        let lw: u64 = ctx.cfg.leaf_weight(d);
        let pw: u64 = ctx.cfg.pipe_weight(d);
        let bw: u64 = ctx.cfg.branch_weight(d);
        let v: Vec<u64> = class_weights(lw * 1, pw * 1, bw * 4, 0);
        let roll: u64 = rng.below(lw * 1 + pw * 1 + bw * 4);
        let idx: usize = pick_weighted(&v, roll);
        if idx == 0 {
            ColorBlendNodes::Gray
        } else if idx == 1 {
            ColorBlendNodes::Invert {
                child: Box::new(FloatColorNodes::generate_rng(rng, state.deepen(), ctx)),
            }
        } else {
            proof {
                assert(idx == 2);
            }
            let k: u64 = class_index(roll, lw * 1 + pw * 1, bw, 4);
            if k == 0 {
                ColorBlendNodes::Overlay {
                    color_a: Box::new(FloatColorNodes::generate_rng(rng, state.deepen(), ctx)),
                    color_b: Box::new(FloatColorNodes::generate_rng(rng, state.deepen(), ctx)),
                }
            } else if k == 1 {
                ColorBlendNodes::ScreenDodge {
                    color_a: Box::new(FloatColorNodes::generate_rng(rng, state.deepen(), ctx)),
                    color_b: Box::new(FloatColorNodes::generate_rng(rng, state.deepen(), ctx)),
                }
            } else if k == 2 {
                ColorBlendNodes::ModifyState {
                    child: Box::new(ColorBlendNodes::generate_rng(rng, state.deepen(), ctx)),
                    child_state: Box::new(CoordMapNodes::generate_rng(rng, state.deepen(), ctx)),
                }
            } else {
                ColorBlendNodes::IfElse {
                    predicate: Box::new(BooleanNodes::generate_rng(rng, state.deepen(), ctx)),
                    child_a: Box::new(ColorBlendNodes::generate_rng(rng, state.deepen(), ctx)),
                    child_b: Box::new(ColorBlendNodes::generate_rng(rng, state.deepen(), ctx)),
                }
            }
        }
    }

    /// Whether one tree can come out of the other by a single
    /// mutation walk: the shape is unchanged except that leaf data may
    /// be rewritten along exactly one path.
    pub open spec fn one_path(self, other: Self) -> bool
        decreases self,
    {
        match (self, other) {
            (ColorBlendNodes::Gray, ColorBlendNodes::Gray) => true,
            (ColorBlendNodes::Invert { child: child1 }, ColorBlendNodes::Invert { child: child2 }) => ((*child1).one_path(*child2)),
            (ColorBlendNodes::Overlay { color_a: color_a1, color_b: color_b1 }, ColorBlendNodes::Overlay { color_a: color_a2, color_b: color_b2 }) => ((*color_a1).one_path(*color_a2) && color_b1 == color_b2) || (color_a1 == color_a2 && (*color_b1).one_path(*color_b2)),
            (ColorBlendNodes::ScreenDodge { color_a: color_a1, color_b: color_b1 }, ColorBlendNodes::ScreenDodge { color_a: color_a2, color_b: color_b2 }) => ((*color_a1).one_path(*color_a2) && color_b1 == color_b2) || (color_a1 == color_a2 && (*color_b1).one_path(*color_b2)),
            (ColorBlendNodes::ModifyState { child: child1, child_state: child_state1 }, ColorBlendNodes::ModifyState { child: child2, child_state: child_state2 }) => ((*child1).one_path(*child2) && child_state1 == child_state2) || (child1 == child2 && (*child_state1).one_path(*child_state2)),
            (ColorBlendNodes::IfElse { predicate: predicate1, child_a: child_a1, child_b: child_b1 }, ColorBlendNodes::IfElse { predicate: predicate2, child_a: child_a2, child_b: child_b2 }) => ((*predicate1).one_path(*predicate2) && child_a1 == child_a2 && child_b1 == child_b2) || (predicate1 == predicate2 && (*child_a1).one_path(*child_a2) && child_b1 == child_b2) || (predicate1 == predicate2 && child_a1 == child_a2 && (*child_b1).one_path(*child_b2)),
            _ => false,
        }
    }

    /// Mutate the tree at a depth: with the configured probability
    /// the whole subtree is rerolled fresh; otherwise one child (or the
    /// leaf's own data) is chosen and the walk continues there alone.
    pub fn mutate_rng(self, rng: &mut DeterministicRng, state: State, ctx: &GenContext) -> (r: Self)
        requires
            ctx.wf(),
            state.depth <= ctx.cfg.max_leaf_depth,
            self.wf(),
            self.depth_ok(ctx.cfg, state.depth as int),
        ensures
            r.wf(),
            r.depth_ok(ctx.cfg, state.depth as int),
            ctx.cfg.mut_reroll == 0 ==> self.one_path(r),
            r == self.spec_mutate(old(rng).state, state.depth as int, ctx.cfg, ctx.image).0,
            final(rng).state == self.spec_mutate(
                old(rng).state,
                state.depth as int,
                ctx.cfg,
                ctx.image,
            ).1,
        decreases ctx.cfg.max_leaf_depth - state.depth,
    {
        if rng.chance(ctx.cfg.mut_reroll) {
            ColorBlendNodes::generate_rng(rng, state, ctx)
        } else {
            match self {
                ColorBlendNodes::Gray => ColorBlendNodes::Gray,
                ColorBlendNodes::Invert { child } => ColorBlendNodes::Invert { child: Box::new(child.mutate_rng(rng, state.deepen(), ctx)) },
                ColorBlendNodes::Overlay { color_a, color_b } => {
                    let j: u64 = rng.below(2);
                    if j == 0 {
                        ColorBlendNodes::Overlay { color_a: Box::new(color_a.mutate_rng(rng, state.deepen(), ctx)), color_b }
                    } else {
                        ColorBlendNodes::Overlay { color_a, color_b: Box::new(color_b.mutate_rng(rng, state.deepen(), ctx)) }
                    }
                },
                ColorBlendNodes::ScreenDodge { color_a, color_b } => {
                    let j: u64 = rng.below(2);
                    if j == 0 {
                        ColorBlendNodes::ScreenDodge { color_a: Box::new(color_a.mutate_rng(rng, state.deepen(), ctx)), color_b }
                    } else {
                        ColorBlendNodes::ScreenDodge { color_a, color_b: Box::new(color_b.mutate_rng(rng, state.deepen(), ctx)) }
                    }
                },
                ColorBlendNodes::ModifyState { child, child_state } => {
                    let j: u64 = rng.below(2);
                    if j == 0 {
                        ColorBlendNodes::ModifyState { child: Box::new(child.mutate_rng(rng, state.deepen(), ctx)), child_state }
                    } else {
                        ColorBlendNodes::ModifyState { child, child_state: Box::new(child_state.mutate_rng(rng, state.deepen(), ctx)) }
                    }
                },
                ColorBlendNodes::IfElse { predicate, child_a, child_b } => {
                    let j: u64 = rng.below(3);
                    if j == 0 {
                        ColorBlendNodes::IfElse { predicate: Box::new(predicate.mutate_rng(rng, state.deepen(), ctx)), child_a, child_b }
                    } else if j == 1 {
                        ColorBlendNodes::IfElse { predicate, child_a: Box::new(child_a.mutate_rng(rng, state.deepen(), ctx)), child_b }
                    } else {
                        ColorBlendNodes::IfElse { predicate, child_a, child_b: Box::new(child_b.mutate_rng(rng, state.deepen(), ctx)) }
                    }
                },
            }
        }
    }
}


impl ColorBlendNodes {
    /// The tree `generate_rng` grows from a generator state, paired with
    /// the state the generator is left in: the first draw selects the
    /// class and the variant, and children grow one level deeper.
    pub open spec fn spec_generate(s: u128, depth: int, cfg: GrammarConfig, img: Arc<Image>) -> (
        ColorBlendNodes,
        u128,
    )
        decreases cfg.max_leaf_depth - depth, 0int,
        when cfg.wf() && 0 <= depth <= cfg.max_leaf_depth
    {
        let s1 = rng_step(s);
        let lw = spec_leaf_weight(cfg, depth);
        let pw = spec_pipe_weight(cfg, depth);
        let bw = spec_branch_weight(cfg, depth);
        let total = 1 * lw + 1 * pw + 4 * bw;
        let roll = (rng_output(s1) as int) % total;
        if roll < 1 * lw {
            let k = roll / lw;
            (ColorBlendNodes::Gray, s1)
        } else if roll < 1 * lw + 1 * pw {
            let k = (roll - 1 * lw) / pw;
            ({
                    let g1 = FloatColorNodes::spec_generate(s1, depth + 1, cfg, img);
                    (ColorBlendNodes::Invert { child: Box::new(g1.0) }, g1.1)
                })
        } else {
            let k = (roll - (1 * lw + 1 * pw)) / bw;
            if k == 0 {
                ({
                    let g1 = FloatColorNodes::spec_generate(s1, depth + 1, cfg, img);
                    let g2 = FloatColorNodes::spec_generate(g1.1, depth + 1, cfg, img);
                    (ColorBlendNodes::Overlay { color_a: Box::new(g1.0), color_b: Box::new(g2.0) }, g2.1)
                })
            } else if k == 1 {
                ({
                    let g1 = FloatColorNodes::spec_generate(s1, depth + 1, cfg, img);
                    let g2 = FloatColorNodes::spec_generate(g1.1, depth + 1, cfg, img);
                    (ColorBlendNodes::ScreenDodge { color_a: Box::new(g1.0), color_b: Box::new(g2.0) }, g2.1)
                })
            } else if k == 2 {
                ({
                    let g1 = ColorBlendNodes::spec_generate(s1, depth + 1, cfg, img);
                    let g2 = CoordMapNodes::spec_generate(g1.1, depth + 1, cfg, img);
                    (ColorBlendNodes::ModifyState { child: Box::new(g1.0), child_state: Box::new(g2.0) }, g2.1)
                })
            } else {
                ({
                    let g1 = BooleanNodes::spec_generate(s1, depth + 1, cfg, img);
                    let g2 = ColorBlendNodes::spec_generate(g1.1, depth + 1, cfg, img);
                    let g3 = ColorBlendNodes::spec_generate(g2.1, depth + 1, cfg, img);
                    (ColorBlendNodes::IfElse { predicate: Box::new(g1.0), child_a: Box::new(g2.0), child_b: Box::new(g3.0) }, g3.1)
                })
            }
        }
    }
    /// The tree `mutate_rng` leaves behind, paired with the state the
    /// generator is left in: the first draw decides the reroll, a reroll
    /// regenerates the whole subtree at the current depth, and otherwise
    /// the walk continues into the one child the next draw picks, a data
    /// leaf redrawing its own value instead.
    pub open spec fn spec_mutate(self, s: u128, depth: int, cfg: GrammarConfig, img: Arc<Image>) -> (
        ColorBlendNodes,
        u128,
    )
        decreases cfg.max_leaf_depth - depth, 1int,
        when cfg.wf() && 0 <= depth <= cfg.max_leaf_depth && self.depth_ok(cfg, depth)
    {
        let s1 = rng_step(s);
        if rng_output(s1) % 131072 < cfg.mut_reroll {
            ColorBlendNodes::spec_generate(s1, depth, cfg, img)
        } else {
            match self {
            ColorBlendNodes::Gray => (ColorBlendNodes::Gray, s1),
            ColorBlendNodes::Invert { child } => ({
                    let m = (*child).spec_mutate(s1, depth + 1, cfg, img);
                    (ColorBlendNodes::Invert { child: Box::new(m.0) }, m.1)
                }),
            ColorBlendNodes::Overlay { color_a, color_b } => ({
                    let s2 = rng_step(s1);
                    let j = rng_output(s2) % 2;
                    if j == 0 {
                        let m = (*color_a).spec_mutate(s2, depth + 1, cfg, img);
                        (ColorBlendNodes::Overlay { color_a: Box::new(m.0), color_b }, m.1)
                    } else {
                        let m = (*color_b).spec_mutate(s2, depth + 1, cfg, img);
                        (ColorBlendNodes::Overlay { color_a, color_b: Box::new(m.0) }, m.1)
                    }
                }),
            ColorBlendNodes::ScreenDodge { color_a, color_b } => ({
                    let s2 = rng_step(s1);
                    let j = rng_output(s2) % 2;
                    if j == 0 {
                        let m = (*color_a).spec_mutate(s2, depth + 1, cfg, img);
                        (ColorBlendNodes::ScreenDodge { color_a: Box::new(m.0), color_b }, m.1)
                    } else {
                        let m = (*color_b).spec_mutate(s2, depth + 1, cfg, img);
                        (ColorBlendNodes::ScreenDodge { color_a, color_b: Box::new(m.0) }, m.1)
                    }
                }),
            ColorBlendNodes::ModifyState { child, child_state } => ({
                    let s2 = rng_step(s1);
                    let j = rng_output(s2) % 2;
                    if j == 0 {
                        let m = (*child).spec_mutate(s2, depth + 1, cfg, img);
                        (ColorBlendNodes::ModifyState { child: Box::new(m.0), child_state }, m.1)
                    } else {
                        let m = (*child_state).spec_mutate(s2, depth + 1, cfg, img);
                        (ColorBlendNodes::ModifyState { child, child_state: Box::new(m.0) }, m.1)
                    }
                }),
            ColorBlendNodes::IfElse { predicate, child_a, child_b } => ({
                    let s2 = rng_step(s1);
                    let j = rng_output(s2) % 3;
                    if j == 0 {
                        let m = (*predicate).spec_mutate(s2, depth + 1, cfg, img);
                        (ColorBlendNodes::IfElse { predicate: Box::new(m.0), child_a, child_b }, m.1)
                    } else if j == 1 {
                        let m = (*child_a).spec_mutate(s2, depth + 1, cfg, img);
                        (ColorBlendNodes::IfElse { predicate, child_a: Box::new(m.0), child_b }, m.1)
                    } else {
                        let m = (*child_b).spec_mutate(s2, depth + 1, cfg, img);
                        (ColorBlendNodes::IfElse { predicate, child_a, child_b: Box::new(m.0) }, m.1)
                    }
                }),
            }
        }
    }
}

} // verus!
