//! Node families computing booleans and wrapping integers.

use vstd::prelude::*;
use std::sync::Arc;
use crate::image::Image;
use crate::continuous::SN_ONE;
use crate::coords::{CoordinateSet, UpdateState};
use crate::discrete::{Boolean, Byte, Nibble, SInt, UInt};
use crate::engine::{
    GenContext, GrammarConfig, State, WEIGHT_ONE, class_index, class_weights, pick_weighted,
    spec_branch_weight, spec_leaf_weight, spec_pipe_weight,
};
use crate::rng::{DeterministicRng, rng_output, rng_step};
use crate::history::History;
use crate::nodes::color::BitColorNodes;
use crate::nodes::continuous::{SNFloatNodes, UNFloatNodes};
use crate::nodes::coord_map::CoordMapNodes;

verus! {

/// Nodes that compute a boolean.
pub enum BooleanNodes {
    UNFloatLess { child_a: Box<UNFloatNodes>, child_b: Box<UNFloatNodes> },
    UNFloatMore { child_a: Box<UNFloatNodes>, child_b: Box<UNFloatNodes> },
    SNFloatLess { child_a: Box<SNFloatNodes>, child_b: Box<SNFloatNodes> },
    SNFloatMore { child_a: Box<SNFloatNodes>, child_b: Box<SNFloatNodes> },
    SNFloatSign { child: Box<SNFloatNodes> },
    And { child_a: Box<BooleanNodes>, child_b: Box<BooleanNodes> },
    Or { child_a: Box<BooleanNodes>, child_b: Box<BooleanNodes> },
    Not { child: Box<BooleanNodes> },
    BitColorHas { child_a: Box<BitColorNodes>, child_b: Box<BitColorNodes> },
    Constant { child: Boolean },
    ModifyState { child: Box<BooleanNodes>, child_state: Box<CoordMapNodes> },
    IfElse { predicate: Box<BooleanNodes>, child_a: Box<BooleanNodes>, child_b: Box<BooleanNodes> },
    ByteEquals { child_a: Box<ByteNodes>, child_b: Box<ByteNodes> },
}

impl BooleanNodes {
    pub open spec fn wf(self) -> bool
        decreases self,
    {
        match self {
            BooleanNodes::UNFloatLess { child_a, child_b } => child_a.wf() && child_b.wf(),
            BooleanNodes::UNFloatMore { child_a, child_b } => child_a.wf() && child_b.wf(),
            BooleanNodes::SNFloatLess { child_a, child_b } => child_a.wf() && child_b.wf(),
            BooleanNodes::SNFloatMore { child_a, child_b } => child_a.wf() && child_b.wf(),
            BooleanNodes::SNFloatSign { child } => child.wf(),
            BooleanNodes::And { child_a, child_b } => child_a.wf() && child_b.wf(),
            BooleanNodes::Or { child_a, child_b } => child_a.wf() && child_b.wf(),
            BooleanNodes::Not { child } => child.wf(),
            BooleanNodes::BitColorHas { child_a, child_b } => child_a.wf() && child_b.wf(),
            BooleanNodes::Constant { child } => true,
            BooleanNodes::ModifyState { child, child_state } => child.wf() && child_state.wf(),
            BooleanNodes::IfElse { predicate, child_a, child_b } => predicate.wf() && child_a.wf()
                && child_b.wf(),
            BooleanNodes::ByteEquals { child_a, child_b } => child_a.wf() && child_b.wf(),
        }
    }

    pub open spec fn spec_compute(self, coord: CoordinateSet, history: History) -> Boolean
        decreases self,
    {
        match self {
            BooleanNodes::UNFloatLess { child_a, child_b } => Boolean {
                value: child_a.spec_compute(coord, history).value < child_b.spec_compute(
                    coord,
                    history,
                ).value,
            },
            BooleanNodes::UNFloatMore { child_a, child_b } => Boolean {
                value: child_a.spec_compute(coord, history).value > child_b.spec_compute(
                    coord,
                    history,
                ).value,
            },
            BooleanNodes::SNFloatLess { child_a, child_b } => Boolean {
                value: child_a.spec_compute(coord, history).value < child_b.spec_compute(
                    coord,
                    history,
                ).value,
            },
            BooleanNodes::SNFloatMore { child_a, child_b } => Boolean {
                value: child_a.spec_compute(coord, history).value > child_b.spec_compute(
                    coord,
                    history,
                ).value,
            },
            BooleanNodes::SNFloatSign { child } => Boolean {
                value: child.spec_compute(coord, history).value >= 0,
            },
            BooleanNodes::And { child_a, child_b } => Boolean {
                value: child_a.spec_compute(coord, history).value && child_b.spec_compute(
                    coord,
                    history,
                ).value,
            },
            BooleanNodes::Or { child_a, child_b } => Boolean {
                value: child_a.spec_compute(coord, history).value || child_b.spec_compute(
                    coord,
                    history,
                ).value,
            },
            BooleanNodes::Not { child } => Boolean {
                value: !child.spec_compute(coord, history).value,
            },
            BooleanNodes::BitColorHas { child_a, child_b } => {
                let a = child_a.spec_compute(coord, history).bit_components();
                let b = child_b.spec_compute(coord, history).bit_components();
                Boolean { value: (a.0 && b.0) || (a.1 && b.1) || (a.2 && b.2) }
            },
            BooleanNodes::Constant { child } => child,
            BooleanNodes::ModifyState { child, child_state } => child.spec_compute(
                child_state.spec_compute(coord, history),
                history,
            ),
            BooleanNodes::IfElse { predicate, child_a, child_b } => {
                if predicate.spec_compute(coord, history).value {
                    child_a.spec_compute(coord, history)
                } else {
                    child_b.spec_compute(coord, history)
                }
            },
            BooleanNodes::ByteEquals { child_a, child_b } => Boolean {
                value: child_a.spec_compute(coord, history).value == child_b.spec_compute(
                    coord,
                    history,
                ).value,
            },
        }
    }

    /// Evaluate the node against a context; a pure function of the node
    /// and the context, computing exactly one arm of each conditional.
    pub fn compute(&self, state: UpdateState) -> (r: Boolean)
        requires
            self.wf(),
            state.wf(),
        ensures
            r == self.spec_compute(state.coordinate_set, *state.history),
        decreases *self,
    {
        match self {
            BooleanNodes::UNFloatLess { child_a, child_b } => Boolean {
                value: child_a.compute(state).into_inner() < child_b.compute(state).into_inner(),
            },
            BooleanNodes::UNFloatMore { child_a, child_b } => Boolean {
                value: child_a.compute(state).into_inner() > child_b.compute(state).into_inner(),
            },
            BooleanNodes::SNFloatLess { child_a, child_b } => Boolean {
                value: child_a.compute(state).into_inner() < child_b.compute(state).into_inner(),
            },
            BooleanNodes::SNFloatMore { child_a, child_b } => Boolean {
                value: child_a.compute(state).into_inner() > child_b.compute(state).into_inner(),
            },
            BooleanNodes::SNFloatSign { child } => Boolean {
                value: child.compute(state).into_inner() >= 0,
            },
            BooleanNodes::And { child_a, child_b } => Boolean {
                value: child_a.compute(state).into_inner() && child_b.compute(state).into_inner(),
            },
            BooleanNodes::Or { child_a, child_b } => Boolean {
                value: child_a.compute(state).into_inner() || child_b.compute(state).into_inner(),
            },
            BooleanNodes::Not { child } => Boolean { value: !child.compute(state).into_inner() },
            BooleanNodes::BitColorHas { child_a, child_b } => Boolean {
                value: child_a.compute(state).has_color(child_b.compute(state)),
            },
            BooleanNodes::Constant { child } => *child,
            BooleanNodes::ModifyState { child, child_state } => child.compute(
                UpdateState { coordinate_set: child_state.compute(state), ..state },
            ),
            BooleanNodes::IfElse { predicate, child_a, child_b } => {
                if predicate.compute(state).into_inner() {
                    child_a.compute(state)
                } else {
                    child_b.compute(state)
                }
            },
            BooleanNodes::ByteEquals { child_a, child_b } => Boolean {
                value: child_a.compute(state).into_inner() == child_b.compute(state).into_inner(),
            },
        }
    }

    /// Whether every node of the tree sits at a depth where its
    /// generation weight is positive.
    pub open spec fn depth_ok(self, cfg: GrammarConfig, d: int) -> bool
        decreases self,
    {
        match self {
            BooleanNodes::UNFloatLess { child_a, child_b } => spec_branch_weight(cfg, d) > 0
                && child_a.depth_ok(cfg, d + 1) && child_b.depth_ok(cfg, d + 1),
            BooleanNodes::UNFloatMore { child_a, child_b } => spec_branch_weight(cfg, d) > 0
                && child_a.depth_ok(cfg, d + 1) && child_b.depth_ok(cfg, d + 1),
            BooleanNodes::SNFloatLess { child_a, child_b } => spec_branch_weight(cfg, d) > 0
                && child_a.depth_ok(cfg, d + 1) && child_b.depth_ok(cfg, d + 1),
            BooleanNodes::SNFloatMore { child_a, child_b } => spec_branch_weight(cfg, d) > 0
                && child_a.depth_ok(cfg, d + 1) && child_b.depth_ok(cfg, d + 1),
            BooleanNodes::SNFloatSign { child } => spec_pipe_weight(cfg, d) > 0 && child.depth_ok(
                cfg,
                d + 1,
            ),
            BooleanNodes::And { child_a, child_b } => spec_branch_weight(cfg, d) > 0
                && child_a.depth_ok(cfg, d + 1) && child_b.depth_ok(cfg, d + 1),
            BooleanNodes::Or { child_a, child_b } => spec_branch_weight(cfg, d) > 0
                && child_a.depth_ok(cfg, d + 1) && child_b.depth_ok(cfg, d + 1),
            BooleanNodes::Not { child } => spec_pipe_weight(cfg, d) > 0 && child.depth_ok(
                cfg,
                d + 1,
            ),
            BooleanNodes::BitColorHas { child_a, child_b } => spec_branch_weight(cfg, d) > 0
                && child_a.depth_ok(cfg, d + 1) && child_b.depth_ok(cfg, d + 1),
            BooleanNodes::Constant { child } => spec_leaf_weight(cfg, d) > 0,
            BooleanNodes::ModifyState { child, child_state } => spec_branch_weight(cfg, d) > 0
                && child.depth_ok(cfg, d + 1) && child_state.depth_ok(cfg, d + 1),
            BooleanNodes::IfElse { predicate, child_a, child_b } => spec_branch_weight(cfg, d) > 0
                && predicate.depth_ok(cfg, d + 1) && child_a.depth_ok(cfg, d + 1)
                && child_b.depth_ok(cfg, d + 1),
            BooleanNodes::ByteEquals { child_a, child_b } => spec_branch_weight(cfg, d) > 0
                && child_a.depth_ok(cfg, d + 1) && child_b.depth_ok(cfg, d + 1),
        }
    }

    /// Grow a fresh tree at a depth: the weighted draw selects the leaf,
    /// pipe or branch class, a uniform pick within the class chooses the
    /// variant, and children grow one level deeper.
    pub fn generate_rng(rng: &mut DeterministicRng, state: State, ctx: &GenContext) -> (r: Self)
        requires
            ctx.wf(),
            state.depth <= ctx.cfg.max_leaf_depth,
        ensures
            r.wf(),
            r.depth_ok(ctx.cfg, state.depth as int),
            r == Self::spec_generate(
                old(rng).state,
                state.depth as int,
                ctx.cfg,
                ctx.image,
            ).0,
            final(rng).state == Self::spec_generate(
                old(rng).state,
                state.depth as int,
                ctx.cfg,
                ctx.image,
            ).1,
        decreases ctx.cfg.max_leaf_depth - state.depth,
    {
        let d: usize = state.depth;
        let lw: u64 = ctx.cfg.leaf_weight(d);
        let pw: u64 = ctx.cfg.pipe_weight(d);
        let bw: u64 = ctx.cfg.branch_weight(d);
        let v: Vec<u64> = class_weights(lw * 1, pw * 2, bw * 10, 0);
        let roll: u64 = rng.below(lw * 1 + pw * 2 + bw * 10);
        let idx: usize = pick_weighted(&v, roll);
        if idx == 0 {
            BooleanNodes::Constant { child: Boolean { value: rng.coin() } }
        } else if idx == 1 {
            let k: u64 = class_index(roll, lw * 1, pw, 2);
            if k == 0 {
                BooleanNodes::SNFloatSign {
                    child: Box::new(SNFloatNodes::generate_rng(rng, state.deepen(), ctx)),
                }
            } else {
                BooleanNodes::Not {
                    child: Box::new(BooleanNodes::generate_rng(rng, state.deepen(), ctx)),
                }
            }
        } else {
            proof {
                assert(idx == 2);
            }
            let k: u64 = class_index(roll, lw * 1 + pw * 2, bw, 10);
            if k == 0 {
                BooleanNodes::UNFloatLess {
                    child_a: Box::new(UNFloatNodes::generate_rng(rng, state.deepen(), ctx)),
                    child_b: Box::new(UNFloatNodes::generate_rng(rng, state.deepen(), ctx)),
                }
            } else if k == 1 {
                BooleanNodes::UNFloatMore {
                    child_a: Box::new(UNFloatNodes::generate_rng(rng, state.deepen(), ctx)),
                    child_b: Box::new(UNFloatNodes::generate_rng(rng, state.deepen(), ctx)),
                }
            } else if k == 2 {
                BooleanNodes::SNFloatLess {
                    child_a: Box::new(SNFloatNodes::generate_rng(rng, state.deepen(), ctx)),
                    child_b: Box::new(SNFloatNodes::generate_rng(rng, state.deepen(), ctx)),
                }
            } else if k == 3 {
                BooleanNodes::SNFloatMore {
                    child_a: Box::new(SNFloatNodes::generate_rng(rng, state.deepen(), ctx)),
                    child_b: Box::new(SNFloatNodes::generate_rng(rng, state.deepen(), ctx)),
                }
            } else if k == 4 {
                BooleanNodes::And {
                    child_a: Box::new(BooleanNodes::generate_rng(rng, state.deepen(), ctx)),
                    child_b: Box::new(BooleanNodes::generate_rng(rng, state.deepen(), ctx)),
                }
            } else if k == 5 {
                BooleanNodes::Or {
                    child_a: Box::new(BooleanNodes::generate_rng(rng, state.deepen(), ctx)),
                    child_b: Box::new(BooleanNodes::generate_rng(rng, state.deepen(), ctx)),
                }
            } else if k == 6 {
                BooleanNodes::BitColorHas {
                    child_a: Box::new(BitColorNodes::generate_rng(rng, state.deepen(), ctx)),
                    child_b: Box::new(BitColorNodes::generate_rng(rng, state.deepen(), ctx)),
                }
            } else if k == 7 {
                BooleanNodes::ModifyState {
                    child: Box::new(BooleanNodes::generate_rng(rng, state.deepen(), ctx)),
                    child_state: Box::new(CoordMapNodes::generate_rng(rng, state.deepen(), ctx)),
                }
            } else if k == 8 {
                BooleanNodes::IfElse {
                    predicate: Box::new(BooleanNodes::generate_rng(rng, state.deepen(), ctx)),
                    child_a: Box::new(BooleanNodes::generate_rng(rng, state.deepen(), ctx)),
                    child_b: Box::new(BooleanNodes::generate_rng(rng, state.deepen(), ctx)),
                }
            } else {
                BooleanNodes::ByteEquals {
                    child_a: Box::new(ByteNodes::generate_rng(rng, state.deepen(), ctx)),
                    child_b: Box::new(ByteNodes::generate_rng(rng, state.deepen(), ctx)),
                }
            }
        }
    }

    /// Whether one tree can come out of the other by a single mutation
    /// walk: the shape is unchanged except that leaf data may be
    /// rewritten along exactly one path.
    pub open spec fn one_path(self, other: Self) -> bool
        decreases self,
    {
        match (self, other) {
            (
                BooleanNodes::UNFloatLess { child_a: a1, child_b: b1 },
                BooleanNodes::UNFloatLess { child_a: a2, child_b: b2 },
            ) => ((*a1).one_path(*a2) && b1 == b2) || (a1 == a2 && (*b1).one_path(*b2)),
            (
                BooleanNodes::UNFloatMore { child_a: a1, child_b: b1 },
                BooleanNodes::UNFloatMore { child_a: a2, child_b: b2 },
            ) => ((*a1).one_path(*a2) && b1 == b2) || (a1 == a2 && (*b1).one_path(*b2)),
            (
                BooleanNodes::SNFloatLess { child_a: a1, child_b: b1 },
                BooleanNodes::SNFloatLess { child_a: a2, child_b: b2 },
            ) => ((*a1).one_path(*a2) && b1 == b2) || (a1 == a2 && (*b1).one_path(*b2)),
            (
                BooleanNodes::SNFloatMore { child_a: a1, child_b: b1 },
                BooleanNodes::SNFloatMore { child_a: a2, child_b: b2 },
            ) => ((*a1).one_path(*a2) && b1 == b2) || (a1 == a2 && (*b1).one_path(*b2)),
            (
                BooleanNodes::SNFloatSign { child: a1 },
                BooleanNodes::SNFloatSign { child: a2 },
            ) => (*a1).one_path(*a2),
            (
                BooleanNodes::And { child_a: a1, child_b: b1 },
                BooleanNodes::And { child_a: a2, child_b: b2 },
            ) => ((*a1).one_path(*a2) && b1 == b2) || (a1 == a2 && (*b1).one_path(*b2)),
            (
                BooleanNodes::Or { child_a: a1, child_b: b1 },
                BooleanNodes::Or { child_a: a2, child_b: b2 },
            ) => ((*a1).one_path(*a2) && b1 == b2) || (a1 == a2 && (*b1).one_path(*b2)),
            (BooleanNodes::Not { child: a1 }, BooleanNodes::Not { child: a2 }) => (*a1).one_path(
                *a2,
            ),
            (
                BooleanNodes::BitColorHas { child_a: a1, child_b: b1 },
                BooleanNodes::BitColorHas { child_a: a2, child_b: b2 },
            ) => ((*a1).one_path(*a2) && b1 == b2) || (a1 == a2 && (*b1).one_path(*b2)),
            (BooleanNodes::Constant { child: a1 }, BooleanNodes::Constant { child: a2 }) => true,
            (
                BooleanNodes::ModifyState { child: a1, child_state: b1 },
                BooleanNodes::ModifyState { child: a2, child_state: b2 },
            ) => ((*a1).one_path(*a2) && b1 == b2) || (a1 == a2 && (*b1).one_path(*b2)),
            (
                BooleanNodes::IfElse { predicate: p1, child_a: a1, child_b: b1 },
                BooleanNodes::IfElse { predicate: p2, child_a: a2, child_b: b2 },
            ) => ((*p1).one_path(*p2) && a1 == a2 && b1 == b2) || (p1 == p2 && (*a1).one_path(*a2)
                && b1 == b2) || (p1 == p2 && a1 == a2 && (*b1).one_path(*b2)),
            (
                BooleanNodes::ByteEquals { child_a: a1, child_b: b1 },
                BooleanNodes::ByteEquals { child_a: a2, child_b: b2 },
            ) => ((*a1).one_path(*a2) && b1 == b2) || (a1 == a2 && (*b1).one_path(*b2)),
            _ => false,
        }
    }

    /// Mutate the tree at a depth: with the configured probability the
    /// whole subtree is rerolled fresh; otherwise one child (or the
    /// leaf's own data) is chosen and the walk continues there alone.
    pub fn mutate_rng(self, rng: &mut DeterministicRng, state: State, ctx: &GenContext) -> (r: Self)
        requires
            ctx.wf(),
            state.depth <= ctx.cfg.max_leaf_depth,
            self.wf(),
            self.depth_ok(ctx.cfg, state.depth as int),
        ensures
            r.wf(),
            r.depth_ok(ctx.cfg, state.depth as int),
            ctx.cfg.mut_reroll == 0 ==> self.one_path(r),
            r == self.spec_mutate(old(rng).state, state.depth as int, ctx.cfg, ctx.image).0,
            final(rng).state == self.spec_mutate(
                old(rng).state,
                state.depth as int,
                ctx.cfg,
                ctx.image,
            ).1,
        decreases ctx.cfg.max_leaf_depth - state.depth,
    {
        if rng.chance(ctx.cfg.mut_reroll) {
            BooleanNodes::generate_rng(rng, state, ctx)
        } else {
            match self {
                BooleanNodes::UNFloatLess { child_a, child_b } => {
                    if rng.below(2) == 0 {
                        BooleanNodes::UNFloatLess {
                            child_a: Box::new(child_a.mutate_rng(rng, state.deepen(), ctx)),
                            child_b,
                        }
                    } else {
                        BooleanNodes::UNFloatLess {
                            child_a,
                            child_b: Box::new(child_b.mutate_rng(rng, state.deepen(), ctx)),
                        }
                    }
                },
                BooleanNodes::UNFloatMore { child_a, child_b } => {
                    if rng.below(2) == 0 {
                        BooleanNodes::UNFloatMore {
                            child_a: Box::new(child_a.mutate_rng(rng, state.deepen(), ctx)),
                            child_b,
                        }
                    } else {
                        BooleanNodes::UNFloatMore {
                            child_a,
                            child_b: Box::new(child_b.mutate_rng(rng, state.deepen(), ctx)),
                        }
                    }
                },
                BooleanNodes::SNFloatLess { child_a, child_b } => {
                    if rng.below(2) == 0 {
                        BooleanNodes::SNFloatLess {
                            child_a: Box::new(child_a.mutate_rng(rng, state.deepen(), ctx)),
                            child_b,
                        }
                    } else {
                        BooleanNodes::SNFloatLess {
                            child_a,
                            child_b: Box::new(child_b.mutate_rng(rng, state.deepen(), ctx)),
                        }
                    }
                },
                BooleanNodes::SNFloatMore { child_a, child_b } => {
                    if rng.below(2) == 0 {
                        BooleanNodes::SNFloatMore {
                            child_a: Box::new(child_a.mutate_rng(rng, state.deepen(), ctx)),
                            child_b,
                        }
                    } else {
                        BooleanNodes::SNFloatMore {
                            child_a,
                            child_b: Box::new(child_b.mutate_rng(rng, state.deepen(), ctx)),
                        }
                    }
                },
                BooleanNodes::SNFloatSign { child } => BooleanNodes::SNFloatSign {
                    child: Box::new(child.mutate_rng(rng, state.deepen(), ctx)),
                },
                BooleanNodes::And { child_a, child_b } => {
                    if rng.below(2) == 0 {
                        BooleanNodes::And {
                            child_a: Box::new(child_a.mutate_rng(rng, state.deepen(), ctx)),
                            child_b,
                        }
                    } else {
                        BooleanNodes::And {
                            child_a,
                            child_b: Box::new(child_b.mutate_rng(rng, state.deepen(), ctx)),
                        }
                    }
                },
                BooleanNodes::Or { child_a, child_b } => {
                    if rng.below(2) == 0 {
                        BooleanNodes::Or {
                            child_a: Box::new(child_a.mutate_rng(rng, state.deepen(), ctx)),
                            child_b,
                        }
                    } else {
                        BooleanNodes::Or {
                            child_a,
                            child_b: Box::new(child_b.mutate_rng(rng, state.deepen(), ctx)),
                        }
                    }
                },
                BooleanNodes::Not { child } => BooleanNodes::Not {
                    child: Box::new(child.mutate_rng(rng, state.deepen(), ctx)),
                },
                BooleanNodes::BitColorHas { child_a, child_b } => {
                    if rng.below(2) == 0 {
                        BooleanNodes::BitColorHas {
                            child_a: Box::new(child_a.mutate_rng(rng, state.deepen(), ctx)),
                            child_b,
                        }
                    } else {
                        BooleanNodes::BitColorHas {
                            child_a,
                            child_b: Box::new(child_b.mutate_rng(rng, state.deepen(), ctx)),
                        }
                    }
                },
                BooleanNodes::Constant { child } => BooleanNodes::Constant {
                    child: Boolean { value: rng.coin() },
                },
                BooleanNodes::ModifyState { child, child_state } => {
                    if rng.below(2) == 0 {
                        BooleanNodes::ModifyState {
                            child: Box::new(child.mutate_rng(rng, state.deepen(), ctx)),
                            child_state,
                        }
                    } else {
                        BooleanNodes::ModifyState {
                            child,
                            child_state: Box::new(
                                child_state.mutate_rng(rng, state.deepen(), ctx),
                            ),
                        }
                    }
                },
                BooleanNodes::IfElse { predicate, child_a, child_b } => {
                    let j: u64 = rng.below(3);
                    if j == 0 {
                        BooleanNodes::IfElse {
                            predicate: Box::new(predicate.mutate_rng(rng, state.deepen(), ctx)),
                            child_a,
                            child_b,
                        }
                    } else if j == 1 {
                        BooleanNodes::IfElse {
                            predicate,
                            child_a: Box::new(child_a.mutate_rng(rng, state.deepen(), ctx)),
                            child_b,
                        }
                    } else {
                        BooleanNodes::IfElse {
                            predicate,
                            child_a,
                            child_b: Box::new(child_b.mutate_rng(rng, state.deepen(), ctx)),
                        }
                    }
                },
                BooleanNodes::ByteEquals { child_a, child_b } => {
                    if rng.below(2) == 0 {
                        BooleanNodes::ByteEquals {
                            child_a: Box::new(child_a.mutate_rng(rng, state.deepen(), ctx)),
                            child_b,
                        }
                    } else {
                        BooleanNodes::ByteEquals {
                            child_a,
                            child_b: Box::new(child_b.mutate_rng(rng, state.deepen(), ctx)),
                        }
                    }
                },
            }
        }
    }
}

/// Nodes that compute a nibble.
pub enum NibbleNodes {
    Constant { value: Nibble },
    Add { child_a: Box<NibbleNodes>, child_b: Box<NibbleNodes> },
    Multiply { child_a: Box<NibbleNodes>, child_b: Box<NibbleNodes> },
    Divide { child_value: Box<NibbleNodes>, child_divisor: Box<NibbleNodes> },
    Modulus { child_value: Box<NibbleNodes>, child_divisor: Box<NibbleNodes> },
    FromBooleans { a: Box<BooleanNodes>, b: Box<BooleanNodes>, c: Box<BooleanNodes>, d: Box<BooleanNodes> },
    FromByteModulo { child: Box<ByteNodes> },
    FromByteDivide { child: Box<ByteNodes> },
    FromGametic,
    IfElse { predicate: Box<BooleanNodes>, child_a: Box<NibbleNodes>, child_b: Box<NibbleNodes> },
}

impl NibbleNodes {
    pub open spec fn wf(self) -> bool
        decreases self,
    {
        match self {
            NibbleNodes::Constant { value } => value.wf(),
            NibbleNodes::Add { child_a, child_b } => child_a.wf() && child_b.wf(),
            NibbleNodes::Multiply { child_a, child_b } => child_a.wf() && child_b.wf(),
            NibbleNodes::Divide { child_value, child_divisor } => child_value.wf()
                && child_divisor.wf(),
            NibbleNodes::Modulus { child_value, child_divisor } => child_value.wf()
                && child_divisor.wf(),
            NibbleNodes::FromBooleans { a, b, c, d } => a.wf() && b.wf() && c.wf() && d.wf(),
            NibbleNodes::FromByteModulo { child } => child.wf(),
            NibbleNodes::FromByteDivide { child } => child.wf(),
            NibbleNodes::FromGametic => true,
            NibbleNodes::IfElse { predicate, child_a, child_b } => predicate.wf() && child_a.wf()
                && child_b.wf(),
        }
    }

    pub open spec fn spec_compute(self, coord: CoordinateSet, history: History) -> Nibble
        decreases self,
    {
        match self {
            NibbleNodes::Constant { value } => value,
            NibbleNodes::Add { child_a, child_b } => Nibble {
                value: ((child_a.spec_compute(coord, history).value + child_b.spec_compute(
                    coord,
                    history,
                ).value) % 16) as u8,
            },
            NibbleNodes::Multiply { child_a, child_b } => Nibble {
                value: ((child_a.spec_compute(coord, history).value * child_b.spec_compute(
                    coord,
                    history,
                ).value) % 16) as u8,
            },
            NibbleNodes::Divide { child_value, child_divisor } => {
                let d = child_divisor.spec_compute(coord, history);
                let v = child_value.spec_compute(coord, history);
                if d.value == 0 {
                    Nibble { value: 0 }
                } else {
                    Nibble { value: ((v.value / d.value) % 16) as u8 }
                }
            },
            NibbleNodes::Modulus { child_value, child_divisor } => {
                let d = child_divisor.spec_compute(coord, history);
                let v = child_value.spec_compute(coord, history);
                if d.value == 0 {
                    Nibble { value: 0 }
                } else {
                    Nibble { value: ((v.value % d.value) % 16) as u8 }
                }
            },
            NibbleNodes::FromBooleans { a, b, c, d } => {
                let bit0: u8 = if a.spec_compute(coord, history).value {
                    1
                } else {
                    0
                };
                let bit1: u8 = if b.spec_compute(coord, history).value {
                    2
                } else {
                    0
                };
                let bit2: u8 = if c.spec_compute(coord, history).value {
                    4
                } else {
                    0
                };
                let bit3: u8 = if d.spec_compute(coord, history).value {
                    8
                } else {
                    0
                };
                Nibble { value: ((bit0 + bit1 + bit2 + bit3) % 16) as u8 }
            },
            NibbleNodes::FromByteModulo { child } => Nibble {
                value: (child.spec_compute(coord, history).value % 16) as u8,
            },
            NibbleNodes::FromByteDivide { child } => Nibble {
                value: ((child.spec_compute(coord, history).value / 16) % 16) as u8,
            },
            NibbleNodes::FromGametic => Nibble {
                value: (spec_byte_t(coord) % 16) as u8,
            },
            NibbleNodes::IfElse { predicate, child_a, child_b } => {
                if predicate.spec_compute(coord, history).value {
                    child_a.spec_compute(coord, history)
                } else {
                    child_b.spec_compute(coord, history)
                }
            },
        }
    }

    /// Evaluate the node against a context.
    pub fn compute(&self, state: UpdateState) -> (r: Nibble)
        requires
            self.wf(),
            state.wf(),
        ensures
            r == self.spec_compute(state.coordinate_set, *state.history),
            r.wf(),
        decreases *self,
    {
        match self {
            NibbleNodes::Constant { value } => *value,
            NibbleNodes::Add { child_a, child_b } => child_a.compute(state).add(
                child_b.compute(state),
            ),
            NibbleNodes::Multiply { child_a, child_b } => child_a.compute(state).multiply(
                child_b.compute(state),
            ),
            NibbleNodes::Divide { child_value, child_divisor } => child_value.compute(
                state,
            ).divide(child_divisor.compute(state)),
            NibbleNodes::Modulus { child_value, child_divisor } => child_value.compute(
                state,
            ).modulus(child_divisor.compute(state)),
            NibbleNodes::FromBooleans { a, b, c, d } => {
                let mut value: u8 = 0;
                if a.compute(state).into_inner() {
                    value = value + 1;
                }
                if b.compute(state).into_inner() {
                    value = value + 2;
                }
                if c.compute(state).into_inner() {
                    value = value + 4;
                }
                if d.compute(state).into_inner() {
                    value = value + 8;
                }
                Nibble::new(value)
            },
            NibbleNodes::FromByteModulo { child } => Nibble::new(
                child.compute(state).into_inner() % 16,
            ),
            NibbleNodes::FromByteDivide { child } => Nibble::new(
                child.compute(state).into_inner() / 16,
            ),
            NibbleNodes::FromGametic => Nibble::new(
                state.coordinate_set.get_byte_t().into_inner(),
            ),
            NibbleNodes::IfElse { predicate, child_a, child_b } => {
                if predicate.compute(state).into_inner() {
                    child_a.compute(state)
                } else {
                    child_b.compute(state)
                }
            },
        }
    }
}

/// The low byte of the whole ticks of a coordinate set, as the
/// interpreter reads it.
pub open spec fn spec_byte_t(coord: CoordinateSet) -> int {
    if coord.t < 0 {
        0
    } else {
        ((coord.t as int) / (SN_ONE as int)) % 256
    }
}

/// Nodes that compute a wrapping byte.
pub enum ByteNodes {
    Constant { value: Byte },
    Add { child_a: Box<ByteNodes>, child_b: Box<ByteNodes> },
    Multiply { child_a: Box<ByteNodes>, child_b: Box<ByteNodes> },
    Divide { child_value: Box<ByteNodes>, child_divisor: Box<ByteNodes> },
    Modulus { child_value: Box<ByteNodes>, child_divisor: Box<ByteNodes> },
    FromGametic,
    IfElse { predicate: Box<BooleanNodes>, child_a: Box<ByteNodes>, child_b: Box<ByteNodes> },
}

impl ByteNodes {
    pub open spec fn wf(self) -> bool
        decreases self,
    {
        match self {
            ByteNodes::Constant { value } => true,
            ByteNodes::Add { child_a, child_b } => child_a.wf() && child_b.wf(),
            ByteNodes::Multiply { child_a, child_b } => child_a.wf() && child_b.wf(),
            ByteNodes::Divide { child_value, child_divisor } => child_value.wf()
                && child_divisor.wf(),
            ByteNodes::Modulus { child_value, child_divisor } => child_value.wf()
                && child_divisor.wf(),
            ByteNodes::FromGametic => true,
            ByteNodes::IfElse { predicate, child_a, child_b } => predicate.wf() && child_a.wf()
                && child_b.wf(),
        }
    }

    pub open spec fn spec_compute(self, coord: CoordinateSet, history: History) -> Byte
        decreases self,
    {
        match self {
            ByteNodes::Constant { value } => value,
            ByteNodes::Add { child_a, child_b } => Byte {
                value: ((child_a.spec_compute(coord, history).value + child_b.spec_compute(
                    coord,
                    history,
                ).value) % 256) as u8,
            },
            ByteNodes::Multiply { child_a, child_b } => Byte {
                value: ((child_a.spec_compute(coord, history).value * child_b.spec_compute(
                    coord,
                    history,
                ).value) % 256) as u8,
            },
            ByteNodes::Divide { child_value, child_divisor } => {
                let d = child_divisor.spec_compute(coord, history);
                let v = child_value.spec_compute(coord, history);
                if d.value == 0 {
                    Byte { value: 0 }
                } else {
                    Byte { value: (v.value / d.value) as u8 }
                }
            },
            ByteNodes::Modulus { child_value, child_divisor } => {
                let d = child_divisor.spec_compute(coord, history);
                let v = child_value.spec_compute(coord, history);
                if d.value == 0 {
                    Byte { value: 0 }
                } else {
                    Byte { value: (v.value % d.value) as u8 }
                }
            },
            ByteNodes::FromGametic => Byte { value: spec_byte_t(coord) as u8 },
            ByteNodes::IfElse { predicate, child_a, child_b } => {
                if predicate.spec_compute(coord, history).value {
                    child_a.spec_compute(coord, history)
                } else {
                    child_b.spec_compute(coord, history)
                }
            },
        }
    }

    /// Evaluate the node against a context.
    pub fn compute(&self, state: UpdateState) -> (r: Byte)
        requires
            self.wf(),
            state.wf(),
        ensures
            r == self.spec_compute(state.coordinate_set, *state.history),
        decreases *self,
    {
        match self {
            ByteNodes::Constant { value } => *value,
            ByteNodes::Add { child_a, child_b } => child_a.compute(state).add(
                child_b.compute(state),
            ),
            ByteNodes::Multiply { child_a, child_b } => child_a.compute(state).multiply(
                child_b.compute(state),
            ),
            ByteNodes::Divide { child_value, child_divisor } => child_value.compute(state).divide(
                child_divisor.compute(state),
            ),
            ByteNodes::Modulus { child_value, child_divisor } => child_value.compute(
                state,
            ).modulus(child_divisor.compute(state)),
            ByteNodes::FromGametic => state.coordinate_set.get_byte_t(),
            ByteNodes::IfElse { predicate, child_a, child_b } => {
                if predicate.compute(state).into_inner() {
                    child_a.compute(state)
                } else {
                    child_b.compute(state)
                }
            },
        }
    }
}

/// Nodes that compute a wrapping 32-bit unsigned integer.
pub enum UIntNodes {
    Constant { value: UInt },
    Add { child_a: Box<UIntNodes>, child_b: Box<UIntNodes> },
    Multiply { child_a: Box<UIntNodes>, child_b: Box<UIntNodes> },
    Divide { child_value: Box<UIntNodes>, child_divisor: Box<UIntNodes> },
    Modulus { child_value: Box<UIntNodes>, child_divisor: Box<UIntNodes> },
    FromGametic,
    IfElse { predicate: Box<BooleanNodes>, child_a: Box<UIntNodes>, child_b: Box<UIntNodes> },
}

/// The whole ticks of a coordinate set clamped onto the 32-bit range.
pub open spec fn spec_uint_t(coord: CoordinateSet) -> int {
    if coord.t < 0 {
        0
    } else if (coord.t as int) / (SN_ONE as int) > 0xFFFF_FFFF {
        0xFFFF_FFFF
    } else {
        (coord.t as int) / (SN_ONE as int)
    }
}

impl UIntNodes {
    pub open spec fn wf(self) -> bool
        decreases self,
    {
        match self {
            UIntNodes::Constant { value } => true,
            UIntNodes::Add { child_a, child_b } => child_a.wf() && child_b.wf(),
            UIntNodes::Multiply { child_a, child_b } => child_a.wf() && child_b.wf(),
            UIntNodes::Divide { child_value, child_divisor } => child_value.wf()
                && child_divisor.wf(),
            UIntNodes::Modulus { child_value, child_divisor } => child_value.wf()
                && child_divisor.wf(),
            UIntNodes::FromGametic => true,
            UIntNodes::IfElse { predicate, child_a, child_b } => predicate.wf() && child_a.wf()
                && child_b.wf(),
        }
    }

    pub open spec fn spec_compute(self, coord: CoordinateSet, history: History) -> UInt
        decreases self,
    {
        match self {
            UIntNodes::Constant { value } => value,
            UIntNodes::Add { child_a, child_b } => UInt {
                value: ((child_a.spec_compute(coord, history).value + child_b.spec_compute(
                    coord,
                    history,
                ).value) % 0x1_0000_0000) as u32,
            },
            UIntNodes::Multiply { child_a, child_b } => UInt {
                value: ((child_a.spec_compute(coord, history).value * child_b.spec_compute(
                    coord,
                    history,
                ).value) % 0x1_0000_0000) as u32,
            },
            UIntNodes::Divide { child_value, child_divisor } => {
                let d = child_divisor.spec_compute(coord, history);
                let v = child_value.spec_compute(coord, history);
                if d.value == 0 {
                    UInt { value: 0 }
                } else {
                    UInt { value: (v.value / d.value) as u32 }
                }
            },
            UIntNodes::Modulus { child_value, child_divisor } => {
                let d = child_divisor.spec_compute(coord, history);
                let v = child_value.spec_compute(coord, history);
                if d.value == 0 {
                    UInt { value: 0 }
                } else {
                    UInt { value: (v.value % d.value) as u32 }
                }
            },
            UIntNodes::FromGametic => UInt { value: spec_uint_t(coord) as u32 },
            UIntNodes::IfElse { predicate, child_a, child_b } => {
                if predicate.spec_compute(coord, history).value {
                    child_a.spec_compute(coord, history)
                } else {
                    child_b.spec_compute(coord, history)
                }
            },
        }
    }

    /// Evaluate the node against a context.
    pub fn compute(&self, state: UpdateState) -> (r: UInt)
        requires
            self.wf(),
            state.wf(),
        ensures
            r == self.spec_compute(state.coordinate_set, *state.history),
        decreases *self,
    {
        match self {
            UIntNodes::Constant { value } => *value,
            UIntNodes::Add { child_a, child_b } => child_a.compute(state).add(
                child_b.compute(state),
            ),
            UIntNodes::Multiply { child_a, child_b } => child_a.compute(state).multiply(
                child_b.compute(state),
            ),
            UIntNodes::Divide { child_value, child_divisor } => child_value.compute(state).divide(
                child_divisor.compute(state),
            ),
            UIntNodes::Modulus { child_value, child_divisor } => child_value.compute(
                state,
            ).modulus(child_divisor.compute(state)),
            UIntNodes::FromGametic => {
                let t: i64 = state.coordinate_set.t;
                if t < 0 {
                    UInt::new(0)
                } else {
                    let ticks: i64 = t / (SN_ONE as i64);
                    proof {
                        vstd::arithmetic::div_mod::lemma_div_pos_is_pos(t as int, SN_ONE as int);
                    }
                    if ticks > 0xFFFF_FFFF {
                        UInt::new(0xFFFF_FFFF)
                    } else {
                        UInt::new(ticks as u32)
                    }
                }
            },
            UIntNodes::IfElse { predicate, child_a, child_b } => {
                if predicate.compute(state).into_inner() {
                    child_a.compute(state)
                } else {
                    child_b.compute(state)
                }
            },
        }
    }
}

/// Nodes that compute a wrapping 32-bit signed integer.
pub enum SIntNodes {
    Constant { value: SInt },
    Add { child_a: Box<SIntNodes>, child_b: Box<SIntNodes> },
    Multiply { child_a: Box<SIntNodes>, child_b: Box<SIntNodes> },
    Divide { child_value: Box<SIntNodes>, child_divisor: Box<SIntNodes> },
    Modulus { child_value: Box<SIntNodes>, child_divisor: Box<SIntNodes> },
    IfElse { predicate: Box<BooleanNodes>, child_a: Box<SIntNodes>, child_b: Box<SIntNodes> },
}

impl SIntNodes {
    pub open spec fn wf(self) -> bool
        decreases self,
    {
        match self {
            SIntNodes::Constant { value } => true,
            SIntNodes::Add { child_a, child_b } => child_a.wf() && child_b.wf(),
            SIntNodes::Multiply { child_a, child_b } => child_a.wf() && child_b.wf(),
            SIntNodes::Divide { child_value, child_divisor } => child_value.wf()
                && child_divisor.wf(),
            SIntNodes::Modulus { child_value, child_divisor } => child_value.wf()
                && child_divisor.wf(),
            SIntNodes::IfElse { predicate, child_a, child_b } => predicate.wf() && child_a.wf()
                && child_b.wf(),
        }
    }

    pub open spec fn spec_compute(self, coord: CoordinateSet, history: History) -> SInt
        decreases self,
    {
        match self {
            SIntNodes::Constant { value } => value,
            SIntNodes::Add { child_a, child_b } => SInt {
                value: vstd::wrapping::i32_specs::wrapping_add(
                    child_a.spec_compute(coord, history).value,
                    child_b.spec_compute(coord, history).value,
                ),
            },
            SIntNodes::Multiply { child_a, child_b } => SInt {
                value: vstd::wrapping::i32_specs::wrapping_mul(
                    child_a.spec_compute(coord, history).value,
                    child_b.spec_compute(coord, history).value,
                ),
            },
            SIntNodes::Divide { child_value, child_divisor } => {
                let d = child_divisor.spec_compute(coord, history);
                let v = child_value.spec_compute(coord, history);
                if d.value == 0 {
                    SInt { value: 0 }
                } else if v.value == i32::MIN && d.value == -1 {
                    SInt { value: i32::MIN }
                } else {
                    SInt {
                        value: crate::discrete::truncated_div(v.value as int, d.value as int) as i32,
                    }
                }
            },
            SIntNodes::Modulus { child_value, child_divisor } => {
                let d = child_divisor.spec_compute(coord, history);
                let v = child_value.spec_compute(coord, history);
                if d.value == 0 {
                    SInt { value: 0 }
                } else if v.value == i32::MIN && d.value == -1 {
                    SInt { value: 0 }
                } else {
                    SInt {
                        value: crate::discrete::truncated_rem(v.value as int, d.value as int) as i32,
                    }
                }
            },
            SIntNodes::IfElse { predicate, child_a, child_b } => {
                if predicate.spec_compute(coord, history).value {
                    child_a.spec_compute(coord, history)
                } else {
                    child_b.spec_compute(coord, history)
                }
            },
        }
    }

    /// Evaluate the node against a context.
    pub fn compute(&self, state: UpdateState) -> (r: SInt)
        requires
            self.wf(),
            state.wf(),
        ensures
            r == self.spec_compute(state.coordinate_set, *state.history),
        decreases *self,
    {
        match self {
            SIntNodes::Constant { value } => *value,
            SIntNodes::Add { child_a, child_b } => child_a.compute(state).add(
                child_b.compute(state),
            ),
            SIntNodes::Multiply { child_a, child_b } => child_a.compute(state).multiply(
                child_b.compute(state),
            ),
            SIntNodes::Divide { child_value, child_divisor } => child_value.compute(state).divide(
                child_divisor.compute(state),
            ),
            SIntNodes::Modulus { child_value, child_divisor } => child_value.compute(
                state,
            ).modulus(child_divisor.compute(state)),
            SIntNodes::IfElse { predicate, child_a, child_b } => {
                if predicate.compute(state).into_inner() {
                    child_a.compute(state)
                } else {
                    child_b.compute(state)
                }
            },
        }
    }
}


impl NibbleNodes {
    /// Whether every node of the tree sits at a depth where its
    /// generation weight is positive.
    pub open spec fn depth_ok(self, cfg: GrammarConfig, d: int) -> bool
        decreases self,
    {
        match self {
            NibbleNodes::Constant { value } => spec_leaf_weight(cfg, d) > 0,
            NibbleNodes::FromGametic => spec_leaf_weight(cfg, d) > 0,
            NibbleNodes::Add { child_a, child_b } => spec_branch_weight(cfg, d) > 0 && child_a.depth_ok(cfg, d + 1) && child_b.depth_ok(cfg, d + 1),
            NibbleNodes::Multiply { child_a, child_b } => spec_branch_weight(cfg, d) > 0 && child_a.depth_ok(cfg, d + 1) && child_b.depth_ok(cfg, d + 1),
            NibbleNodes::Divide { child_value, child_divisor } => spec_branch_weight(cfg, d) > 0 && child_value.depth_ok(cfg, d + 1) && child_divisor.depth_ok(cfg, d + 1),
            NibbleNodes::Modulus { child_value, child_divisor } => spec_branch_weight(cfg, d) > 0 && child_value.depth_ok(cfg, d + 1) && child_divisor.depth_ok(cfg, d + 1),
            NibbleNodes::FromBooleans { a, b, c, d: dd } => spec_branch_weight(cfg, d) > 0 && a.depth_ok(cfg, d + 1) && b.depth_ok(cfg, d + 1) && c.depth_ok(cfg, d + 1) && dd.depth_ok(cfg, d + 1),
            NibbleNodes::FromByteModulo { child } => d < cfg.max_leaf_depth && child.depth_ok(cfg, d + 1),
            NibbleNodes::FromByteDivide { child } => d < cfg.max_leaf_depth && child.depth_ok(cfg, d + 1),
            NibbleNodes::IfElse { predicate, child_a, child_b } => spec_branch_weight(cfg, d) > 0 && predicate.depth_ok(cfg, d + 1) && child_a.depth_ok(cfg, d + 1) && child_b.depth_ok(cfg, d + 1),
        }
    }

    /// Grow a fresh tree at a depth.
    pub fn generate_rng(rng: &mut DeterministicRng, state: State, ctx: &GenContext) -> (r: Self)
        requires
            ctx.wf(),
            state.depth <= ctx.cfg.max_leaf_depth,
        ensures
            r.wf(),
            r.depth_ok(ctx.cfg, state.depth as int),
            r == Self::spec_generate(
                old(rng).state,
                state.depth as int,
                ctx.cfg,
                ctx.image,
            ).0,
            final(rng).state == Self::spec_generate(
                old(rng).state,
                state.depth as int,
                ctx.cfg,
                ctx.image,
            ).1,
        decreases ctx.cfg.max_leaf_depth - state.depth,
    {
        let d: usize = state.depth;
        let lw: u64 = ctx.cfg.leaf_weight(d);
        let bw: u64 = ctx.cfg.branch_weight(d);
        let cw: u64 = if d < ctx.cfg.max_leaf_depth {
            2 * WEIGHT_ONE
        } else {
            0
        };
        let v: Vec<u64> = class_weights(lw * 2, 0, bw * 6, cw);
        let roll: u64 = rng.below(lw * 2 + bw * 6 + cw);
        let idx: usize = pick_weighted(&v, roll);
        if idx == 0 {
            let k: u64 = class_index(roll, 0, lw, 2);
            if k == 0 {
                NibbleNodes::Constant { value: Nibble::new(rng.byte()) }
            } else {
                NibbleNodes::FromGametic
            }
        } else if idx == 2 {
            let k: u64 = class_index(roll, lw * 2, bw, 6);
            if k == 0 {
                NibbleNodes::Add { child_a: Box::new(NibbleNodes::generate_rng(rng, state.deepen(), ctx)), child_b: Box::new(NibbleNodes::generate_rng(rng, state.deepen(), ctx)) }
            } else if k == 1 {
                NibbleNodes::Multiply { child_a: Box::new(NibbleNodes::generate_rng(rng, state.deepen(), ctx)), child_b: Box::new(NibbleNodes::generate_rng(rng, state.deepen(), ctx)) }
            } else if k == 2 {
                NibbleNodes::Divide { child_value: Box::new(NibbleNodes::generate_rng(rng, state.deepen(), ctx)), child_divisor: Box::new(NibbleNodes::generate_rng(rng, state.deepen(), ctx)) }
            } else if k == 3 {
                NibbleNodes::Modulus { child_value: Box::new(NibbleNodes::generate_rng(rng, state.deepen(), ctx)), child_divisor: Box::new(NibbleNodes::generate_rng(rng, state.deepen(), ctx)) }
            } else if k == 4 {
                NibbleNodes::FromBooleans { a: Box::new(BooleanNodes::generate_rng(rng, state.deepen(), ctx)), b: Box::new(BooleanNodes::generate_rng(rng, state.deepen(), ctx)), c: Box::new(BooleanNodes::generate_rng(rng, state.deepen(), ctx)), d: Box::new(BooleanNodes::generate_rng(rng, state.deepen(), ctx)) }
            } else {
                NibbleNodes::IfElse { predicate: Box::new(BooleanNodes::generate_rng(rng, state.deepen(), ctx)), child_a: Box::new(NibbleNodes::generate_rng(rng, state.deepen(), ctx)), child_b: Box::new(NibbleNodes::generate_rng(rng, state.deepen(), ctx)) }
            }
        } else {
            proof {
                assert(idx == 3);
            }
            let k: u64 = class_index(roll, lw * 2 + bw * 6, WEIGHT_ONE, 2);
            if k == 0 {
                NibbleNodes::FromByteModulo { child: Box::new(ByteNodes::generate_rng(rng, state.deepen(), ctx)) }
            } else {
                NibbleNodes::FromByteDivide { child: Box::new(ByteNodes::generate_rng(rng, state.deepen(), ctx)) }
            }
        }
    }

    /// Whether one tree can come out of the other by a single mutation
    /// walk.
    pub open spec fn one_path(self, other: Self) -> bool
        decreases self,
    {
        match (self, other) {
            (NibbleNodes::Constant { value: v1 }, NibbleNodes::Constant { value: v2 }) => true,
            (NibbleNodes::FromGametic, NibbleNodes::FromGametic) => true,
            (NibbleNodes::Add { child_a: a1, child_b: b1 }, NibbleNodes::Add { child_a: a2, child_b: b2 }) => ((*a1).one_path(*a2) && b1 == b2) || (a1 == a2 && (*b1).one_path(*b2)),
            (NibbleNodes::Multiply { child_a: a1, child_b: b1 }, NibbleNodes::Multiply { child_a: a2, child_b: b2 }) => ((*a1).one_path(*a2) && b1 == b2) || (a1 == a2 && (*b1).one_path(*b2)),
            (NibbleNodes::Divide { child_value: a1, child_divisor: b1 }, NibbleNodes::Divide { child_value: a2, child_divisor: b2 }) => ((*a1).one_path(*a2) && b1 == b2) || (a1 == a2 && (*b1).one_path(*b2)),
            (NibbleNodes::Modulus { child_value: a1, child_divisor: b1 }, NibbleNodes::Modulus { child_value: a2, child_divisor: b2 }) => ((*a1).one_path(*a2) && b1 == b2) || (a1 == a2 && (*b1).one_path(*b2)),
            (NibbleNodes::FromBooleans { a: a1, b: b1, c: c1, d: d1 }, NibbleNodes::FromBooleans { a: a2, b: b2, c: c2, d: d2 }) => ((*a1).one_path(*a2) && b1 == b2 && c1 == c2 && d1 == d2) || (a1 == a2 && (*b1).one_path(*b2) && c1 == c2 && d1 == d2) || (a1 == a2 && b1 == b2 && (*c1).one_path(*c2) && d1 == d2) || (a1 == a2 && b1 == b2 && c1 == c2 && (*d1).one_path(*d2)),
            (NibbleNodes::FromByteModulo { child: a1 }, NibbleNodes::FromByteModulo { child: a2 }) => (*a1).one_path(*a2),
            (NibbleNodes::FromByteDivide { child: a1 }, NibbleNodes::FromByteDivide { child: a2 }) => (*a1).one_path(*a2),
            (NibbleNodes::IfElse { predicate: p1, child_a: a1, child_b: b1 }, NibbleNodes::IfElse { predicate: p2, child_a: a2, child_b: b2 }) => ((*p1).one_path(*p2) && a1 == a2 && b1 == b2) || (p1 == p2 && (*a1).one_path(*a2) && b1 == b2) || (p1 == p2 && a1 == a2 && (*b1).one_path(*b2)),
            _ => false,
        }
    }

    /// Mutate the tree at a depth.
    pub fn mutate_rng(self, rng: &mut DeterministicRng, state: State, ctx: &GenContext) -> (r: Self)
        requires
            ctx.wf(),
            state.depth <= ctx.cfg.max_leaf_depth,
            self.wf(),
            self.depth_ok(ctx.cfg, state.depth as int),
        ensures
            r.wf(),
            r.depth_ok(ctx.cfg, state.depth as int),
            ctx.cfg.mut_reroll == 0 ==> self.one_path(r),
            r == self.spec_mutate(old(rng).state, state.depth as int, ctx.cfg, ctx.image).0,
            final(rng).state == self.spec_mutate(
                old(rng).state,
                state.depth as int,
                ctx.cfg,
                ctx.image,
            ).1,
        decreases ctx.cfg.max_leaf_depth - state.depth,
    {
        if rng.chance(ctx.cfg.mut_reroll) {
            NibbleNodes::generate_rng(rng, state, ctx)
        } else {
            match self {
                NibbleNodes::Constant { value } => NibbleNodes::Constant { value: Nibble::new(rng.byte()) },
                NibbleNodes::FromGametic => NibbleNodes::FromGametic,
                NibbleNodes::Add { child_a, child_b } => {
                    if rng.below(2) == 0 {
                        NibbleNodes::Add { child_a: Box::new(child_a.mutate_rng(rng, state.deepen(), ctx)), child_b }
                    } else {
                        NibbleNodes::Add { child_a, child_b: Box::new(child_b.mutate_rng(rng, state.deepen(), ctx)) }
                    }
                },
                NibbleNodes::Multiply { child_a, child_b } => {
                    if rng.below(2) == 0 {
                        NibbleNodes::Multiply { child_a: Box::new(child_a.mutate_rng(rng, state.deepen(), ctx)), child_b }
                    } else {
                        NibbleNodes::Multiply { child_a, child_b: Box::new(child_b.mutate_rng(rng, state.deepen(), ctx)) }
                    }
                },
                NibbleNodes::Divide { child_value, child_divisor } => {
                    if rng.below(2) == 0 {
                        NibbleNodes::Divide { child_value: Box::new(child_value.mutate_rng(rng, state.deepen(), ctx)), child_divisor }
                    } else {
                        NibbleNodes::Divide { child_value, child_divisor: Box::new(child_divisor.mutate_rng(rng, state.deepen(), ctx)) }
                    }
                },
                NibbleNodes::Modulus { child_value, child_divisor } => {
                    if rng.below(2) == 0 {
                        NibbleNodes::Modulus { child_value: Box::new(child_value.mutate_rng(rng, state.deepen(), ctx)), child_divisor }
                    } else {
                        NibbleNodes::Modulus { child_value, child_divisor: Box::new(child_divisor.mutate_rng(rng, state.deepen(), ctx)) }
                    }
                },
                NibbleNodes::FromBooleans { a, b, c, d: dd } => {
                    let j: u64 = rng.below(4);
                    if j == 0 {
                        NibbleNodes::FromBooleans { a: Box::new(a.mutate_rng(rng, state.deepen(), ctx)), b, c, d: dd }
                    } else if j == 1 {
                        NibbleNodes::FromBooleans { a, b: Box::new(b.mutate_rng(rng, state.deepen(), ctx)), c, d: dd }
                    } else if j == 2 {
                        NibbleNodes::FromBooleans { a, b, c: Box::new(c.mutate_rng(rng, state.deepen(), ctx)), d: dd }
                    } else {
                        NibbleNodes::FromBooleans { a, b, c, d: Box::new(dd.mutate_rng(rng, state.deepen(), ctx)) }
                    }
                },
                NibbleNodes::FromByteModulo { child } => NibbleNodes::FromByteModulo { child: Box::new(child.mutate_rng(rng, state.deepen(), ctx)) },
                NibbleNodes::FromByteDivide { child } => NibbleNodes::FromByteDivide { child: Box::new(child.mutate_rng(rng, state.deepen(), ctx)) },
                NibbleNodes::IfElse { predicate, child_a, child_b } => {
                    let j: u64 = rng.below(3);
                    if j == 0 {
                        NibbleNodes::IfElse { predicate: Box::new(predicate.mutate_rng(rng, state.deepen(), ctx)), child_a, child_b }
                    } else if j == 1 {
                        NibbleNodes::IfElse { predicate, child_a: Box::new(child_a.mutate_rng(rng, state.deepen(), ctx)), child_b }
                    } else {
                        NibbleNodes::IfElse { predicate, child_a, child_b: Box::new(child_b.mutate_rng(rng, state.deepen(), ctx)) }
                    }
                },
            }
        }
    }
}

impl ByteNodes {
    /// Whether every node of the tree sits at a depth where its
    /// generation weight is positive.
    pub open spec fn depth_ok(self, cfg: GrammarConfig, d: int) -> bool
        decreases self,
    {
        match self {
            ByteNodes::Constant { value } => spec_leaf_weight(cfg, d) > 0,
            ByteNodes::FromGametic => spec_leaf_weight(cfg, d) > 0,
            ByteNodes::Add { child_a, child_b } => spec_branch_weight(cfg, d) > 0 && child_a.depth_ok(cfg, d + 1) && child_b.depth_ok(cfg, d + 1),
            ByteNodes::Multiply { child_a, child_b } => spec_branch_weight(cfg, d) > 0 && child_a.depth_ok(cfg, d + 1) && child_b.depth_ok(cfg, d + 1),
            ByteNodes::Divide { child_value, child_divisor } => spec_branch_weight(cfg, d) > 0 && child_value.depth_ok(cfg, d + 1) && child_divisor.depth_ok(cfg, d + 1),
            ByteNodes::Modulus { child_value, child_divisor } => spec_branch_weight(cfg, d) > 0 && child_value.depth_ok(cfg, d + 1) && child_divisor.depth_ok(cfg, d + 1),
            ByteNodes::IfElse { predicate, child_a, child_b } => spec_branch_weight(cfg, d) > 0 && predicate.depth_ok(cfg, d + 1) && child_a.depth_ok(cfg, d + 1) && child_b.depth_ok(cfg, d + 1),
        }
    }

    /// Grow a fresh tree at a depth.
    pub fn generate_rng(rng: &mut DeterministicRng, state: State, ctx: &GenContext) -> (r: Self)
        requires
            ctx.wf(),
            state.depth <= ctx.cfg.max_leaf_depth,
        ensures
            r.wf(),
            r.depth_ok(ctx.cfg, state.depth as int),
            r == Self::spec_generate(
                old(rng).state,
                state.depth as int,
                ctx.cfg,
                ctx.image,
            ).0,
            final(rng).state == Self::spec_generate(
                old(rng).state,
                state.depth as int,
                ctx.cfg,
                ctx.image,
            ).1,
        decreases ctx.cfg.max_leaf_depth - state.depth,
    {
        let d: usize = state.depth;
        let lw: u64 = ctx.cfg.leaf_weight(d);
        let bw: u64 = ctx.cfg.branch_weight(d);
        let v: Vec<u64> = class_weights(lw * 2, 0, bw * 5, 0);
        let roll: u64 = rng.below(lw * 2 + bw * 5);
        let idx: usize = pick_weighted(&v, roll);
        if idx == 0 {
            let k: u64 = class_index(roll, 0, lw, 2);
            if k == 0 {
                ByteNodes::Constant { value: Byte::new(rng.byte()) }
            } else {
                ByteNodes::FromGametic
            }
        } else if idx == 2 {
            let k: u64 = class_index(roll, lw * 2, bw, 5);
            if k == 0 {
                ByteNodes::Add { child_a: Box::new(ByteNodes::generate_rng(rng, state.deepen(), ctx)), child_b: Box::new(ByteNodes::generate_rng(rng, state.deepen(), ctx)) }
            } else if k == 1 {
                ByteNodes::Multiply { child_a: Box::new(ByteNodes::generate_rng(rng, state.deepen(), ctx)), child_b: Box::new(ByteNodes::generate_rng(rng, state.deepen(), ctx)) }
            } else if k == 2 {
                ByteNodes::Divide { child_value: Box::new(ByteNodes::generate_rng(rng, state.deepen(), ctx)), child_divisor: Box::new(ByteNodes::generate_rng(rng, state.deepen(), ctx)) }
            } else if k == 3 {
                ByteNodes::Modulus { child_value: Box::new(ByteNodes::generate_rng(rng, state.deepen(), ctx)), child_divisor: Box::new(ByteNodes::generate_rng(rng, state.deepen(), ctx)) }
            } else {
                ByteNodes::IfElse { predicate: Box::new(BooleanNodes::generate_rng(rng, state.deepen(), ctx)), child_a: Box::new(ByteNodes::generate_rng(rng, state.deepen(), ctx)), child_b: Box::new(ByteNodes::generate_rng(rng, state.deepen(), ctx)) }
            }
        } else {
            proof {
                assert(false);
            }
            ByteNodes::Constant { value: Byte::new(rng.byte()) }
        }
    }

    /// Whether one tree can come out of the other by a single mutation
    /// walk.
    pub open spec fn one_path(self, other: Self) -> bool
        decreases self,
    {
        match (self, other) {
            (ByteNodes::Constant { value: v1 }, ByteNodes::Constant { value: v2 }) => true,
            (ByteNodes::FromGametic, ByteNodes::FromGametic) => true,
            (ByteNodes::Add { child_a: a1, child_b: b1 }, ByteNodes::Add { child_a: a2, child_b: b2 }) => ((*a1).one_path(*a2) && b1 == b2) || (a1 == a2 && (*b1).one_path(*b2)),
            (ByteNodes::Multiply { child_a: a1, child_b: b1 }, ByteNodes::Multiply { child_a: a2, child_b: b2 }) => ((*a1).one_path(*a2) && b1 == b2) || (a1 == a2 && (*b1).one_path(*b2)),
            (ByteNodes::Divide { child_value: a1, child_divisor: b1 }, ByteNodes::Divide { child_value: a2, child_divisor: b2 }) => ((*a1).one_path(*a2) && b1 == b2) || (a1 == a2 && (*b1).one_path(*b2)),
            (ByteNodes::Modulus { child_value: a1, child_divisor: b1 }, ByteNodes::Modulus { child_value: a2, child_divisor: b2 }) => ((*a1).one_path(*a2) && b1 == b2) || (a1 == a2 && (*b1).one_path(*b2)),
            (ByteNodes::IfElse { predicate: p1, child_a: a1, child_b: b1 }, ByteNodes::IfElse { predicate: p2, child_a: a2, child_b: b2 }) => ((*p1).one_path(*p2) && a1 == a2 && b1 == b2) || (p1 == p2 && (*a1).one_path(*a2) && b1 == b2) || (p1 == p2 && a1 == a2 && (*b1).one_path(*b2)),
            _ => false,
        }
    }

    /// Mutate the tree at a depth.
    pub fn mutate_rng(self, rng: &mut DeterministicRng, state: State, ctx: &GenContext) -> (r: Self)
        requires
            ctx.wf(),
            state.depth <= ctx.cfg.max_leaf_depth,
            self.wf(),
            self.depth_ok(ctx.cfg, state.depth as int),
        ensures
            r.wf(),
            r.depth_ok(ctx.cfg, state.depth as int),
            ctx.cfg.mut_reroll == 0 ==> self.one_path(r),
            r == self.spec_mutate(old(rng).state, state.depth as int, ctx.cfg, ctx.image).0,
            final(rng).state == self.spec_mutate(
                old(rng).state,
                state.depth as int,
                ctx.cfg,
                ctx.image,
            ).1,
        decreases ctx.cfg.max_leaf_depth - state.depth,
    {
        if rng.chance(ctx.cfg.mut_reroll) {
            ByteNodes::generate_rng(rng, state, ctx)
        } else {
            match self {
                ByteNodes::Constant { value } => ByteNodes::Constant { value: Byte::new(rng.byte()) },
                ByteNodes::FromGametic => ByteNodes::FromGametic,
                ByteNodes::Add { child_a, child_b } => {
                    if rng.below(2) == 0 {
                        ByteNodes::Add { child_a: Box::new(child_a.mutate_rng(rng, state.deepen(), ctx)), child_b }
                    } else {
                        ByteNodes::Add { child_a, child_b: Box::new(child_b.mutate_rng(rng, state.deepen(), ctx)) }
                    }
                },
                ByteNodes::Multiply { child_a, child_b } => {
                    if rng.below(2) == 0 {
                        ByteNodes::Multiply { child_a: Box::new(child_a.mutate_rng(rng, state.deepen(), ctx)), child_b }
                    } else {
                        ByteNodes::Multiply { child_a, child_b: Box::new(child_b.mutate_rng(rng, state.deepen(), ctx)) }
                    }
                },
                ByteNodes::Divide { child_value, child_divisor } => {
                    if rng.below(2) == 0 {
                        ByteNodes::Divide { child_value: Box::new(child_value.mutate_rng(rng, state.deepen(), ctx)), child_divisor }
                    } else {
                        ByteNodes::Divide { child_value, child_divisor: Box::new(child_divisor.mutate_rng(rng, state.deepen(), ctx)) }
                    }
                },
                ByteNodes::Modulus { child_value, child_divisor } => {
                    if rng.below(2) == 0 {
                        ByteNodes::Modulus { child_value: Box::new(child_value.mutate_rng(rng, state.deepen(), ctx)), child_divisor }
                    } else {
                        ByteNodes::Modulus { child_value, child_divisor: Box::new(child_divisor.mutate_rng(rng, state.deepen(), ctx)) }
                    }
                },
                ByteNodes::IfElse { predicate, child_a, child_b } => {
                    let j: u64 = rng.below(3);
                    if j == 0 {
                        ByteNodes::IfElse { predicate: Box::new(predicate.mutate_rng(rng, state.deepen(), ctx)), child_a, child_b }
                    } else if j == 1 {
                        ByteNodes::IfElse { predicate, child_a: Box::new(child_a.mutate_rng(rng, state.deepen(), ctx)), child_b }
                    } else {
                        ByteNodes::IfElse { predicate, child_a, child_b: Box::new(child_b.mutate_rng(rng, state.deepen(), ctx)) }
                    }
                },
            }
        }
    }
}

impl UIntNodes {
    /// Whether every node of the tree sits at a depth where its
    /// generation weight is positive.
    pub open spec fn depth_ok(self, cfg: GrammarConfig, d: int) -> bool
        decreases self,
    {
        match self {
            UIntNodes::Constant { value } => spec_leaf_weight(cfg, d) > 0,
            UIntNodes::FromGametic => spec_leaf_weight(cfg, d) > 0,
            UIntNodes::Add { child_a, child_b } => spec_branch_weight(cfg, d) > 0 && child_a.depth_ok(cfg, d + 1) && child_b.depth_ok(cfg, d + 1),
            UIntNodes::Multiply { child_a, child_b } => spec_branch_weight(cfg, d) > 0 && child_a.depth_ok(cfg, d + 1) && child_b.depth_ok(cfg, d + 1),
            UIntNodes::Divide { child_value, child_divisor } => spec_branch_weight(cfg, d) > 0 && child_value.depth_ok(cfg, d + 1) && child_divisor.depth_ok(cfg, d + 1),
            UIntNodes::Modulus { child_value, child_divisor } => spec_branch_weight(cfg, d) > 0 && child_value.depth_ok(cfg, d + 1) && child_divisor.depth_ok(cfg, d + 1),
            UIntNodes::IfElse { predicate, child_a, child_b } => spec_branch_weight(cfg, d) > 0 && predicate.depth_ok(cfg, d + 1) && child_a.depth_ok(cfg, d + 1) && child_b.depth_ok(cfg, d + 1),
        }
    }

    /// Grow a fresh tree at a depth.
    pub fn generate_rng(rng: &mut DeterministicRng, state: State, ctx: &GenContext) -> (r: Self)
        requires
            ctx.wf(),
            state.depth <= ctx.cfg.max_leaf_depth,
        ensures
            r.wf(),
            r.depth_ok(ctx.cfg, state.depth as int),
            r == Self::spec_generate(
                old(rng).state,
                state.depth as int,
                ctx.cfg,
                ctx.image,
            ).0,
            final(rng).state == Self::spec_generate(
                old(rng).state,
                state.depth as int,
                ctx.cfg,
                ctx.image,
            ).1,
        decreases ctx.cfg.max_leaf_depth - state.depth,
    {
        let d: usize = state.depth;
        let lw: u64 = ctx.cfg.leaf_weight(d);
        let bw: u64 = ctx.cfg.branch_weight(d);
        let v: Vec<u64> = class_weights(lw * 2, 0, bw * 5, 0);
        let roll: u64 = rng.below(lw * 2 + bw * 5);
        let idx: usize = pick_weighted(&v, roll);
        if idx == 0 {
            let k: u64 = class_index(roll, 0, lw, 2);
            if k == 0 {
                UIntNodes::Constant { value: UInt::new(rng.below(0x1_0000_0000) as u32) }
            } else {
                UIntNodes::FromGametic
            }
        } else if idx == 2 {
            let k: u64 = class_index(roll, lw * 2, bw, 5);
            if k == 0 {
                UIntNodes::Add { child_a: Box::new(UIntNodes::generate_rng(rng, state.deepen(), ctx)), child_b: Box::new(UIntNodes::generate_rng(rng, state.deepen(), ctx)) }
            } else if k == 1 {
                UIntNodes::Multiply { child_a: Box::new(UIntNodes::generate_rng(rng, state.deepen(), ctx)), child_b: Box::new(UIntNodes::generate_rng(rng, state.deepen(), ctx)) }
            } else if k == 2 {
                UIntNodes::Divide { child_value: Box::new(UIntNodes::generate_rng(rng, state.deepen(), ctx)), child_divisor: Box::new(UIntNodes::generate_rng(rng, state.deepen(), ctx)) }
            } else if k == 3 {
                UIntNodes::Modulus { child_value: Box::new(UIntNodes::generate_rng(rng, state.deepen(), ctx)), child_divisor: Box::new(UIntNodes::generate_rng(rng, state.deepen(), ctx)) }
            } else {
                UIntNodes::IfElse { predicate: Box::new(BooleanNodes::generate_rng(rng, state.deepen(), ctx)), child_a: Box::new(UIntNodes::generate_rng(rng, state.deepen(), ctx)), child_b: Box::new(UIntNodes::generate_rng(rng, state.deepen(), ctx)) }
            }
        } else {
            proof {
                assert(false);
            }
            UIntNodes::Constant { value: UInt::new(rng.below(0x1_0000_0000) as u32) }
        }
    }

    /// Whether one tree can come out of the other by a single mutation
    /// walk.
    pub open spec fn one_path(self, other: Self) -> bool
        decreases self,
    {
        match (self, other) {
            (UIntNodes::Constant { value: v1 }, UIntNodes::Constant { value: v2 }) => true,
            (UIntNodes::FromGametic, UIntNodes::FromGametic) => true,
            (UIntNodes::Add { child_a: a1, child_b: b1 }, UIntNodes::Add { child_a: a2, child_b: b2 }) => ((*a1).one_path(*a2) && b1 == b2) || (a1 == a2 && (*b1).one_path(*b2)),
            (UIntNodes::Multiply { child_a: a1, child_b: b1 }, UIntNodes::Multiply { child_a: a2, child_b: b2 }) => ((*a1).one_path(*a2) && b1 == b2) || (a1 == a2 && (*b1).one_path(*b2)),
            (UIntNodes::Divide { child_value: a1, child_divisor: b1 }, UIntNodes::Divide { child_value: a2, child_divisor: b2 }) => ((*a1).one_path(*a2) && b1 == b2) || (a1 == a2 && (*b1).one_path(*b2)),
            (UIntNodes::Modulus { child_value: a1, child_divisor: b1 }, UIntNodes::Modulus { child_value: a2, child_divisor: b2 }) => ((*a1).one_path(*a2) && b1 == b2) || (a1 == a2 && (*b1).one_path(*b2)),
            (UIntNodes::IfElse { predicate: p1, child_a: a1, child_b: b1 }, UIntNodes::IfElse { predicate: p2, child_a: a2, child_b: b2 }) => ((*p1).one_path(*p2) && a1 == a2 && b1 == b2) || (p1 == p2 && (*a1).one_path(*a2) && b1 == b2) || (p1 == p2 && a1 == a2 && (*b1).one_path(*b2)),
            _ => false,
        }
    }

    /// Mutate the tree at a depth.
    pub fn mutate_rng(self, rng: &mut DeterministicRng, state: State, ctx: &GenContext) -> (r: Self)
        requires
            ctx.wf(),
            state.depth <= ctx.cfg.max_leaf_depth,
            self.wf(),
            self.depth_ok(ctx.cfg, state.depth as int),
        ensures
            r.wf(),
            r.depth_ok(ctx.cfg, state.depth as int),
            ctx.cfg.mut_reroll == 0 ==> self.one_path(r),
            r == self.spec_mutate(old(rng).state, state.depth as int, ctx.cfg, ctx.image).0,
            final(rng).state == self.spec_mutate(
                old(rng).state,
                state.depth as int,
                ctx.cfg,
                ctx.image,
            ).1,
        decreases ctx.cfg.max_leaf_depth - state.depth,
    {
        if rng.chance(ctx.cfg.mut_reroll) {
            UIntNodes::generate_rng(rng, state, ctx)
        } else {
            match self {
                UIntNodes::Constant { value } => UIntNodes::Constant { value: UInt::new(rng.below(0x1_0000_0000) as u32) },
                UIntNodes::FromGametic => UIntNodes::FromGametic,
                UIntNodes::Add { child_a, child_b } => {
                    if rng.below(2) == 0 {
                        UIntNodes::Add { child_a: Box::new(child_a.mutate_rng(rng, state.deepen(), ctx)), child_b }
                    } else {
                        UIntNodes::Add { child_a, child_b: Box::new(child_b.mutate_rng(rng, state.deepen(), ctx)) }
                    }
                },
                UIntNodes::Multiply { child_a, child_b } => {
                    if rng.below(2) == 0 {
                        UIntNodes::Multiply { child_a: Box::new(child_a.mutate_rng(rng, state.deepen(), ctx)), child_b }
                    } else {
                        UIntNodes::Multiply { child_a, child_b: Box::new(child_b.mutate_rng(rng, state.deepen(), ctx)) }
                    }
                },
                UIntNodes::Divide { child_value, child_divisor } => {
                    if rng.below(2) == 0 {
                        UIntNodes::Divide { child_value: Box::new(child_value.mutate_rng(rng, state.deepen(), ctx)), child_divisor }
                    } else {
                        UIntNodes::Divide { child_value, child_divisor: Box::new(child_divisor.mutate_rng(rng, state.deepen(), ctx)) }
                    }
                },
                UIntNodes::Modulus { child_value, child_divisor } => {
                    if rng.below(2) == 0 {
                        UIntNodes::Modulus { child_value: Box::new(child_value.mutate_rng(rng, state.deepen(), ctx)), child_divisor }
                    } else {
                        UIntNodes::Modulus { child_value, child_divisor: Box::new(child_divisor.mutate_rng(rng, state.deepen(), ctx)) }
                    }
                },
                UIntNodes::IfElse { predicate, child_a, child_b } => {
                    let j: u64 = rng.below(3);
                    if j == 0 {
                        UIntNodes::IfElse { predicate: Box::new(predicate.mutate_rng(rng, state.deepen(), ctx)), child_a, child_b }
                    } else if j == 1 {
                        UIntNodes::IfElse { predicate, child_a: Box::new(child_a.mutate_rng(rng, state.deepen(), ctx)), child_b }
                    } else {
                        UIntNodes::IfElse { predicate, child_a, child_b: Box::new(child_b.mutate_rng(rng, state.deepen(), ctx)) }
                    }
                },
            }
        }
    }
}

impl SIntNodes {
    /// Whether every node of the tree sits at a depth where its
    /// generation weight is positive.
    pub open spec fn depth_ok(self, cfg: GrammarConfig, d: int) -> bool
        decreases self,
    {
        match self {
            SIntNodes::Constant { value } => spec_leaf_weight(cfg, d) > 0,
            SIntNodes::Add { child_a, child_b } => spec_branch_weight(cfg, d) > 0 && child_a.depth_ok(cfg, d + 1) && child_b.depth_ok(cfg, d + 1),
            SIntNodes::Multiply { child_a, child_b } => spec_branch_weight(cfg, d) > 0 && child_a.depth_ok(cfg, d + 1) && child_b.depth_ok(cfg, d + 1),
            SIntNodes::Divide { child_value, child_divisor } => spec_branch_weight(cfg, d) > 0 && child_value.depth_ok(cfg, d + 1) && child_divisor.depth_ok(cfg, d + 1),
            SIntNodes::Modulus { child_value, child_divisor } => spec_branch_weight(cfg, d) > 0 && child_value.depth_ok(cfg, d + 1) && child_divisor.depth_ok(cfg, d + 1),
            SIntNodes::IfElse { predicate, child_a, child_b } => spec_branch_weight(cfg, d) > 0 && predicate.depth_ok(cfg, d + 1) && child_a.depth_ok(cfg, d + 1) && child_b.depth_ok(cfg, d + 1),
        }
    }

    /// Grow a fresh tree at a depth.
    pub fn generate_rng(rng: &mut DeterministicRng, state: State, ctx: &GenContext) -> (r: Self)
        requires
            ctx.wf(),
            state.depth <= ctx.cfg.max_leaf_depth,
        ensures
            r.wf(),
            r.depth_ok(ctx.cfg, state.depth as int),
            r == Self::spec_generate(
                old(rng).state,
                state.depth as int,
                ctx.cfg,
                ctx.image,
            ).0,
            final(rng).state == Self::spec_generate(
                old(rng).state,
                state.depth as int,
                ctx.cfg,
                ctx.image,
            ).1,
        decreases ctx.cfg.max_leaf_depth - state.depth,
    {
        let d: usize = state.depth;
        let lw: u64 = ctx.cfg.leaf_weight(d);
        let bw: u64 = ctx.cfg.branch_weight(d);
        let v: Vec<u64> = class_weights(lw * 1, 0, bw * 5, 0);
        let roll: u64 = rng.below(lw * 1 + bw * 5);
        let idx: usize = pick_weighted(&v, roll);
        if idx == 0 {
            SIntNodes::Constant { value: SInt::new((rng.below(0x1_0000_0000) as i64 - 0x8000_0000) as i32) }
        } else if idx == 2 {
            let k: u64 = class_index(roll, lw * 1, bw, 5);
            if k == 0 {
                SIntNodes::Add { child_a: Box::new(SIntNodes::generate_rng(rng, state.deepen(), ctx)), child_b: Box::new(SIntNodes::generate_rng(rng, state.deepen(), ctx)) }
            } else if k == 1 {
                SIntNodes::Multiply { child_a: Box::new(SIntNodes::generate_rng(rng, state.deepen(), ctx)), child_b: Box::new(SIntNodes::generate_rng(rng, state.deepen(), ctx)) }
            } else if k == 2 {
                SIntNodes::Divide { child_value: Box::new(SIntNodes::generate_rng(rng, state.deepen(), ctx)), child_divisor: Box::new(SIntNodes::generate_rng(rng, state.deepen(), ctx)) }
            } else if k == 3 {
                SIntNodes::Modulus { child_value: Box::new(SIntNodes::generate_rng(rng, state.deepen(), ctx)), child_divisor: Box::new(SIntNodes::generate_rng(rng, state.deepen(), ctx)) }
            } else {
                SIntNodes::IfElse { predicate: Box::new(BooleanNodes::generate_rng(rng, state.deepen(), ctx)), child_a: Box::new(SIntNodes::generate_rng(rng, state.deepen(), ctx)), child_b: Box::new(SIntNodes::generate_rng(rng, state.deepen(), ctx)) }
            }
        } else {
            proof {
                assert(false);
            }
            SIntNodes::Constant { value: SInt::new((rng.below(0x1_0000_0000) as i64 - 0x8000_0000) as i32) }
        }
    }

    /// Whether one tree can come out of the other by a single mutation
    /// walk.
    pub open spec fn one_path(self, other: Self) -> bool
        decreases self,
    {
        match (self, other) {
            (SIntNodes::Constant { value: v1 }, SIntNodes::Constant { value: v2 }) => true,
            (SIntNodes::Add { child_a: a1, child_b: b1 }, SIntNodes::Add { child_a: a2, child_b: b2 }) => ((*a1).one_path(*a2) && b1 == b2) || (a1 == a2 && (*b1).one_path(*b2)),
            (SIntNodes::Multiply { child_a: a1, child_b: b1 }, SIntNodes::Multiply { child_a: a2, child_b: b2 }) => ((*a1).one_path(*a2) && b1 == b2) || (a1 == a2 && (*b1).one_path(*b2)),
            (SIntNodes::Divide { child_value: a1, child_divisor: b1 }, SIntNodes::Divide { child_value: a2, child_divisor: b2 }) => ((*a1).one_path(*a2) && b1 == b2) || (a1 == a2 && (*b1).one_path(*b2)),
            (SIntNodes::Modulus { child_value: a1, child_divisor: b1 }, SIntNodes::Modulus { child_value: a2, child_divisor: b2 }) => ((*a1).one_path(*a2) && b1 == b2) || (a1 == a2 && (*b1).one_path(*b2)),
            (SIntNodes::IfElse { predicate: p1, child_a: a1, child_b: b1 }, SIntNodes::IfElse { predicate: p2, child_a: a2, child_b: b2 }) => ((*p1).one_path(*p2) && a1 == a2 && b1 == b2) || (p1 == p2 && (*a1).one_path(*a2) && b1 == b2) || (p1 == p2 && a1 == a2 && (*b1).one_path(*b2)),
            _ => false,
        }
    }

    /// Mutate the tree at a depth.
    pub fn mutate_rng(self, rng: &mut DeterministicRng, state: State, ctx: &GenContext) -> (r: Self)
        requires
            ctx.wf(),
            state.depth <= ctx.cfg.max_leaf_depth,
            self.wf(),
            self.depth_ok(ctx.cfg, state.depth as int),
        ensures
            r.wf(),
            r.depth_ok(ctx.cfg, state.depth as int),
            ctx.cfg.mut_reroll == 0 ==> self.one_path(r),
            r == self.spec_mutate(old(rng).state, state.depth as int, ctx.cfg, ctx.image).0,
            final(rng).state == self.spec_mutate(
                old(rng).state,
                state.depth as int,
                ctx.cfg,
                ctx.image,
            ).1,
        decreases ctx.cfg.max_leaf_depth - state.depth,
    {
        if rng.chance(ctx.cfg.mut_reroll) {
            SIntNodes::generate_rng(rng, state, ctx)
        } else {
            match self {
                SIntNodes::Constant { value } => SIntNodes::Constant { value: SInt::new((rng.below(0x1_0000_0000) as i64 - 0x8000_0000) as i32) },
                SIntNodes::Add { child_a, child_b } => {
                    if rng.below(2) == 0 {
                        SIntNodes::Add { child_a: Box::new(child_a.mutate_rng(rng, state.deepen(), ctx)), child_b }
                    } else {
                        SIntNodes::Add { child_a, child_b: Box::new(child_b.mutate_rng(rng, state.deepen(), ctx)) }
                    }
                },
                SIntNodes::Multiply { child_a, child_b } => {
                    if rng.below(2) == 0 {
                        SIntNodes::Multiply { child_a: Box::new(child_a.mutate_rng(rng, state.deepen(), ctx)), child_b }
                    } else {
                        SIntNodes::Multiply { child_a, child_b: Box::new(child_b.mutate_rng(rng, state.deepen(), ctx)) }
                    }
                },
                SIntNodes::Divide { child_value, child_divisor } => {
                    if rng.below(2) == 0 {
                        SIntNodes::Divide { child_value: Box::new(child_value.mutate_rng(rng, state.deepen(), ctx)), child_divisor }
                    } else {
                        SIntNodes::Divide { child_value, child_divisor: Box::new(child_divisor.mutate_rng(rng, state.deepen(), ctx)) }
                    }
                },
                SIntNodes::Modulus { child_value, child_divisor } => {
                    if rng.below(2) == 0 {
                        SIntNodes::Modulus { child_value: Box::new(child_value.mutate_rng(rng, state.deepen(), ctx)), child_divisor }
                    } else {
                        SIntNodes::Modulus { child_value, child_divisor: Box::new(child_divisor.mutate_rng(rng, state.deepen(), ctx)) }
                    }
                },
                SIntNodes::IfElse { predicate, child_a, child_b } => {
                    let j: u64 = rng.below(3);
                    if j == 0 {
                        SIntNodes::IfElse { predicate: Box::new(predicate.mutate_rng(rng, state.deepen(), ctx)), child_a, child_b }
                    } else if j == 1 {
                        SIntNodes::IfElse { predicate, child_a: Box::new(child_a.mutate_rng(rng, state.deepen(), ctx)), child_b }
                    } else {
                        SIntNodes::IfElse { predicate, child_a, child_b: Box::new(child_b.mutate_rng(rng, state.deepen(), ctx)) }
                    }
                },
            }
        }
    }
}


impl BooleanNodes {
    /// The tree `generate_rng` grows from a generator state, paired with
    /// the state the generator is left in: the first draw selects the
    /// class and the variant, and children grow one level deeper.
    pub open spec fn spec_generate(s: u128, depth: int, cfg: GrammarConfig, img: Arc<Image>) -> (
        BooleanNodes,
        u128,
    )
        decreases cfg.max_leaf_depth - depth, 0int,
        when cfg.wf() && 0 <= depth <= cfg.max_leaf_depth
    {
        let s1 = rng_step(s);
        let lw = spec_leaf_weight(cfg, depth);
        let pw = spec_pipe_weight(cfg, depth);
        let bw = spec_branch_weight(cfg, depth);
        let total = 1 * lw + 2 * pw + 10 * bw;
        let roll = (rng_output(s1) as int) % total;
        if roll < 1 * lw {
            let k = roll / lw;
            ({
                    let t1 = rng_step(s1);
                    (BooleanNodes::Constant { child: Boolean { value: rng_output(t1) % 2 == 1 } }, t1)
                })
        } else if roll < 1 * lw + 2 * pw {
            let k = (roll - 1 * lw) / pw;
            if k == 0 {
                ({
                    let g1 = SNFloatNodes::spec_generate(s1, depth + 1, cfg, img);
                    (BooleanNodes::SNFloatSign { child: Box::new(g1.0) }, g1.1)
                })
            } else {
                ({
                    let g1 = BooleanNodes::spec_generate(s1, depth + 1, cfg, img);
                    (BooleanNodes::Not { child: Box::new(g1.0) }, g1.1)
                })
            }
        } else {
            let k = (roll - (1 * lw + 2 * pw)) / bw;
            if k == 0 {
                ({
                    let g1 = UNFloatNodes::spec_generate(s1, depth + 1, cfg, img);
                    let g2 = UNFloatNodes::spec_generate(g1.1, depth + 1, cfg, img);
                    (BooleanNodes::UNFloatLess { child_a: Box::new(g1.0), child_b: Box::new(g2.0) }, g2.1)
                })
            } else if k == 1 {
                ({
                    let g1 = UNFloatNodes::spec_generate(s1, depth + 1, cfg, img);
                    let g2 = UNFloatNodes::spec_generate(g1.1, depth + 1, cfg, img);
                    (BooleanNodes::UNFloatMore { child_a: Box::new(g1.0), child_b: Box::new(g2.0) }, g2.1)
                })
            } else if k == 2 {
                ({
                    let g1 = SNFloatNodes::spec_generate(s1, depth + 1, cfg, img);
                    let g2 = SNFloatNodes::spec_generate(g1.1, depth + 1, cfg, img);
                    (BooleanNodes::SNFloatLess { child_a: Box::new(g1.0), child_b: Box::new(g2.0) }, g2.1)
                })
            } else if k == 3 {
                ({
                    let g1 = SNFloatNodes::spec_generate(s1, depth + 1, cfg, img);
                    let g2 = SNFloatNodes::spec_generate(g1.1, depth + 1, cfg, img);
                    (BooleanNodes::SNFloatMore { child_a: Box::new(g1.0), child_b: Box::new(g2.0) }, g2.1)
                })
            } else if k == 4 {
                ({
                    let g1 = BooleanNodes::spec_generate(s1, depth + 1, cfg, img);
                    let g2 = BooleanNodes::spec_generate(g1.1, depth + 1, cfg, img);
                    (BooleanNodes::And { child_a: Box::new(g1.0), child_b: Box::new(g2.0) }, g2.1)
                })
            } else if k == 5 {
                ({
                    let g1 = BooleanNodes::spec_generate(s1, depth + 1, cfg, img);
                    let g2 = BooleanNodes::spec_generate(g1.1, depth + 1, cfg, img);
                    (BooleanNodes::Or { child_a: Box::new(g1.0), child_b: Box::new(g2.0) }, g2.1)
                })
            } else if k == 6 {
                ({
                    let g1 = BitColorNodes::spec_generate(s1, depth + 1, cfg, img);
                    let g2 = BitColorNodes::spec_generate(g1.1, depth + 1, cfg, img);
                    (BooleanNodes::BitColorHas { child_a: Box::new(g1.0), child_b: Box::new(g2.0) }, g2.1)
                })
            } else if k == 7 {
                ({
                    let g1 = BooleanNodes::spec_generate(s1, depth + 1, cfg, img);
                    let g2 = CoordMapNodes::spec_generate(g1.1, depth + 1, cfg, img);
                    (BooleanNodes::ModifyState { child: Box::new(g1.0), child_state: Box::new(g2.0) }, g2.1)
                })
            } else if k == 8 {
                ({
                    let g1 = BooleanNodes::spec_generate(s1, depth + 1, cfg, img);
                    let g2 = BooleanNodes::spec_generate(g1.1, depth + 1, cfg, img);
                    let g3 = BooleanNodes::spec_generate(g2.1, depth + 1, cfg, img);
                    (BooleanNodes::IfElse { predicate: Box::new(g1.0), child_a: Box::new(g2.0), child_b: Box::new(g3.0) }, g3.1)
                })
            } else {
                ({
                    let g1 = ByteNodes::spec_generate(s1, depth + 1, cfg, img);
                    let g2 = ByteNodes::spec_generate(g1.1, depth + 1, cfg, img);
                    (BooleanNodes::ByteEquals { child_a: Box::new(g1.0), child_b: Box::new(g2.0) }, g2.1)
                })
            }
        }
    }
    /// The tree `mutate_rng` leaves behind, paired with the state the
    /// generator is left in: the first draw decides the reroll, a reroll
    /// regenerates the whole subtree at the current depth, and otherwise
    /// the walk continues into the one child the next draw picks, a data
    /// leaf redrawing its own value instead.
    pub open spec fn spec_mutate(self, s: u128, depth: int, cfg: GrammarConfig, img: Arc<Image>) -> (
        BooleanNodes,
        u128,
    )
        decreases cfg.max_leaf_depth - depth, 1int,
        when cfg.wf() && 0 <= depth <= cfg.max_leaf_depth && self.depth_ok(cfg, depth)
    {
        let s1 = rng_step(s);
        if rng_output(s1) % 131072 < cfg.mut_reroll {
            BooleanNodes::spec_generate(s1, depth, cfg, img)
        } else {
            match self {
            BooleanNodes::Constant { child } => ({
                    let t1 = rng_step(s1);
                    (BooleanNodes::Constant { child: Boolean { value: rng_output(t1) % 2 == 1 } }, t1)
                }),
            BooleanNodes::SNFloatSign { child } => ({
                    let m = (*child).spec_mutate(s1, depth + 1, cfg, img);
                    (BooleanNodes::SNFloatSign { child: Box::new(m.0) }, m.1)
                }),
            BooleanNodes::Not { child } => ({
                    let m = (*child).spec_mutate(s1, depth + 1, cfg, img);
                    (BooleanNodes::Not { child: Box::new(m.0) }, m.1)
                }),
            BooleanNodes::UNFloatLess { child_a, child_b } => ({
                    let s2 = rng_step(s1);
                    let j = rng_output(s2) % 2;
                    if j == 0 {
                        let m = (*child_a).spec_mutate(s2, depth + 1, cfg, img);
                        (BooleanNodes::UNFloatLess { child_a: Box::new(m.0), child_b }, m.1)
                    } else {
                        let m = (*child_b).spec_mutate(s2, depth + 1, cfg, img);
                        (BooleanNodes::UNFloatLess { child_a, child_b: Box::new(m.0) }, m.1)
                    }
                }),
            BooleanNodes::UNFloatMore { child_a, child_b } => ({
                    let s2 = rng_step(s1);
                    let j = rng_output(s2) % 2;
                    if j == 0 {
                        let m = (*child_a).spec_mutate(s2, depth + 1, cfg, img);
                        (BooleanNodes::UNFloatMore { child_a: Box::new(m.0), child_b }, m.1)
                    } else {
                        let m = (*child_b).spec_mutate(s2, depth + 1, cfg, img);
                        (BooleanNodes::UNFloatMore { child_a, child_b: Box::new(m.0) }, m.1)
                    }
                }),
            BooleanNodes::SNFloatLess { child_a, child_b } => ({
                    let s2 = rng_step(s1);
                    let j = rng_output(s2) % 2;
                    if j == 0 {
                        let m = (*child_a).spec_mutate(s2, depth + 1, cfg, img);
                        (BooleanNodes::SNFloatLess { child_a: Box::new(m.0), child_b }, m.1)
                    } else {
                        let m = (*child_b).spec_mutate(s2, depth + 1, cfg, img);
                        (BooleanNodes::SNFloatLess { child_a, child_b: Box::new(m.0) }, m.1)
                    }
                }),
            BooleanNodes::SNFloatMore { child_a, child_b } => ({
                    let s2 = rng_step(s1);
                    let j = rng_output(s2) % 2;
                    if j == 0 {
                        let m = (*child_a).spec_mutate(s2, depth + 1, cfg, img);
                        (BooleanNodes::SNFloatMore { child_a: Box::new(m.0), child_b }, m.1)
                    } else {
                        let m = (*child_b).spec_mutate(s2, depth + 1, cfg, img);
                        (BooleanNodes::SNFloatMore { child_a, child_b: Box::new(m.0) }, m.1)
                    }
                }),
            BooleanNodes::And { child_a, child_b } => ({
                    let s2 = rng_step(s1);
                    let j = rng_output(s2) % 2;
                    if j == 0 {
                        let m = (*child_a).spec_mutate(s2, depth + 1, cfg, img);
                        (BooleanNodes::And { child_a: Box::new(m.0), child_b }, m.1)
                    } else {
                        let m = (*child_b).spec_mutate(s2, depth + 1, cfg, img);
                        (BooleanNodes::And { child_a, child_b: Box::new(m.0) }, m.1)
                    }
                }),
            BooleanNodes::Or { child_a, child_b } => ({
                    let s2 = rng_step(s1);
                    let j = rng_output(s2) % 2;
                    if j == 0 {
                        let m = (*child_a).spec_mutate(s2, depth + 1, cfg, img);
                        (BooleanNodes::Or { child_a: Box::new(m.0), child_b }, m.1)
                    } else {
                        let m = (*child_b).spec_mutate(s2, depth + 1, cfg, img);
                        (BooleanNodes::Or { child_a, child_b: Box::new(m.0) }, m.1)
                    }
                }),
            BooleanNodes::BitColorHas { child_a, child_b } => ({
                    let s2 = rng_step(s1);
                    let j = rng_output(s2) % 2;
                    if j == 0 {
                        let m = (*child_a).spec_mutate(s2, depth + 1, cfg, img);
                        (BooleanNodes::BitColorHas { child_a: Box::new(m.0), child_b }, m.1)
                    } else {
                        let m = (*child_b).spec_mutate(s2, depth + 1, cfg, img);
                        (BooleanNodes::BitColorHas { child_a, child_b: Box::new(m.0) }, m.1)
                    }
                }),
            BooleanNodes::ModifyState { child, child_state } => ({
                    let s2 = rng_step(s1);
                    let j = rng_output(s2) % 2;
                    if j == 0 {
                        let m = (*child).spec_mutate(s2, depth + 1, cfg, img);
                        (BooleanNodes::ModifyState { child: Box::new(m.0), child_state }, m.1)
                    } else {
                        let m = (*child_state).spec_mutate(s2, depth + 1, cfg, img);
                        (BooleanNodes::ModifyState { child, child_state: Box::new(m.0) }, m.1)
                    }
                }),
            BooleanNodes::IfElse { predicate, child_a, child_b } => ({
                    let s2 = rng_step(s1);
                    let j = rng_output(s2) % 3;
                    if j == 0 {
                        let m = (*predicate).spec_mutate(s2, depth + 1, cfg, img);
                        (BooleanNodes::IfElse { predicate: Box::new(m.0), child_a, child_b }, m.1)
                    } else if j == 1 {
                        let m = (*child_a).spec_mutate(s2, depth + 1, cfg, img);
                        (BooleanNodes::IfElse { predicate, child_a: Box::new(m.0), child_b }, m.1)
                    } else {
                        let m = (*child_b).spec_mutate(s2, depth + 1, cfg, img);
                        (BooleanNodes::IfElse { predicate, child_a, child_b: Box::new(m.0) }, m.1)
                    }
                }),
            BooleanNodes::ByteEquals { child_a, child_b } => ({
                    let s2 = rng_step(s1);
                    let j = rng_output(s2) % 2;
                    if j == 0 {
                        let m = (*child_a).spec_mutate(s2, depth + 1, cfg, img);
                        (BooleanNodes::ByteEquals { child_a: Box::new(m.0), child_b }, m.1)
                    } else {
                        let m = (*child_b).spec_mutate(s2, depth + 1, cfg, img);
                        (BooleanNodes::ByteEquals { child_a, child_b: Box::new(m.0) }, m.1)
                    }
                }),
            }
        }
    }
}

impl NibbleNodes {
    /// The tree `generate_rng` grows from a generator state, paired with
    /// the state the generator is left in: the first draw selects the
    /// class and the variant, and children grow one level deeper.
    pub open spec fn spec_generate(s: u128, depth: int, cfg: GrammarConfig, img: Arc<Image>) -> (
        NibbleNodes,
        u128,
    )
        decreases cfg.max_leaf_depth - depth, 0int,
        when cfg.wf() && 0 <= depth <= cfg.max_leaf_depth
    {
        let s1 = rng_step(s);
        let lw = spec_leaf_weight(cfg, depth);
        let pw = spec_pipe_weight(cfg, depth);
        let bw = spec_branch_weight(cfg, depth);
        let cw = if depth < cfg.max_leaf_depth {
            2 * WEIGHT_ONE
        } else {
            0
        };
        let total = 2 * lw + 6 * bw + cw;
        let roll = (rng_output(s1) as int) % total;
        if roll < 2 * lw {
            let k = roll / lw;
            if k == 0 {
                ({
                    let t1 = rng_step(s1);
                    (NibbleNodes::Constant { value: Nibble { value: ((rng_output(t1) % 256) % 16) as u8 } }, t1)
                })
            } else {
                (NibbleNodes::FromGametic, s1)
            }
        } else if roll < 2 * lw + 6 * bw {
            let k = (roll - (2 * lw)) / bw;
            if k == 0 {
                ({
                    let g1 = NibbleNodes::spec_generate(s1, depth + 1, cfg, img);
                    let g2 = NibbleNodes::spec_generate(g1.1, depth + 1, cfg, img);
                    (NibbleNodes::Add { child_a: Box::new(g1.0), child_b: Box::new(g2.0) }, g2.1)
                })
            } else if k == 1 {
                ({
                    let g1 = NibbleNodes::spec_generate(s1, depth + 1, cfg, img);
                    let g2 = NibbleNodes::spec_generate(g1.1, depth + 1, cfg, img);
                    (NibbleNodes::Multiply { child_a: Box::new(g1.0), child_b: Box::new(g2.0) }, g2.1)
                })
            } else if k == 2 {
                ({
                    let g1 = NibbleNodes::spec_generate(s1, depth + 1, cfg, img);
                    let g2 = NibbleNodes::spec_generate(g1.1, depth + 1, cfg, img);
                    (NibbleNodes::Divide { child_value: Box::new(g1.0), child_divisor: Box::new(g2.0) }, g2.1)
                })
            } else if k == 3 {
                ({
                    let g1 = NibbleNodes::spec_generate(s1, depth + 1, cfg, img);
                    let g2 = NibbleNodes::spec_generate(g1.1, depth + 1, cfg, img);
                    (NibbleNodes::Modulus { child_value: Box::new(g1.0), child_divisor: Box::new(g2.0) }, g2.1)
                })
            } else if k == 4 {
                ({
                    let g1 = BooleanNodes::spec_generate(s1, depth + 1, cfg, img);
                    let g2 = BooleanNodes::spec_generate(g1.1, depth + 1, cfg, img);
                    let g3 = BooleanNodes::spec_generate(g2.1, depth + 1, cfg, img);
                    let g4 = BooleanNodes::spec_generate(g3.1, depth + 1, cfg, img);
                    (NibbleNodes::FromBooleans { a: Box::new(g1.0), b: Box::new(g2.0), c: Box::new(g3.0), d: Box::new(g4.0) }, g4.1)
                })
            } else {
                ({
                    let g1 = BooleanNodes::spec_generate(s1, depth + 1, cfg, img);
                    let g2 = NibbleNodes::spec_generate(g1.1, depth + 1, cfg, img);
                    let g3 = NibbleNodes::spec_generate(g2.1, depth + 1, cfg, img);
                    (NibbleNodes::IfElse { predicate: Box::new(g1.0), child_a: Box::new(g2.0), child_b: Box::new(g3.0) }, g3.1)
                })
            }
        } else {
            let k = (roll - (2 * lw + 6 * bw)) / (WEIGHT_ONE as int);
            if k == 0 {
                ({
                    let g1 = ByteNodes::spec_generate(s1, depth + 1, cfg, img);
                    (NibbleNodes::FromByteModulo { child: Box::new(g1.0) }, g1.1)
                })
            } else {
                ({
                    let g1 = ByteNodes::spec_generate(s1, depth + 1, cfg, img);
                    (NibbleNodes::FromByteDivide { child: Box::new(g1.0) }, g1.1)
                })
            }
        }
    }
    /// The tree `mutate_rng` leaves behind, paired with the state the
    /// generator is left in: the first draw decides the reroll, a reroll
    /// regenerates the whole subtree at the current depth, and otherwise
    /// the walk continues into the one child the next draw picks, a data
    /// leaf redrawing its own value instead.
    pub open spec fn spec_mutate(self, s: u128, depth: int, cfg: GrammarConfig, img: Arc<Image>) -> (
        NibbleNodes,
        u128,
    )
        decreases cfg.max_leaf_depth - depth, 1int,
        when cfg.wf() && 0 <= depth <= cfg.max_leaf_depth && self.depth_ok(cfg, depth)
    {
        let s1 = rng_step(s);
        if rng_output(s1) % 131072 < cfg.mut_reroll {
            NibbleNodes::spec_generate(s1, depth, cfg, img)
        } else {
            match self {
            NibbleNodes::Constant { value } => ({
                    let t1 = rng_step(s1);
                    (NibbleNodes::Constant { value: Nibble { value: ((rng_output(t1) % 256) % 16) as u8 } }, t1)
                }),
            NibbleNodes::FromGametic => (NibbleNodes::FromGametic, s1),
            NibbleNodes::Add { child_a, child_b } => ({
                    let s2 = rng_step(s1);
                    let j = rng_output(s2) % 2;
                    if j == 0 {
                        let m = (*child_a).spec_mutate(s2, depth + 1, cfg, img);
                        (NibbleNodes::Add { child_a: Box::new(m.0), child_b }, m.1)
                    } else {
                        let m = (*child_b).spec_mutate(s2, depth + 1, cfg, img);
                        (NibbleNodes::Add { child_a, child_b: Box::new(m.0) }, m.1)
                    }
                }),
            NibbleNodes::Multiply { child_a, child_b } => ({
                    let s2 = rng_step(s1);
                    let j = rng_output(s2) % 2;
                    if j == 0 {
                        let m = (*child_a).spec_mutate(s2, depth + 1, cfg, img);
                        (NibbleNodes::Multiply { child_a: Box::new(m.0), child_b }, m.1)
                    } else {
                        let m = (*child_b).spec_mutate(s2, depth + 1, cfg, img);
                        (NibbleNodes::Multiply { child_a, child_b: Box::new(m.0) }, m.1)
                    }
                }),
            NibbleNodes::Divide { child_value, child_divisor } => ({
                    let s2 = rng_step(s1);
                    let j = rng_output(s2) % 2;
                    if j == 0 {
                        let m = (*child_value).spec_mutate(s2, depth + 1, cfg, img);
                        (NibbleNodes::Divide { child_value: Box::new(m.0), child_divisor }, m.1)
                    } else {
                        let m = (*child_divisor).spec_mutate(s2, depth + 1, cfg, img);
                        (NibbleNodes::Divide { child_value, child_divisor: Box::new(m.0) }, m.1)
                    }
                }),
            NibbleNodes::Modulus { child_value, child_divisor } => ({
                    let s2 = rng_step(s1);
                    let j = rng_output(s2) % 2;
                    if j == 0 {
                        let m = (*child_value).spec_mutate(s2, depth + 1, cfg, img);
                        (NibbleNodes::Modulus { child_value: Box::new(m.0), child_divisor }, m.1)
                    } else {
                        let m = (*child_divisor).spec_mutate(s2, depth + 1, cfg, img);
                        (NibbleNodes::Modulus { child_value, child_divisor: Box::new(m.0) }, m.1)
                    }
                }),
            NibbleNodes::FromBooleans { a, b, c, d } => ({
                    let s2 = rng_step(s1);
                    let j = rng_output(s2) % 4;
                    if j == 0 {
                        let m = (*a).spec_mutate(s2, depth + 1, cfg, img);
                        (NibbleNodes::FromBooleans { a: Box::new(m.0), b, c, d }, m.1)
                    } else if j == 1 {
                        let m = (*b).spec_mutate(s2, depth + 1, cfg, img);
                        (NibbleNodes::FromBooleans { a, b: Box::new(m.0), c, d }, m.1)
                    } else if j == 2 {
                        let m = (*c).spec_mutate(s2, depth + 1, cfg, img);
                        (NibbleNodes::FromBooleans { a, b, c: Box::new(m.0), d }, m.1)
                    } else {
                        let m = (*d).spec_mutate(s2, depth + 1, cfg, img);
                        (NibbleNodes::FromBooleans { a, b, c, d: Box::new(m.0) }, m.1)
                    }
                }),
            NibbleNodes::IfElse { predicate, child_a, child_b } => ({
                    let s2 = rng_step(s1);
                    let j = rng_output(s2) % 3;
                    if j == 0 {
                        let m = (*predicate).spec_mutate(s2, depth + 1, cfg, img);
                        (NibbleNodes::IfElse { predicate: Box::new(m.0), child_a, child_b }, m.1)
                    } else if j == 1 {
                        let m = (*child_a).spec_mutate(s2, depth + 1, cfg, img);
                        (NibbleNodes::IfElse { predicate, child_a: Box::new(m.0), child_b }, m.1)
                    } else {
                        let m = (*child_b).spec_mutate(s2, depth + 1, cfg, img);
                        (NibbleNodes::IfElse { predicate, child_a, child_b: Box::new(m.0) }, m.1)
                    }
                }),
            NibbleNodes::FromByteModulo { child } => ({
                    let m = (*child).spec_mutate(s1, depth + 1, cfg, img);
                    (NibbleNodes::FromByteModulo { child: Box::new(m.0) }, m.1)
                }),
            NibbleNodes::FromByteDivide { child } => ({
                    let m = (*child).spec_mutate(s1, depth + 1, cfg, img);
                    (NibbleNodes::FromByteDivide { child: Box::new(m.0) }, m.1)
                }),
            }
        }
    }
}

impl ByteNodes {
    /// The tree `generate_rng` grows from a generator state, paired with
    /// the state the generator is left in: the first draw selects the
    /// class and the variant, and children grow one level deeper.
    pub open spec fn spec_generate(s: u128, depth: int, cfg: GrammarConfig, img: Arc<Image>) -> (
        ByteNodes,
        u128,
    )
        decreases cfg.max_leaf_depth - depth, 0int,
        when cfg.wf() && 0 <= depth <= cfg.max_leaf_depth
    {
        let s1 = rng_step(s);
        let lw = spec_leaf_weight(cfg, depth);
        let pw = spec_pipe_weight(cfg, depth);
        let bw = spec_branch_weight(cfg, depth);
        let total = 2 * lw + 5 * bw;
        let roll = (rng_output(s1) as int) % total;
        if roll < 2 * lw {
            let k = roll / lw;
            if k == 0 {
                ({
                    let t1 = rng_step(s1);
                    (ByteNodes::Constant { value: Byte { value: (rng_output(t1) % 256) as u8 } }, t1)
                })
            } else {
                (ByteNodes::FromGametic, s1)
            }
        } else {
            let k = (roll - (2 * lw)) / bw;
            if k == 0 {
                ({
                    let g1 = ByteNodes::spec_generate(s1, depth + 1, cfg, img);
                    let g2 = ByteNodes::spec_generate(g1.1, depth + 1, cfg, img);
                    (ByteNodes::Add { child_a: Box::new(g1.0), child_b: Box::new(g2.0) }, g2.1)
                })
            } else if k == 1 {
                ({
                    let g1 = ByteNodes::spec_generate(s1, depth + 1, cfg, img);
                    let g2 = ByteNodes::spec_generate(g1.1, depth + 1, cfg, img);
                    (ByteNodes::Multiply { child_a: Box::new(g1.0), child_b: Box::new(g2.0) }, g2.1)
                })
            } else if k == 2 {
                ({
                    let g1 = ByteNodes::spec_generate(s1, depth + 1, cfg, img);
                    let g2 = ByteNodes::spec_generate(g1.1, depth + 1, cfg, img);
                    (ByteNodes::Divide { child_value: Box::new(g1.0), child_divisor: Box::new(g2.0) }, g2.1)
                })
            } else if k == 3 {
                ({
                    let g1 = ByteNodes::spec_generate(s1, depth + 1, cfg, img);
                    let g2 = ByteNodes::spec_generate(g1.1, depth + 1, cfg, img);
                    (ByteNodes::Modulus { child_value: Box::new(g1.0), child_divisor: Box::new(g2.0) }, g2.1)
                })
            } else {
                ({
                    let g1 = BooleanNodes::spec_generate(s1, depth + 1, cfg, img);
                    let g2 = ByteNodes::spec_generate(g1.1, depth + 1, cfg, img);
                    let g3 = ByteNodes::spec_generate(g2.1, depth + 1, cfg, img);
                    (ByteNodes::IfElse { predicate: Box::new(g1.0), child_a: Box::new(g2.0), child_b: Box::new(g3.0) }, g3.1)
                })
            }
        }
    }
    /// The tree `mutate_rng` leaves behind, paired with the state the
    /// generator is left in: the first draw decides the reroll, a reroll
    /// regenerates the whole subtree at the current depth, and otherwise
    /// the walk continues into the one child the next draw picks, a data
    /// leaf redrawing its own value instead.
    pub open spec fn spec_mutate(self, s: u128, depth: int, cfg: GrammarConfig, img: Arc<Image>) -> (
        ByteNodes,
        u128,
    )
        decreases cfg.max_leaf_depth - depth, 1int,
        when cfg.wf() && 0 <= depth <= cfg.max_leaf_depth && self.depth_ok(cfg, depth)
    {
        let s1 = rng_step(s);
        if rng_output(s1) % 131072 < cfg.mut_reroll {
            ByteNodes::spec_generate(s1, depth, cfg, img)
        } else {
            match self {
            ByteNodes::Constant { value } => ({
                    let t1 = rng_step(s1);
                    (ByteNodes::Constant { value: Byte { value: (rng_output(t1) % 256) as u8 } }, t1)
                }),
            ByteNodes::FromGametic => (ByteNodes::FromGametic, s1),
            ByteNodes::Add { child_a, child_b } => ({
                    let s2 = rng_step(s1);
                    let j = rng_output(s2) % 2;
                    if j == 0 {
                        let m = (*child_a).spec_mutate(s2, depth + 1, cfg, img);
                        (ByteNodes::Add { child_a: Box::new(m.0), child_b }, m.1)
                    } else {
                        let m = (*child_b).spec_mutate(s2, depth + 1, cfg, img);
                        (ByteNodes::Add { child_a, child_b: Box::new(m.0) }, m.1)
                    }
                }),
            ByteNodes::Multiply { child_a, child_b } => ({
                    let s2 = rng_step(s1);
                    let j = rng_output(s2) % 2;
                    if j == 0 {
                        let m = (*child_a).spec_mutate(s2, depth + 1, cfg, img);
                        (ByteNodes::Multiply { child_a: Box::new(m.0), child_b }, m.1)
                    } else {
                        let m = (*child_b).spec_mutate(s2, depth + 1, cfg, img);
                        (ByteNodes::Multiply { child_a, child_b: Box::new(m.0) }, m.1)
                    }
                }),
            ByteNodes::Divide { child_value, child_divisor } => ({
                    let s2 = rng_step(s1);
                    let j = rng_output(s2) % 2;
                    if j == 0 {
                        let m = (*child_value).spec_mutate(s2, depth + 1, cfg, img);
                        (ByteNodes::Divide { child_value: Box::new(m.0), child_divisor }, m.1)
                    } else {
                        let m = (*child_divisor).spec_mutate(s2, depth + 1, cfg, img);
                        (ByteNodes::Divide { child_value, child_divisor: Box::new(m.0) }, m.1)
                    }
                }),
            ByteNodes::Modulus { child_value, child_divisor } => ({
                    let s2 = rng_step(s1);
                    let j = rng_output(s2) % 2;
                    if j == 0 {
                        let m = (*child_value).spec_mutate(s2, depth + 1, cfg, img);
                        (ByteNodes::Modulus { child_value: Box::new(m.0), child_divisor }, m.1)
                    } else {
                        let m = (*child_divisor).spec_mutate(s2, depth + 1, cfg, img);
                        (ByteNodes::Modulus { child_value, child_divisor: Box::new(m.0) }, m.1)
                    }
                }),
            ByteNodes::IfElse { predicate, child_a, child_b } => ({
                    let s2 = rng_step(s1);
                    let j = rng_output(s2) % 3;
                    if j == 0 {
                        let m = (*predicate).spec_mutate(s2, depth + 1, cfg, img);
                        (ByteNodes::IfElse { predicate: Box::new(m.0), child_a, child_b }, m.1)
                    } else if j == 1 {
                        let m = (*child_a).spec_mutate(s2, depth + 1, cfg, img);
                        (ByteNodes::IfElse { predicate, child_a: Box::new(m.0), child_b }, m.1)
                    } else {
                        let m = (*child_b).spec_mutate(s2, depth + 1, cfg, img);
                        (ByteNodes::IfElse { predicate, child_a, child_b: Box::new(m.0) }, m.1)
                    }
                }),
            }
        }
    }
}

impl UIntNodes {
    /// The tree `generate_rng` grows from a generator state, paired with
    /// the state the generator is left in: the first draw selects the
    /// class and the variant, and children grow one level deeper.
    pub open spec fn spec_generate(s: u128, depth: int, cfg: GrammarConfig, img: Arc<Image>) -> (
        UIntNodes,
        u128,
    )
        decreases cfg.max_leaf_depth - depth, 0int,
        when cfg.wf() && 0 <= depth <= cfg.max_leaf_depth
    {
        let s1 = rng_step(s);
        let lw = spec_leaf_weight(cfg, depth);
        let pw = spec_pipe_weight(cfg, depth);
        let bw = spec_branch_weight(cfg, depth);
        let total = 2 * lw + 5 * bw;
        let roll = (rng_output(s1) as int) % total;
        if roll < 2 * lw {
            let k = roll / lw;
            if k == 0 {
                ({
                    let t1 = rng_step(s1);
                    (UIntNodes::Constant { value: UInt { value: (rng_output(t1) % 0x1_0000_0000) as u32 } }, t1)
                })
            } else {
                (UIntNodes::FromGametic, s1)
            }
        } else {
            let k = (roll - (2 * lw)) / bw;
            if k == 0 {
                ({
                    let g1 = UIntNodes::spec_generate(s1, depth + 1, cfg, img);
                    let g2 = UIntNodes::spec_generate(g1.1, depth + 1, cfg, img);
                    (UIntNodes::Add { child_a: Box::new(g1.0), child_b: Box::new(g2.0) }, g2.1)
                })
            } else if k == 1 {
                ({
                    let g1 = UIntNodes::spec_generate(s1, depth + 1, cfg, img);
                    let g2 = UIntNodes::spec_generate(g1.1, depth + 1, cfg, img);
                    (UIntNodes::Multiply { child_a: Box::new(g1.0), child_b: Box::new(g2.0) }, g2.1)
                })
            } else if k == 2 {
                ({
                    let g1 = UIntNodes::spec_generate(s1, depth + 1, cfg, img);
                    let g2 = UIntNodes::spec_generate(g1.1, depth + 1, cfg, img);
                    (UIntNodes::Divide { child_value: Box::new(g1.0), child_divisor: Box::new(g2.0) }, g2.1)
                })
            } else if k == 3 {
                ({
                    let g1 = UIntNodes::spec_generate(s1, depth + 1, cfg, img);
                    let g2 = UIntNodes::spec_generate(g1.1, depth + 1, cfg, img);
                    (UIntNodes::Modulus { child_value: Box::new(g1.0), child_divisor: Box::new(g2.0) }, g2.1)
                })
            } else {
                ({
                    let g1 = BooleanNodes::spec_generate(s1, depth + 1, cfg, img);
                    let g2 = UIntNodes::spec_generate(g1.1, depth + 1, cfg, img);
                    let g3 = UIntNodes::spec_generate(g2.1, depth + 1, cfg, img);
                    (UIntNodes::IfElse { predicate: Box::new(g1.0), child_a: Box::new(g2.0), child_b: Box::new(g3.0) }, g3.1)
                })
            }
        }
    }
    /// The tree `mutate_rng` leaves behind, paired with the state the
    /// generator is left in: the first draw decides the reroll, a reroll
    /// regenerates the whole subtree at the current depth, and otherwise
    /// the walk continues into the one child the next draw picks, a data
    /// leaf redrawing its own value instead.
    pub open spec fn spec_mutate(self, s: u128, depth: int, cfg: GrammarConfig, img: Arc<Image>) -> (
        UIntNodes,
        u128,
    )
        decreases cfg.max_leaf_depth - depth, 1int,
        when cfg.wf() && 0 <= depth <= cfg.max_leaf_depth && self.depth_ok(cfg, depth)
    {
        let s1 = rng_step(s);
        if rng_output(s1) % 131072 < cfg.mut_reroll {
            UIntNodes::spec_generate(s1, depth, cfg, img)
        } else {
            match self {
            UIntNodes::Constant { value } => ({
                    let t1 = rng_step(s1);
                    (UIntNodes::Constant { value: UInt { value: (rng_output(t1) % 0x1_0000_0000) as u32 } }, t1)
                }),
            UIntNodes::FromGametic => (UIntNodes::FromGametic, s1),
            UIntNodes::Add { child_a, child_b } => ({
                    let s2 = rng_step(s1);
                    let j = rng_output(s2) % 2;
                    if j == 0 {
                        let m = (*child_a).spec_mutate(s2, depth + 1, cfg, img);
                        (UIntNodes::Add { child_a: Box::new(m.0), child_b }, m.1)
                    } else {
                        let m = (*child_b).spec_mutate(s2, depth + 1, cfg, img);
                        (UIntNodes::Add { child_a, child_b: Box::new(m.0) }, m.1)
                    }
                }),
            UIntNodes::Multiply { child_a, child_b } => ({
                    let s2 = rng_step(s1);
                    let j = rng_output(s2) % 2;
                    if j == 0 {
                        let m = (*child_a).spec_mutate(s2, depth + 1, cfg, img);
                        (UIntNodes::Multiply { child_a: Box::new(m.0), child_b }, m.1)
                    } else {
                        let m = (*child_b).spec_mutate(s2, depth + 1, cfg, img);
                        (UIntNodes::Multiply { child_a, child_b: Box::new(m.0) }, m.1)
                    }
                }),
            UIntNodes::Divide { child_value, child_divisor } => ({
                    let s2 = rng_step(s1);
                    let j = rng_output(s2) % 2;
                    if j == 0 {
                        let m = (*child_value).spec_mutate(s2, depth + 1, cfg, img);
                        (UIntNodes::Divide { child_value: Box::new(m.0), child_divisor }, m.1)
                    } else {
                        let m = (*child_divisor).spec_mutate(s2, depth + 1, cfg, img);
                        (UIntNodes::Divide { child_value, child_divisor: Box::new(m.0) }, m.1)
                    }
                }),
            UIntNodes::Modulus { child_value, child_divisor } => ({
                    let s2 = rng_step(s1);
                    let j = rng_output(s2) % 2;
                    if j == 0 {
                        let m = (*child_value).spec_mutate(s2, depth + 1, cfg, img);
                        (UIntNodes::Modulus { child_value: Box::new(m.0), child_divisor }, m.1)
                    } else {
                        let m = (*child_divisor).spec_mutate(s2, depth + 1, cfg, img);
                        (UIntNodes::Modulus { child_value, child_divisor: Box::new(m.0) }, m.1)
                    }
                }),
            UIntNodes::IfElse { predicate, child_a, child_b } => ({
                    let s2 = rng_step(s1);
                    let j = rng_output(s2) % 3;
                    if j == 0 {
                        let m = (*predicate).spec_mutate(s2, depth + 1, cfg, img);
                        (UIntNodes::IfElse { predicate: Box::new(m.0), child_a, child_b }, m.1)
                    } else if j == 1 {
                        let m = (*child_a).spec_mutate(s2, depth + 1, cfg, img);
                        (UIntNodes::IfElse { predicate, child_a: Box::new(m.0), child_b }, m.1)
                    } else {
                        let m = (*child_b).spec_mutate(s2, depth + 1, cfg, img);
                        (UIntNodes::IfElse { predicate, child_a, child_b: Box::new(m.0) }, m.1)
                    }
                }),
            }
        }
    }
}

impl SIntNodes {
    /// The tree `generate_rng` grows from a generator state, paired with
    /// the state the generator is left in: the first draw selects the
    /// class and the variant, and children grow one level deeper.
    pub open spec fn spec_generate(s: u128, depth: int, cfg: GrammarConfig, img: Arc<Image>) -> (
        SIntNodes,
        u128,
    )
        decreases cfg.max_leaf_depth - depth, 0int,
        when cfg.wf() && 0 <= depth <= cfg.max_leaf_depth
    {
        let s1 = rng_step(s);
        let lw = spec_leaf_weight(cfg, depth);
        let pw = spec_pipe_weight(cfg, depth);
        let bw = spec_branch_weight(cfg, depth);
        let total = 1 * lw + 5 * bw;
        let roll = (rng_output(s1) as int) % total;
        if roll < 1 * lw {
            let k = roll / lw;
            ({
                    let t1 = rng_step(s1);
                    (SIntNodes::Constant { value: SInt { value: ((rng_output(t1) % 0x1_0000_0000) - 0x8000_0000) as i32 } }, t1)
                })
        } else {
            let k = (roll - (1 * lw)) / bw;
            if k == 0 {
                ({
                    let g1 = SIntNodes::spec_generate(s1, depth + 1, cfg, img);
                    let g2 = SIntNodes::spec_generate(g1.1, depth + 1, cfg, img);
                    (SIntNodes::Add { child_a: Box::new(g1.0), child_b: Box::new(g2.0) }, g2.1)
                })
            } else if k == 1 {
                ({
                    let g1 = SIntNodes::spec_generate(s1, depth + 1, cfg, img);
                    let g2 = SIntNodes::spec_generate(g1.1, depth + 1, cfg, img);
                    (SIntNodes::Multiply { child_a: Box::new(g1.0), child_b: Box::new(g2.0) }, g2.1)
                })
            } else if k == 2 {
                ({
                    let g1 = SIntNodes::spec_generate(s1, depth + 1, cfg, img);
                    let g2 = SIntNodes::spec_generate(g1.1, depth + 1, cfg, img);
                    (SIntNodes::Divide { child_value: Box::new(g1.0), child_divisor: Box::new(g2.0) }, g2.1)
                })
            } else if k == 3 {
                ({
                    let g1 = SIntNodes::spec_generate(s1, depth + 1, cfg, img);
                    let g2 = SIntNodes::spec_generate(g1.1, depth + 1, cfg, img);
                    (SIntNodes::Modulus { child_value: Box::new(g1.0), child_divisor: Box::new(g2.0) }, g2.1)
                })
            } else {
                ({
                    let g1 = BooleanNodes::spec_generate(s1, depth + 1, cfg, img);
                    let g2 = SIntNodes::spec_generate(g1.1, depth + 1, cfg, img);
                    let g3 = SIntNodes::spec_generate(g2.1, depth + 1, cfg, img);
                    (SIntNodes::IfElse { predicate: Box::new(g1.0), child_a: Box::new(g2.0), child_b: Box::new(g3.0) }, g3.1)
                })
            }
        }
    }
    /// The tree `mutate_rng` leaves behind, paired with the state the
    /// generator is left in: the first draw decides the reroll, a reroll
    /// regenerates the whole subtree at the current depth, and otherwise
    /// the walk continues into the one child the next draw picks, a data
    /// leaf redrawing its own value instead.
    pub open spec fn spec_mutate(self, s: u128, depth: int, cfg: GrammarConfig, img: Arc<Image>) -> (
        SIntNodes,
        u128,
    )
        decreases cfg.max_leaf_depth - depth, 1int,
        when cfg.wf() && 0 <= depth <= cfg.max_leaf_depth && self.depth_ok(cfg, depth)
    {
        let s1 = rng_step(s);
        if rng_output(s1) % 131072 < cfg.mut_reroll {
            SIntNodes::spec_generate(s1, depth, cfg, img)
        } else {
            match self {
            SIntNodes::Constant { value } => ({
                    let t1 = rng_step(s1);
                    (SIntNodes::Constant { value: SInt { value: ((rng_output(t1) % 0x1_0000_0000) - 0x8000_0000) as i32 } }, t1)
                }),
            SIntNodes::Add { child_a, child_b } => ({
                    let s2 = rng_step(s1);
                    let j = rng_output(s2) % 2;
                    if j == 0 {
                        let m = (*child_a).spec_mutate(s2, depth + 1, cfg, img);
                        (SIntNodes::Add { child_a: Box::new(m.0), child_b }, m.1)
                    } else {
                        let m = (*child_b).spec_mutate(s2, depth + 1, cfg, img);
                        (SIntNodes::Add { child_a, child_b: Box::new(m.0) }, m.1)
                    }
                }),
            SIntNodes::Multiply { child_a, child_b } => ({
                    let s2 = rng_step(s1);
                    let j = rng_output(s2) % 2;
                    if j == 0 {
                        let m = (*child_a).spec_mutate(s2, depth + 1, cfg, img);
                        (SIntNodes::Multiply { child_a: Box::new(m.0), child_b }, m.1)
                    } else {
                        let m = (*child_b).spec_mutate(s2, depth + 1, cfg, img);
                        (SIntNodes::Multiply { child_a, child_b: Box::new(m.0) }, m.1)
                    }
                }),
            SIntNodes::Divide { child_value, child_divisor } => ({
                    let s2 = rng_step(s1);
                    let j = rng_output(s2) % 2;
                    if j == 0 {
                        let m = (*child_value).spec_mutate(s2, depth + 1, cfg, img);
                        (SIntNodes::Divide { child_value: Box::new(m.0), child_divisor }, m.1)
                    } else {
                        let m = (*child_divisor).spec_mutate(s2, depth + 1, cfg, img);
                        (SIntNodes::Divide { child_value, child_divisor: Box::new(m.0) }, m.1)
                    }
                }),
            SIntNodes::Modulus { child_value, child_divisor } => ({
                    let s2 = rng_step(s1);
                    let j = rng_output(s2) % 2;
                    if j == 0 {
                        let m = (*child_value).spec_mutate(s2, depth + 1, cfg, img);
                        (SIntNodes::Modulus { child_value: Box::new(m.0), child_divisor }, m.1)
                    } else {
                        let m = (*child_divisor).spec_mutate(s2, depth + 1, cfg, img);
                        (SIntNodes::Modulus { child_value, child_divisor: Box::new(m.0) }, m.1)
                    }
                }),
            SIntNodes::IfElse { predicate, child_a, child_b } => ({
                    let s2 = rng_step(s1);
                    let j = rng_output(s2) % 3;
                    if j == 0 {
                        let m = (*predicate).spec_mutate(s2, depth + 1, cfg, img);
                        (SIntNodes::IfElse { predicate: Box::new(m.0), child_a, child_b }, m.1)
                    } else if j == 1 {
                        let m = (*child_a).spec_mutate(s2, depth + 1, cfg, img);
                        (SIntNodes::IfElse { predicate, child_a: Box::new(m.0), child_b }, m.1)
                    } else {
                        let m = (*child_b).spec_mutate(s2, depth + 1, cfg, img);
                        (SIntNodes::IfElse { predicate, child_a, child_b: Box::new(m.0) }, m.1)
                    }
                }),
            }
        }
    }
}

} // verus!
