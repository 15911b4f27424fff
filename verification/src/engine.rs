//! Depth state, depth-dependent weight shapes and the weighted-draw
//! machinery shared by every node family.

use vstd::prelude::*;

verus! {

/// Recursion state threaded through generation and mutation: the distance
/// from the root of the tree being grown or walked.
#[derive(Clone, Copy, PartialEq, Eq, Structural, Debug)]
pub struct State {
    pub depth: usize,
}

impl State {
    /// A fresh state at the root of a tree.
    pub fn root() -> (s: State)
        ensures
            s.depth == 0,
    {
        State { depth: 0 }
    }

    /// The state one level further down the tree.
    pub fn deepen(self) -> (s: State)
        requires
            self.depth < usize::MAX,
        ensures
            s.depth == self.depth + 1,
    {
        State { depth: self.depth + 1 }
    }
}

/// A value that is refreshed in place as the system advances.
pub trait Updatable {
    fn update(&mut self, state: State);
}

impl Updatable for () {
    fn update(&mut self, _state: State) {
    }
}

/// The weight scale: a full weight of one.
pub const WEIGHT_ONE: u64 = 65536;

/// The depth bounds that shape generation, and the reroll probability of
/// mutation (in unit-range units).
#[derive(Clone, Copy, PartialEq, Eq, Structural, Debug)]
pub struct GrammarConfig {
    pub min_leaf_depth: usize,
    pub max_leaf_depth: usize,
    pub min_pipe_depth: usize,
    pub max_pipe_depth: usize,
    pub min_branch_depth: usize,
    pub max_branch_depth: usize,
    pub mut_reroll: i32,
}

/// The weight of leaf variants at a depth: nothing below the minimum or
/// above the maximum, rising linearly in between.
pub open spec fn spec_leaf_weight(cfg: GrammarConfig, depth: int) -> int {
    if depth < cfg.min_leaf_depth || depth > cfg.max_leaf_depth {
        0
    } else {
        (depth - cfg.min_leaf_depth) * WEIGHT_ONE / (cfg.max_leaf_depth - cfg.min_leaf_depth)
    }
}

/// The weight of pipe variants at a depth: nothing outside the bounds,
/// falling linearly in between.
pub open spec fn spec_pipe_weight(cfg: GrammarConfig, depth: int) -> int {
    if depth < cfg.min_pipe_depth || depth > cfg.max_pipe_depth {
        0
    } else {
        WEIGHT_ONE - (depth - cfg.min_pipe_depth) * WEIGHT_ONE / (cfg.max_pipe_depth
            - cfg.min_pipe_depth)
    }
}

/// The weight of branch variants at a depth: nothing outside the bounds,
/// falling linearly in between and dying out faster than pipes.
pub open spec fn spec_branch_weight(cfg: GrammarConfig, depth: int) -> int {
    if depth < cfg.min_branch_depth || depth > cfg.max_branch_depth {
        0
    } else {
        WEIGHT_ONE - (depth - cfg.min_branch_depth) * WEIGHT_ONE / (cfg.max_branch_depth
            - cfg.min_branch_depth)
    }
}

impl GrammarConfig {
    /// A usable configuration: ordered non-degenerate bounds, pipes and
    /// branches dying out before leaves do, and at every reachable depth
    /// either the leaf weight or the branch weight positive, so that every
    /// node family (each holds leaf-shaped and branch-shaped variants) can
    /// always be generated.
    pub open spec fn wf(self) -> bool {
        &&& self.min_leaf_depth < self.max_leaf_depth
        &&& self.min_pipe_depth < self.max_pipe_depth
        &&& self.min_branch_depth < self.max_branch_depth
        &&& self.max_pipe_depth < self.max_leaf_depth
        &&& self.max_branch_depth < self.max_leaf_depth
        &&& self.max_leaf_depth <= 8192
        &&& 0 <= self.mut_reroll <= crate::continuous::UN_ONE
        &&& forall|d: int|
            0 <= d <= self.max_leaf_depth ==> spec_leaf_weight(self, d) + spec_branch_weight(
                self,
                d,
            ) > 0
    }

    /// The configuration the system runs with by default.
    pub fn standard() -> (r: GrammarConfig)
        ensures
            r.wf(),
            r.min_leaf_depth == 1,
            r.max_leaf_depth == 1000,
            r.min_pipe_depth == 1,
            r.max_pipe_depth == 10,
            r.min_branch_depth == 0,
            r.max_branch_depth == 5,
            r.mut_reroll == 13107,
    {
        let cfg = GrammarConfig {
            min_leaf_depth: 1,
            max_leaf_depth: 1000,
            min_pipe_depth: 1,
            max_pipe_depth: 10,
            min_branch_depth: 0,
            max_branch_depth: 5,
            mut_reroll: 13107,
        };
        proof {
            let w = WEIGHT_ONE as int;
            assert forall|d: int| 0 <= d <= 1000 implies spec_leaf_weight(cfg, d)
                + spec_branch_weight(cfg, d) > 0 by {
                vstd::arithmetic::mul::lemma_mul_basics(w);
                if 1 <= d {
                    vstd::arithmetic::mul::lemma_mul_nonnegative(d - 1, w);
                    vstd::arithmetic::div_mod::lemma_div_pos_is_pos((d - 1) * w, 999);
                }
                if d <= 1 {
                    vstd::arithmetic::mul::lemma_mul_inequality(d, 1, w);
                    vstd::arithmetic::mul::lemma_mul_nonnegative(d, w);
                    vstd::arithmetic::div_mod::lemma_div_is_ordered(d * w, 1 * w, 5);
                    vstd::arithmetic::div_mod::lemma_div_pos_is_pos(d * w, 5);
                } else {
                    vstd::arithmetic::mul::lemma_mul_increases(d - 1, w);
                    vstd::arithmetic::div_mod::lemma_div_non_zero((d - 1) * w, 999);
                    if d <= 5 {
                        crate::continuous::lemma_scale_div_bound(d, 5, w);
                    }
                }
            }
        }
        cfg
    }

    /// The leaf weight at a depth.
    pub fn leaf_weight(&self, depth: usize) -> (r: u64)
        requires
            self.wf(),
        ensures
            r == spec_leaf_weight(*self, depth as int),
            r <= WEIGHT_ONE,
    {
        if depth < self.min_leaf_depth || depth > self.max_leaf_depth {
            0
        } else {
            proof {
                crate::continuous::lemma_scale_div_bound(
                    depth - self.min_leaf_depth,
                    self.max_leaf_depth - self.min_leaf_depth,
                    WEIGHT_ONE as int,
                );
            }
            ((depth - self.min_leaf_depth) as u64 * WEIGHT_ONE) / (self.max_leaf_depth
                - self.min_leaf_depth) as u64
        }
    }

    /// The pipe weight at a depth.
    pub fn pipe_weight(&self, depth: usize) -> (r: u64)
        requires
            self.wf(),
        ensures
            r == spec_pipe_weight(*self, depth as int),
            r <= WEIGHT_ONE,
    {
        if depth < self.min_pipe_depth || depth > self.max_pipe_depth {
            0
        } else {
            proof {
                crate::continuous::lemma_scale_div_bound(
                    depth - self.min_pipe_depth,
                    self.max_pipe_depth - self.min_pipe_depth,
                    WEIGHT_ONE as int,
                );
            }
            WEIGHT_ONE - ((depth - self.min_pipe_depth) as u64 * WEIGHT_ONE) / (self.max_pipe_depth
                - self.min_pipe_depth) as u64
        }
    }

    /// The branch weight at a depth.
    pub fn branch_weight(&self, depth: usize) -> (r: u64)
        requires
            self.wf(),
        ensures
            r == spec_branch_weight(*self, depth as int),
            r <= WEIGHT_ONE,
    {
        if depth < self.min_branch_depth || depth > self.max_branch_depth {
            0
        } else {
            proof {
                crate::continuous::lemma_scale_div_bound(
                    depth - self.min_branch_depth,
                    self.max_branch_depth - self.min_branch_depth,
                    WEIGHT_ONE as int,
                );
            }
            WEIGHT_ONE - ((depth - self.min_branch_depth) as u64 * WEIGHT_ONE)
                / (self.max_branch_depth - self.min_branch_depth) as u64
        }
    }
}

/// Everything generation and mutation read besides the randomness: the
/// depth configuration and the preloaded image that image leaves take.
pub struct GenContext {
    pub cfg: GrammarConfig,
    pub image: std::sync::Arc<crate::image::Image>,
}

impl GenContext {
    pub open spec fn wf(self) -> bool {
        self.cfg.wf() && self.image.wf()
    }
}

/// The class weight list every node family draws from: the total weight
/// of its leaf variants, of its pipe variants, of its branch variants,
/// and of its constant-weight variants.
pub fn class_weights(w0: u64, w1: u64, w2: u64, w3: u64) -> (r: Vec<u64>)
    requires
        w0 <= 0x100_0000,
        w1 <= 0x100_0000,
        w2 <= 0x100_0000,
        w3 <= 0x100_0000,
    ensures
        r@ =~= seq![w0, w1, w2, w3],
        cum_weight(r@, 0) == 0,
        cum_weight(r@, 1) == w0,
        cum_weight(r@, 2) == w0 + w1,
        cum_weight(r@, 3) == w0 + w1 + w2,
        total_weight(r@) == w0 + w1 + w2 + w3,
{
    let mut v: Vec<u64> = Vec::new();
    v.push(w0);
    v.push(w1);
    v.push(w2);
    v.push(w3);
    proof {
        reveal_with_fuel(cum_weight, 6);
    }
    v
}

/// The position within a class of uniform weight that a roll lands on.
pub fn class_index(roll: u64, base: u64, w: u64, n: u64) -> (k: u64)
    requires
        w > 0,
        base <= roll,
        roll - base < (n as int) * (w as int),
    ensures
        k == ((roll - base) as int) / (w as int),
        k < n,
{
    proof {
        vstd::arithmetic::mul::lemma_mul_is_commutative(w as int, n as int);
        vstd::arithmetic::div_mod::lemma_multiply_divide_lt(roll - base, w as int, n as int);
        vstd::arithmetic::div_mod::lemma_div_pos_is_pos(roll - base, w as int);
    }
    (roll - base) / w
}

/// The sum of the first `i` weights.
pub open spec fn cum_weight(s: Seq<u64>, i: int) -> int
    decreases i,
{
    if i <= 0 {
        0
    } else {
        cum_weight(s, i - 1) + s[i - 1]
    }
}

/// The total weight of a list.
pub open spec fn total_weight(s: Seq<u64>) -> int {
    cum_weight(s, s.len() as int)
}

/// Partial sums never shrink.
pub proof fn lemma_cum_weight_monotonic(s: Seq<u64>, i: int, j: int)
    requires
        0 <= i <= j <= s.len(),
    ensures
        cum_weight(s, i) <= cum_weight(s, j),
    decreases j - i,
{
    if i < j {
        lemma_cum_weight_monotonic(s, i, j - 1);
    }
}

/// Partial sums are never negative.
pub proof fn lemma_cum_weight_nonneg(s: Seq<u64>, i: int)
    requires
        0 <= i <= s.len(),
    ensures
        0 <= cum_weight(s, i),
    decreases i,
{
    if i > 0 {
        lemma_cum_weight_nonneg(s, i - 1);
    }
}

/// The weighted draw at the heart of generation and mutation: the entry
/// whose cumulative weight range contains the roll is selected, so an
/// entry of weight zero can never be selected.
pub fn pick_weighted(weights: &Vec<u64>, roll: u64) -> (idx: usize)
    requires
        total_weight(weights@) <= u64::MAX,
        roll < total_weight(weights@),
    ensures
        idx < weights@.len(),
        cum_weight(weights@, idx as int) <= roll < cum_weight(weights@, idx as int)
            + weights@[idx as int],
        weights@[idx as int] > 0,
{
    let mut acc: u64 = 0;
    let mut i: usize = 0;
    while i < weights.len()
        invariant
            i <= weights@.len(),
            acc == cum_weight(weights@, i as int),
            roll >= acc,
            roll < total_weight(weights@),
            total_weight(weights@) <= u64::MAX,
        decreases weights@.len() - i,
    {
        proof {
            lemma_cum_weight_monotonic(weights@, i as int + 1, weights@.len() as int);
            lemma_cum_weight_nonneg(weights@, i as int);
        }
        let w: u64 = weights[i];
        if roll < acc + w {
            return i;
        }
        acc = acc + w;
        i = i + 1;
    }
    proof {
        assert(false);
    }
    0
}

} // verus!
