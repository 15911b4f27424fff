//! The slice-parallel update driver.
//!
//! Each tick the driver takes one horizontal row slice of the working
//! frame, evaluates the root colour tree once per pixel of the slice,
//! writes the result into the frame, and folds a four-field statistic
//! over the slice.  Once every slice of a frame is done the statistics
//! are smoothed, the trees may mutate, the transform metadata is
//! computed from its own root trees, and the finished frame is swapped
//! into the history ring.

use vstd::prelude::*;
use crate::colors::{ByteColor, FloatColor};
use crate::continuous::{SNFloat, SN_ONE, UN_ONE, unsigned_to_signed};
use crate::coords::{CoordinateSet, UpdateState};
use crate::engine::{GenContext, GrammarConfig, State};
use crate::grid::grid_cells;
use crate::history::{History, HistoryStep, spec_history_channel};
use std::sync::Arc;
use crate::image::Image;
use crate::nodes::color::{FloatColorNodes, spec_byte_of_float};
use crate::nodes::continuous::SNFloatNodes;
use crate::nodes::discrete::BooleanNodes;
use crate::nodes::point::SNPointNodes;
use crate::rng::{DeterministicRng, rng_output, rng_step};

verus! {

/// The largest value a statistic component may reach.
pub const STAT_BOUND: u64 = 0x100_0000_0000_0000;

/// The per-slice statistic: an activity measure, the alpha coverage,
/// and the similarity to one local and one global neighbour, each a sum
/// of per-pixel unit-range contributions.
#[derive(Clone, Copy, PartialEq, Eq, Structural, Debug)]
pub struct UpdateStat {
    pub activity_value: u64,
    pub alpha_value: u64,
    pub local_similarity_value: u64,
    pub global_similarity_value: u64,
}

impl UpdateStat {
    pub open spec fn wf(self) -> bool {
        &&& self.activity_value <= STAT_BOUND
        &&& self.alpha_value <= STAT_BOUND
        &&& self.local_similarity_value <= STAT_BOUND
        &&& self.global_similarity_value <= STAT_BOUND
    }

    /// The all-zero statistic.
    pub fn zero() -> (r: UpdateStat)
        ensures
            r.activity_value == 0,
            r.alpha_value == 0,
            r.local_similarity_value == 0,
            r.global_similarity_value == 0,
            r.wf(),
    {
        UpdateStat {
            activity_value: 0,
            alpha_value: 0,
            local_similarity_value: 0,
            global_similarity_value: 0,
        }
    }

    /// Component-wise sum: the associative, order-independent combine
    /// with which pixel statistics reduce.
    pub fn add(self, other: UpdateStat) -> (r: UpdateStat)
        requires
            self.activity_value + other.activity_value <= u64::MAX,
            self.alpha_value + other.alpha_value <= u64::MAX,
            self.local_similarity_value + other.local_similarity_value <= u64::MAX,
            self.global_similarity_value + other.global_similarity_value <= u64::MAX,
        ensures
            r.activity_value == self.activity_value + other.activity_value,
            r.alpha_value == self.alpha_value + other.alpha_value,
            r.local_similarity_value == self.local_similarity_value
                + other.local_similarity_value,
            r.global_similarity_value == self.global_similarity_value
                + other.global_similarity_value,
    {
        UpdateStat {
            activity_value: self.activity_value + other.activity_value,
            alpha_value: self.alpha_value + other.alpha_value,
            local_similarity_value: self.local_similarity_value + other.local_similarity_value,
            global_similarity_value: self.global_similarity_value + other.global_similarity_value,
        }
    }
}

/// The statistic combine is commutative: reducing pixels in any order
/// gives the same totals.
pub proof fn lemma_stat_add_commutes(a: UpdateStat, b: UpdateStat)
    ensures
        a.activity_value + b.activity_value == b.activity_value + a.activity_value,
        a.alpha_value + b.alpha_value == b.alpha_value + a.alpha_value,
        a.local_similarity_value + b.local_similarity_value == b.local_similarity_value
            + a.local_similarity_value,
        a.global_similarity_value + b.global_similarity_value == b.global_similarity_value
            + a.global_similarity_value,
{
}

/// The statistic combine is associative: slices may be reduced in any
/// grouping.
pub proof fn lemma_stat_add_associates(a: UpdateStat, b: UpdateStat, c: UpdateStat)
    ensures
        (a.activity_value + b.activity_value) + c.activity_value == a.activity_value + (
        b.activity_value + c.activity_value),
        (a.alpha_value + b.alpha_value) + c.alpha_value == a.alpha_value + (b.alpha_value
            + c.alpha_value),
        (a.local_similarity_value + b.local_similarity_value) + c.local_similarity_value
            == a.local_similarity_value + (b.local_similarity_value + c.local_similarity_value),
        (a.global_similarity_value + b.global_similarity_value) + c.global_similarity_value
            == a.global_similarity_value + (b.global_similarity_value
            + c.global_similarity_value),
{
}

/// The dimensions, clocking and mutation thresholds the driver is built
/// with.  Thresholds compare against statistics summed over one whole
/// frame of per-pixel unit-range contributions.
#[derive(Clone, Copy, PartialEq, Eq, Structural, Debug)]
pub struct DriverConfig {
    pub width: usize,
    pub height: usize,
    pub history_length: usize,
    pub tics_per_update: usize,
    pub activity_value_lower_bound: u64,
    pub alpha_value_lower_bound: u64,
    pub local_similarity_upper_bound: u64,
    pub global_similarity_upper_bound: u64,
}

impl DriverConfig {
    pub open spec fn wf(self) -> bool {
        &&& 0 < self.width <= 4096
        &&& 0 < self.height <= 4096
        &&& 0 < self.history_length <= 64
        &&& 0 < self.tics_per_update <= self.height
        &&& self.height % self.tics_per_update == 0
        &&& self.activity_value_lower_bound <= STAT_BOUND
        &&& self.alpha_value_lower_bound <= STAT_BOUND
        &&& self.local_similarity_upper_bound <= STAT_BOUND
        &&& self.global_similarity_upper_bound <= STAT_BOUND
    }
}

/// The signed-normalised coordinate a pixel index maps to, for a grid
/// `n` pixels across.
pub open spec fn spec_pixel_coord(p: int, n: int) -> int {
    unsigned_to_signed(p * (UN_ONE as int) / n)
}

/// The coordinate set the driver builds for a pixel at a tick.
pub open spec fn spec_pixel_state(cfg: DriverConfig, x: int, y: int, t: int) -> CoordinateSet {
    CoordinateSet {
        x: SNFloat { value: spec_pixel_coord(x, cfg.width as int) as i32 },
        y: SNFloat { value: spec_pixel_coord(y, cfg.height as int) as i32 },
        t: (t * SN_ONE) as i64,
    }
}

/// The byte the driver writes for channel `c` of a pixel at a tick.
pub open spec fn spec_pixel_byte(
    cfg: DriverConfig,
    root: FloatColorNodes,
    history: History,
    x: int,
    y: int,
    t: int,
    c: int,
) -> u8 {
    let color = spec_byte_of_float(root.spec_compute(spec_pixel_state(cfg, x, y, t), history));
    if c == 0 {
        color.r
    } else if c == 1 {
        color.g
    } else if c == 2 {
        color.b
    } else {
        color.a
    }
}

/// The colour at a wrapped position of a wrapped frame, as one value.
pub open spec fn spec_history_color(h: History, x: int, y: int, t: int) -> ByteColor {
    ByteColor {
        r: spec_history_channel(h, x, y, t, 0),
        g: spec_history_channel(h, x, y, t, 1),
        b: spec_history_channel(h, x, y, t, 2),
        a: spec_history_channel(h, x, y, t, 3),
    }
}

/// The mean channel luminance of a byte colour, in unit-range units.
pub open spec fn spec_byte_avg(c: ByteColor) -> int {
    (c.r * 512 + c.g * 512 + c.b * 512) / 3
}

/// The distance between two luminances.
pub open spec fn spec_abs_diff(a: int, b: int) -> int {
    if a >= b {
        a - b
    } else {
        b - a
    }
}

/// The statistic one pixel contributes at a tick, and the generator
/// state after its four draws (two for the local neighbour's offset,
/// two for the global neighbour's position).
pub open spec fn spec_pixel_stat(
    cfg: DriverConfig,
    h: History,
    t: int,
    x: int,
    y: int,
    s: u128,
) -> (UpdateStat, u128) {
    let s1 = rng_step(s);
    let s2 = rng_step(s1);
    let s3 = rng_step(s2);
    let s4 = rng_step(s3);
    let ox = rng_output(s1) % 3;
    let oy = rng_output(s2) % 3;
    let lx = if ox == 0 && x > 0 {
        x - 1
    } else if ox == 2 && x + 1 < cfg.width {
        x + 1
    } else {
        x
    };
    let ly = if oy == 0 && y > 0 {
        y - 1
    } else if oy == 2 && y + 1 < cfg.height {
        y + 1
    } else {
        y
    };
    let gx = rng_output(s3) % (cfg.width as u64);
    let gy = rng_output(s4) % (cfg.height as u64);
    let older_t = if t >= 1 {
        t - 1
    } else {
        0
    };
    let current = spec_byte_avg(spec_history_color(h, x, y, t));
    let older = spec_byte_avg(spec_history_color(h, x, y, older_t));
    let local = spec_byte_avg(spec_history_color(h, lx, ly, t));
    let global = spec_byte_avg(spec_history_color(h, gx as int, gy as int, t));
    (
        UpdateStat {
            activity_value: spec_abs_diff(older, current) as u64,
            alpha_value: (spec_history_color(h, x, y, t).a * 512) as u64,
            local_similarity_value: (131072 - spec_abs_diff(local, current)) as u64,
            global_similarity_value: (131072 - spec_abs_diff(global, current)) as u64,
        },
        s4,
    )
}

/// Component-wise sum of two statistics.
pub open spec fn spec_stat_add(a: UpdateStat, b: UpdateStat) -> UpdateStat {
    UpdateStat {
        activity_value: (a.activity_value + b.activity_value) as u64,
        alpha_value: (a.alpha_value + b.alpha_value) as u64,
        local_similarity_value: (a.local_similarity_value + b.local_similarity_value) as u64,
        global_similarity_value: (a.global_similarity_value + b.global_similarity_value) as u64,
    }
}

/// The all-zero statistic.
pub open spec fn spec_stat_zero() -> UpdateStat {
    UpdateStat {
        activity_value: 0,
        alpha_value: 0,
        local_similarity_value: 0,
        global_similarity_value: 0,
    }
}

/// The statistic folded over the first `p` pixels of the slice that
/// starts at `base_row`, and the generator state after their draws.
pub open spec fn spec_slice_stat(
    cfg: DriverConfig,
    h: History,
    t: int,
    base_row: int,
    s: u128,
    p: int,
) -> (UpdateStat, u128)
    decreases p,
{
    if p <= 0 {
        (spec_stat_zero(), s)
    } else {
        let prev = spec_slice_stat(cfg, h, t, base_row, s, p - 1);
        let x = (p - 1) % (cfg.width as int);
        let y = base_row + (p - 1) / (cfg.width as int);
        let ps = spec_pixel_stat(cfg, h, t, x, y, prev.1);
        (spec_stat_add(prev.0, ps.0), ps.1)
    }
}

/// The first row of the slice a tick writes.
pub open spec fn spec_slice_row(cfg: DriverConfig, tick: int) -> int {
    tick * (cfg.height as int / cfg.tics_per_update as int)
}

/// Exponential smoothing of the running average with a finished cycle's
/// total: the component-wise mean of the two.
pub open spec fn spec_smoothed(avg: UpdateStat, total: UpdateStat) -> UpdateStat {
    UpdateStat {
        activity_value: ((avg.activity_value + total.activity_value) / 2) as u64,
        alpha_value: ((avg.alpha_value + total.alpha_value) / 2) as u64,
        local_similarity_value: ((avg.local_similarity_value + total.local_similarity_value)
            / 2) as u64,
        global_similarity_value: ((avg.global_similarity_value + total.global_similarity_value)
            / 2) as u64,
    }
}

/// Whether a cycle boundary mutates the trees: the user's dirty flag, or
/// a smoothed statistic across its configured threshold.
pub open spec fn spec_trigger(cfg: DriverConfig, dirty: bool, avg: UpdateStat) -> bool {
    ||| dirty
    ||| avg.activity_value < cfg.activity_value_lower_bound
    ||| avg.alpha_value < cfg.alpha_value_lower_bound
    ||| avg.local_similarity_value > cfg.local_similarity_upper_bound
    ||| avg.global_similarity_value >= cfg.global_similarity_upper_bound
}

/// The evolving system: the history ring, the working frame, the root
/// trees, the statistics, the clock and the explicitly owned generator.
pub struct Driver {
    pub config: DriverConfig,
    pub history: History,
    pub next_history_step: HistoryStep,
    pub rolling_update_stat_total: UpdateStat,
    pub average_update_stat: UpdateStat,
    pub root_node: FloatColorNodes,
    pub root_angle_node: SNFloatNodes,
    pub root_translation_node: SNPointNodes,
    pub root_offset_node: SNPointNodes,
    pub root_from_scale_node: SNPointNodes,
    pub root_to_scale_node: SNPointNodes,
    pub apply_angle_node: BooleanNodes,
    pub apply_translation_node: BooleanNodes,
    pub apply_offset_node: BooleanNodes,
    pub apply_scale_node: BooleanNodes,
    pub tree_dirty: bool,
    pub current_t: usize,
    pub tick: usize,
    pub rng: DeterministicRng,
    pub ctx: GenContext,
}

/// The statistic of the slice the next tick folds and the generator
/// state it leaves, both functions of the pre-tick system alone.
pub open spec fn spec_tick_stat(d: Driver) -> (UpdateStat, u128) {
    spec_slice_stat(
        d.config,
        d.history,
        d.current_t as int,
        spec_slice_row(d.config, d.tick as int),
        d.rng.state,
        spec_slice_pixels(d.config),
    )
}

/// The root trees after one mutation pass from a generator state: the
/// colour root always mutates, the draw after it picks which one
/// secondary tree mutates with it, and the dirty flag clears.
pub open spec fn spec_mutation_pass(d: Driver, s: u128) -> (Driver, u128) {
    let cfg = d.ctx.cfg;
    let img = d.ctx.image;
    let m0 = FloatColorNodes::spec_mutate(d.root_node, s, 0, cfg, img);
    let s2 = rng_step(m0.1);
    let j = rng_output(s2) % 9;
    if j == 0 {
        let m = SNFloatNodes::spec_mutate(d.root_angle_node, s2, 0, cfg, img);
        (Driver { root_node: m0.0, root_angle_node: m.0, tree_dirty: false, ..d }, m.1)
    } else if j == 1 {
        let m = SNPointNodes::spec_mutate(d.root_translation_node, s2, 0, cfg, img);
        (Driver { root_node: m0.0, root_translation_node: m.0, tree_dirty: false, ..d }, m.1)
    } else if j == 2 {
        let m = SNPointNodes::spec_mutate(d.root_offset_node, s2, 0, cfg, img);
        (Driver { root_node: m0.0, root_offset_node: m.0, tree_dirty: false, ..d }, m.1)
    } else if j == 3 {
        let m = SNPointNodes::spec_mutate(d.root_from_scale_node, s2, 0, cfg, img);
        (Driver { root_node: m0.0, root_from_scale_node: m.0, tree_dirty: false, ..d }, m.1)
    } else if j == 4 {
        let m = SNPointNodes::spec_mutate(d.root_to_scale_node, s2, 0, cfg, img);
        (Driver { root_node: m0.0, root_to_scale_node: m.0, tree_dirty: false, ..d }, m.1)
    } else if j == 5 {
        let m = BooleanNodes::spec_mutate(d.apply_angle_node, s2, 0, cfg, img);
        (Driver { root_node: m0.0, apply_angle_node: m.0, tree_dirty: false, ..d }, m.1)
    } else if j == 6 {
        let m = BooleanNodes::spec_mutate(d.apply_translation_node, s2, 0, cfg, img);
        (Driver { root_node: m0.0, apply_translation_node: m.0, tree_dirty: false, ..d }, m.1)
    } else if j == 7 {
        let m = BooleanNodes::spec_mutate(d.apply_offset_node, s2, 0, cfg, img);
        (Driver { root_node: m0.0, apply_offset_node: m.0, tree_dirty: false, ..d }, m.1)
    } else {
        let m = BooleanNodes::spec_mutate(d.apply_scale_node, s2, 0, cfg, img);
        (Driver { root_node: m0.0, apply_scale_node: m.0, tree_dirty: false, ..d }, m.1)
    }
}

impl Driver {
    pub open spec fn wf(self) -> bool {
        &&& self.config.wf()
        &&& self.ctx.wf()
        &&& self.history.wf()
        &&& self.history.width == self.config.width
        &&& self.history.height == self.config.height
        &&& self.history.history_steps@.len() == self.config.history_length
        &&& self.next_history_step.wf(self.config.width as int, self.config.height as int)
        &&& self.tick < self.config.tics_per_update
        &&& self.current_t <= 0x4000_0000
        &&& self.rolling_update_stat_total.wf()
        &&& self.average_update_stat.wf()
        &&& self.rolling_update_stat_total.activity_value <= (self.tick as int) * 0x400_0000_0000
        &&& self.rolling_update_stat_total.alpha_value <= (self.tick as int) * 0x400_0000_0000
        &&& self.rolling_update_stat_total.local_similarity_value <= (self.tick as int)
            * 0x400_0000_0000
        &&& self.rolling_update_stat_total.global_similarity_value <= (self.tick as int)
            * 0x400_0000_0000
        &&& self.root_node.wf() && self.root_node.depth_ok(self.ctx.cfg, 0)
        &&& self.root_angle_node.wf() && self.root_angle_node.depth_ok(self.ctx.cfg, 0)
        &&& self.root_translation_node.wf() && self.root_translation_node.depth_ok(self.ctx.cfg, 0)
        &&& self.root_offset_node.wf() && self.root_offset_node.depth_ok(self.ctx.cfg, 0)
        &&& self.root_from_scale_node.wf() && self.root_from_scale_node.depth_ok(self.ctx.cfg, 0)
        &&& self.root_to_scale_node.wf() && self.root_to_scale_node.depth_ok(self.ctx.cfg, 0)
        &&& self.apply_angle_node.wf() && self.apply_angle_node.depth_ok(self.ctx.cfg, 0)
        &&& self.apply_translation_node.wf() && self.apply_translation_node.depth_ok(
            self.ctx.cfg,
            0,
        )
        &&& self.apply_offset_node.wf() && self.apply_offset_node.depth_ok(self.ctx.cfg, 0)
        &&& self.apply_scale_node.wf() && self.apply_scale_node.depth_ok(self.ctx.cfg, 0)
    }

    /// Build a driver: the history ring and working frame are allocated
    /// to the configured dimensions, every root tree is grown from the
    /// seeded generator, and the first mutation is forced.
    pub fn new(config: DriverConfig, cfg: GrammarConfig, image: Image, seed: u128) -> (r: Driver)
        requires
            config.wf(),
            cfg.wf(),
            image.wf(),
        ensures
            r.wf(),
            r.config == config,
            r.ctx.cfg == cfg,
            r.current_t == 0,
            r.tick == 0,
            r.tree_dirty,
            ({
                let g0 = FloatColorNodes::spec_generate(seed | 1, 0, cfg, r.ctx.image);
                let g1 = SNFloatNodes::spec_generate(g0.1, 0, cfg, r.ctx.image);
                let g2 = SNPointNodes::spec_generate(g1.1, 0, cfg, r.ctx.image);
                let g3 = SNPointNodes::spec_generate(g2.1, 0, cfg, r.ctx.image);
                let g4 = SNPointNodes::spec_generate(g3.1, 0, cfg, r.ctx.image);
                let g5 = SNPointNodes::spec_generate(g4.1, 0, cfg, r.ctx.image);
                let g6 = BooleanNodes::spec_generate(g5.1, 0, cfg, r.ctx.image);
                let g7 = BooleanNodes::spec_generate(g6.1, 0, cfg, r.ctx.image);
                let g8 = BooleanNodes::spec_generate(g7.1, 0, cfg, r.ctx.image);
                let g9 = BooleanNodes::spec_generate(g8.1, 0, cfg, r.ctx.image);
                &&& r.root_node == g0.0
                &&& r.root_angle_node == g1.0
                &&& r.root_translation_node == g2.0
                &&& r.root_offset_node == g3.0
                &&& r.root_from_scale_node == g4.0
                &&& r.root_to_scale_node == g5.0
                &&& r.apply_angle_node == g6.0
                &&& r.apply_translation_node == g7.0
                &&& r.apply_offset_node == g8.0
                &&& r.apply_scale_node == g9.0
                &&& r.rng.state == g9.1
            }),
    {
        proof {
            assert(config.height * config.width * 4 <= 0x1000_0000) by (nonlinear_arith)
                requires
                    0 < config.width <= 4096,
                    0 < config.height <= 4096,
            ;
        }
        let mut rng: DeterministicRng = DeterministicRng::from_seed(seed);
        let ctx: GenContext = GenContext { cfg, image: Arc::new(image) };
        let root: State = State::root();
        let history: History = History::new(config.width, config.height, config.history_length);
        let next: HistoryStep = HistoryStep::new(config.width, config.height);
        let root_node: FloatColorNodes = FloatColorNodes::generate_rng(&mut rng, root, &ctx);
        let root_angle_node: SNFloatNodes = SNFloatNodes::generate_rng(&mut rng, root, &ctx);
        let root_translation_node: SNPointNodes = SNPointNodes::generate_rng(&mut rng, root, &ctx);
        let root_offset_node: SNPointNodes = SNPointNodes::generate_rng(&mut rng, root, &ctx);
        let root_from_scale_node: SNPointNodes = SNPointNodes::generate_rng(&mut rng, root, &ctx);
        let root_to_scale_node: SNPointNodes = SNPointNodes::generate_rng(&mut rng, root, &ctx);
        let apply_angle_node: BooleanNodes = BooleanNodes::generate_rng(&mut rng, root, &ctx);
        let apply_translation_node: BooleanNodes = BooleanNodes::generate_rng(&mut rng, root, &ctx);
        let apply_offset_node: BooleanNodes = BooleanNodes::generate_rng(&mut rng, root, &ctx);
        let apply_scale_node: BooleanNodes = BooleanNodes::generate_rng(&mut rng, root, &ctx);
        Driver {
            config,
            history,
            next_history_step: next,
            rolling_update_stat_total: UpdateStat::zero(),
            average_update_stat: UpdateStat::zero(),
            root_node,
            root_angle_node,
            root_translation_node,
            root_offset_node,
            root_from_scale_node,
            root_to_scale_node,
            apply_angle_node,
            apply_translation_node,
            apply_offset_node,
            apply_scale_node,
            tree_dirty: true,
            current_t: 0,
            tick: 0,
            rng,
            ctx,
        }
    }

    /// The coordinate set for a pixel at the current tick.
    fn pixel_state(&self, x: usize, y: usize) -> (r: CoordinateSet)
        requires
            self.wf(),
            x < self.config.width,
            y < self.config.height,
        ensures
            r == spec_pixel_state(
                self.config,
                x as int,
                y as int,
                self.current_t as int,
            ),
            r.wf(),
    {
        proof {
            crate::continuous::lemma_scale_div_bound(
                x as int,
                self.config.width as int,
                UN_ONE as int,
            );
            crate::continuous::lemma_scale_div_bound(
                y as int,
                self.config.height as int,
                UN_ONE as int,
            );
            vstd::arithmetic::mul::lemma_mul_is_commutative(x as int, UN_ONE as int);
            vstd::arithmetic::mul::lemma_mul_is_commutative(y as int, UN_ONE as int);
        }
        let ux: i64 = (x as i64 * UN_ONE as i64) / (self.config.width as i64);
        let uy: i64 = (y as i64 * UN_ONE as i64) / (self.config.height as i64);
        CoordinateSet {
            x: SNFloat::new(ux as i32 - SN_ONE),
            y: SNFloat::new(uy as i32 - SN_ONE),
            t: self.current_t as i64 * SN_ONE as i64,
        }
    }

    /// One per-pixel statistic: the luminance change against one
    /// history step back, the alpha coverage, and the similarity to one
    /// random local and one random global neighbour, each in unit-range
    /// units.
    fn pixel_stat(&mut self, x: usize, y: usize) -> (r: UpdateStat)
        requires
            old(self).wf(),
            x < old(self).config.width,
            y < old(self).config.height,
        ensures
            final(self).wf(),
            *final(self) == (Driver { rng: final(self).rng, ..*old(self) }),
            r == spec_pixel_stat(
                old(self).config,
                old(self).history,
                old(self).current_t as int,
                x as int,
                y as int,
                old(self).rng.state,
            ).0,
            final(self).rng.state == spec_pixel_stat(
                old(self).config,
                old(self).history,
                old(self).current_t as int,
                x as int,
                y as int,
                old(self).rng.state,
            ).1,
            r.activity_value <= 0x40000,
            r.alpha_value <= 0x40000,
            r.local_similarity_value <= 0x40000,
            r.global_similarity_value <= 0x40000,
    {
        let t: usize = self.current_t;
        let older_t: usize = if t >= 1 {
            t - 1
        } else {
            0
        };
        let current: ByteColor = self.history.get(x, y, t);
        let older: ByteColor = self.history.get(x, y, older_t);
        let ox: u64 = self.rng.below(3);
        let oy: u64 = self.rng.below(3);
        let lx: usize = if ox == 0 && x > 0 {
            x - 1
        } else if ox == 2 && x + 1 < self.config.width {
            x + 1
        } else {
            x
        };
        let ly: usize = if oy == 0 && y > 0 {
            y - 1
        } else if oy == 2 && y + 1 < self.config.height {
            y + 1
        } else {
            y
        };
        let local: ByteColor = self.history.get(lx, ly, t);
        let gx: u64 = self.rng.below(self.config.width as u64);
        let gy: u64 = self.rng.below(self.config.height as u64);
        let global: ByteColor = self.history.get(gx as usize, gy as usize, t);
        let avg_current: i64 = byte_average(current);
        let avg_older: i64 = byte_average(older);
        let avg_local: i64 = byte_average(local);
        let avg_global: i64 = byte_average(global);
        let activity: u64 = (if avg_older >= avg_current {
            avg_older - avg_current
        } else {
            avg_current - avg_older
        }) as u64;
        let local_diff: u64 = (if avg_local >= avg_current {
            avg_local - avg_current
        } else {
            avg_current - avg_local
        }) as u64;
        let global_diff: u64 = (if avg_global >= avg_current {
            avg_global - avg_current
        } else {
            avg_current - avg_global
        }) as u64;
        UpdateStat {
            activity_value: activity,
            alpha_value: current.a as u64 * 512,
            local_similarity_value: UN_ONE as u64 - local_diff,
            global_similarity_value: UN_ONE as u64 - global_diff,
        }
    }
}

/// The flat cell index of the first pixel of the slice a tick writes.
pub open spec fn spec_slice_base(cfg: DriverConfig, tick: int) -> int {
    tick * (cfg.height as int / cfg.tics_per_update as int) * cfg.width
}

/// How many pixels one slice holds.
pub open spec fn spec_slice_pixels(cfg: DriverConfig) -> int {
    (cfg.height as int / cfg.tics_per_update as int) * cfg.width
}

/// How one tick's slice rewrites the working frame: inside the slice
/// every channel holds the interpreted colour of its pixel, outside it
/// every byte is untouched.
pub open spec fn spec_slice_written(
    cfg: DriverConfig,
    root: FloatColorNodes,
    history: History,
    t: int,
    tick: int,
    before: Seq<u8>,
    after: Seq<u8>,
) -> bool {
    let base = spec_slice_base(cfg, tick);
    let count = spec_slice_pixels(cfg);
    &&& after.len() == before.len()
    &&& forall|i: int|
        0 <= i < after.len() ==> after[i] == if base * 4 <= i < (base + count) * 4 {
            spec_pixel_byte(
                cfg,
                root,
                history,
                (i / 4) % (cfg.width as int),
                (i / 4) / (cfg.width as int),
                t,
                i % 4,
            )
        } else {
            before[i]
        }
}

impl Driver {
    /// Evaluate the root tree over this tick's row slice of the
    /// working frame, writing each pixel's colour and folding the slice
    /// statistic; nothing else of the system changes but the generator.
    #[verifier::rlimit(100)]
    fn run_slice(&mut self) -> (slice_stat: UpdateStat)
        requires
            old(self).wf(),
            old(self).current_t < 0x4000_0000,
        ensures
            final(self).wf(),
            *final(self) == (Driver {
                rng: final(self).rng,
                next_history_step: final(self).next_history_step,
                ..*old(self)
            }),
            final(self).next_history_step == (HistoryStep {
                cell_array: final(self).next_history_step.cell_array,
                ..old(self).next_history_step
            }),
            spec_slice_written(
                old(self).config,
                old(self).root_node,
                old(self).history,
                old(self).current_t as int,
                old(self).tick as int,
                grid_cells(old(self).next_history_step.cell_array),
                grid_cells(final(self).next_history_step.cell_array),
            ),
            slice_stat == spec_slice_stat(
                old(self).config,
                old(self).history,
                old(self).current_t as int,
                spec_slice_row(old(self).config, old(self).tick as int),
                old(self).rng.state,
                spec_slice_pixels(old(self).config),
            ).0,
            final(self).rng.state == spec_slice_stat(
                old(self).config,
                old(self).history,
                old(self).current_t as int,
                spec_slice_row(old(self).config, old(self).tick as int),
                old(self).rng.state,
                spec_slice_pixels(old(self).config),
            ).1,
            slice_stat.activity_value <= 0x400_0000_0000,
            slice_stat.alpha_value <= 0x400_0000_0000,
            slice_stat.local_similarity_value <= 0x400_0000_0000,
            slice_stat.global_similarity_value <= 0x400_0000_0000,
    {
        let w: usize = self.config.width;
        let h: usize = self.config.height;
        let tics: usize = self.config.tics_per_update;
        let sh: usize = h / tics;
        let tk: usize = self.tick;
        proof {
            vstd::arithmetic::div_mod::lemma_fundamental_div_mod(h as int, tics as int);
        }
        assert(tics * sh == h);
        assert(tk * sh + sh <= tics * sh) by (nonlinear_arith)
            requires
                tk < tics,
                sh >= 0,
        ;
        assert((tk * sh) * w + sh * w == (tk * sh + sh) * w && (tk * sh + sh) * w <= (tics * sh)
            * w && h * w <= 4096 * 4096) by (nonlinear_arith)
            requires
                tk * sh + sh <= tics * sh,
                w >= 1,
                h <= 4096,
                w <= 4096,
                tics * sh == h,
        ;
        assert(spec_slice_base(self.config, self.tick as int) == (tk * sh) * w);
        assert(spec_slice_pixels(self.config) == sh * w);
        let base_row: usize = tk * sh;
        let base: usize = base_row * w;
        let count: usize = sh * w;
        assert(base_row <= h && base + count <= h * w) by (nonlinear_arith)
            requires
                base_row == tk * sh,
                base == base_row * w,
                count == sh * w,
                tk * sh + sh <= tics * sh,
                tics * sh == h,
                w >= 1,
                sh >= 0,
                tk >= 0,
        ;
        let ghost old_cells: Seq<u8> = grid_cells(self.next_history_step.cell_array);
        let mut p: usize = 0;
        let mut slice_stat: UpdateStat = UpdateStat::zero();
        while p < count
            invariant
                self.wf(),
                self.config == old(self).config,
                self.history == old(self).history,
                self.root_node == old(self).root_node,
                self.root_angle_node == old(self).root_angle_node,
                self.root_translation_node == old(self).root_translation_node,
                self.root_offset_node == old(self).root_offset_node,
                self.root_from_scale_node == old(self).root_from_scale_node,
                self.root_to_scale_node == old(self).root_to_scale_node,
                self.apply_angle_node == old(self).apply_angle_node,
                self.apply_translation_node == old(self).apply_translation_node,
                self.apply_offset_node == old(self).apply_offset_node,
                self.apply_scale_node == old(self).apply_scale_node,
                self.ctx == old(self).ctx,
                self.current_t == old(self).current_t,
                self.tick == old(self).tick,
                self.tree_dirty == old(self).tree_dirty,
                self.rolling_update_stat_total == old(self).rolling_update_stat_total,
                self.average_update_stat == old(self).average_update_stat,
                self.next_history_step.rotation == old(self).next_history_step.rotation,
                self.next_history_step.translation == old(self).next_history_step.translation,
                self.next_history_step.offset == old(self).next_history_step.offset,
                self.next_history_step.from_scale == old(self).next_history_step.from_scale,
                self.next_history_step.to_scale == old(self).next_history_step.to_scale,
                self.next_history_step.apply_rotation == old(self).next_history_step.apply_rotation,
                self.next_history_step.apply_translation == old(self).next_history_step.apply_translation,
                self.next_history_step.apply_offset == old(self).next_history_step.apply_offset,
                self.next_history_step.apply_scale == old(self).next_history_step.apply_scale,
                w == self.config.width,
                h == self.config.height,
                tics == self.config.tics_per_update,
                sh == h as int / tics as int,
                tics * sh == h,
                tk == self.tick,
                base_row == tk * sh,
                base == base_row * w,
                count == sh * w,
                base + count <= h * w,
                base_row <= h,
                h * w <= 4096 * 4096,
                count <= 4096 * 4096,
                base == spec_slice_base(self.config, self.tick as int),
                count == spec_slice_pixels(self.config),
                old(self).current_t < 0x4000_0000,
                p <= count,
                old_cells.len() == h * w * 4,
                grid_cells(self.next_history_step.cell_array).len() == old_cells.len(),
                forall|i: int|
                    0 <= i < old_cells.len() ==> grid_cells(self.next_history_step.cell_array)[i]
                        == if base * 4 <= i < (base + p) * 4 {
                        spec_pixel_byte(
                            self.config,
                            self.root_node,
                            self.history,
                            (i / 4) % (w as int),
                            (i / 4) / (w as int),
                            self.current_t as int,
                            i % 4,
                        )
                    } else {
                        old_cells[i]
                    },
                slice_stat == spec_slice_stat(
                    self.config,
                    self.history,
                    self.current_t as int,
                    base_row as int,
                    old(self).rng.state,
                    p as int,
                ).0,
                self.rng.state == spec_slice_stat(
                    self.config,
                    self.history,
                    self.current_t as int,
                    base_row as int,
                    old(self).rng.state,
                    p as int,
                ).1,
                slice_stat.activity_value <= p * 0x40000,
                slice_stat.alpha_value <= p * 0x40000,
                slice_stat.local_similarity_value <= p * 0x40000,
                slice_stat.global_similarity_value <= p * 0x40000,
            decreases count - p,
        {
            proof {
                vstd::arithmetic::div_mod::lemma_fundamental_div_mod(p as int, w as int);
                vstd::arithmetic::div_mod::lemma_mod_division_less_than_divisor(p as int, w as int);
                vstd::arithmetic::mul::lemma_mul_is_commutative(w as int, p as int / w as int);
                vstd::arithmetic::mul::lemma_mul_is_commutative(sh as int, w as int);
                vstd::arithmetic::div_mod::lemma_multiply_divide_lt(p as int, w as int, sh as int);
            }
            let y: usize = base_row + p / w;
            let x: usize = p % w;
            assert((base_row + p as int / w as int) * w == base_row * w + (p as int / w as int)
                * w) by (nonlinear_arith);
            assert(y * w + x == base + p);
            assert(y < h) by (nonlinear_arith)
                requires
                    tics * sh == h,
                    y == base_row + (p as int) / (w as int),
                    base_row == tk * sh,
                    (p as int) / (w as int) < sh,
                    tk < tics,
                    sh >= 0,
            ;
            assert((y * w + x) * 4 + 3 < h * w * 4);
            assert((base + p as int) * 4 + 4 <= (base + count) * 4);
            let coord: CoordinateSet = self.pixel_state(x, y);
            let color: FloatColor = self.root_node.compute(
                UpdateState { coordinate_set: coord, history: &self.history },
            );
            let byte: ByteColor = ByteColor::from_float_color(color);
            proof {
                assert(((base + p as int) * 4 + 0) / 4 == base + p as int && ((base + p as int) * 4
                    + 0) % 4 == 0);
                assert(((base + p as int) * 4 + 1) / 4 == base + p as int && ((base + p as int) * 4
                    + 1) % 4 == 1);
                assert(((base + p as int) * 4 + 2) / 4 == base + p as int && ((base + p as int) * 4
                    + 2) % 4 == 2);
                assert(((base + p as int) * 4 + 3) / 4 == base + p as int && ((base + p as int) * 4
                    + 3) % 4 == 3);
                assert((base + p as int) % (w as int) == x && (base + p as int) / (w as int)
                    == y) by {
                    vstd::arithmetic::div_mod::lemma_fundamental_div_mod_converse_mod(
                        base + p as int,
                        w as int,
                        y as int,
                        x as int,
                    );
                    vstd::arithmetic::div_mod::lemma_fundamental_div_mod_converse_div(
                        base + p as int,
                        w as int,
                        y as int,
                        x as int,
                    );
                    vstd::arithmetic::mul::lemma_mul_is_commutative(w as int, y as int);
                };
            }
            self.next_history_step.cell_array.set(y, x, 0, byte.r);
            self.next_history_step.cell_array.set(y, x, 1, byte.g);
            self.next_history_step.cell_array.set(y, x, 2, byte.b);
            self.next_history_step.cell_array.set(y, x, 3, byte.a);
            let ps: UpdateStat = self.pixel_stat(x, y);
            slice_stat = slice_stat.add(ps);
            p = p + 1;
        }
        proof {
            assert(count * 0x40000 <= 0x400_0000_0000) by (nonlinear_arith)
                requires
                    count <= 4096 * 4096,
            ;
            assert(base_row as int == spec_slice_row(self.config, self.tick as int));
            assert(count == spec_slice_pixels(self.config));
        }
        slice_stat
    }

    /// Advance the system by one tick: evaluate the root tree over this
    /// tick's row slice of the working frame, fold the slice statistic,
    /// and at the end of a full cycle smooth the statistics, possibly
    /// mutate the trees, compute the transform metadata and swap the
    /// finished frame into the history ring at the current slot.
    #[verifier::rlimit(100)]
    pub fn update(&mut self)
        requires
            old(self).wf(),
            old(self).current_t < 0x4000_0000,
        ensures
            final(self).wf(),
            final(self).config == old(self).config,
            final(self).ctx == old(self).ctx,
            old(self).tick + 1 < old(self).config.tics_per_update ==> {
                &&& final(self).tick == old(self).tick + 1
                &&& final(self).current_t == old(self).current_t
                &&& final(self).history == old(self).history
                &&& final(self).root_node == old(self).root_node
                &&& final(self).root_angle_node == old(self).root_angle_node
                &&& final(self).root_translation_node == old(self).root_translation_node
                &&& final(self).root_offset_node == old(self).root_offset_node
                &&& final(self).root_from_scale_node == old(self).root_from_scale_node
                &&& final(self).root_to_scale_node == old(self).root_to_scale_node
                &&& final(self).apply_angle_node == old(self).apply_angle_node
                &&& final(self).apply_translation_node == old(self).apply_translation_node
                &&& final(self).apply_offset_node == old(self).apply_offset_node
                &&& final(self).apply_scale_node == old(self).apply_scale_node
                &&& final(self).average_update_stat == old(self).average_update_stat
                &&& final(self).tree_dirty == old(self).tree_dirty
                &&& final(self).rolling_update_stat_total == spec_stat_add(
                    old(self).rolling_update_stat_total,
                    spec_tick_stat(*old(self)).0,
                )
                &&& final(self).rng.state == spec_tick_stat(*old(self)).1
                &&& final(self).next_history_step == (HistoryStep {
                    cell_array: final(self).next_history_step.cell_array,
                    ..old(self).next_history_step
                })
                &&& spec_slice_written(
                    old(self).config,
                    old(self).root_node,
                    old(self).history,
                    old(self).current_t as int,
                    old(self).tick as int,
                    grid_cells(old(self).next_history_step.cell_array),
                    grid_cells(final(self).next_history_step.cell_array),
                )
            },
            old(self).tick + 1 == old(self).config.tics_per_update ==> {
                let slot = (old(self).current_t as int) % (
                old(self).config.history_length as int);
                let total = spec_stat_add(
                    old(self).rolling_update_stat_total,
                    spec_tick_stat(*old(self)).0,
                );
                let avg = spec_smoothed(old(self).average_update_stat, total);
                let trig = spec_trigger(old(self).config, old(self).tree_dirty, avg);
                let zs = spec_pixel_state(old(self).config, 0, 0, old(self).current_t as int);
                &&& final(self).tick == 0
                &&& final(self).current_t == old(self).current_t + 1
                &&& final(self).rolling_update_stat_total == spec_stat_zero()
                &&& final(self).average_update_stat == avg
                &&& final(self).tree_dirty == false
                &&& (!trig ==> {
                    &&& final(self).root_node == old(self).root_node
                    &&& final(self).root_angle_node == old(self).root_angle_node
                    &&& final(self).root_translation_node == old(self).root_translation_node
                    &&& final(self).root_offset_node == old(self).root_offset_node
                    &&& final(self).root_from_scale_node == old(self).root_from_scale_node
                    &&& final(self).root_to_scale_node == old(self).root_to_scale_node
                    &&& final(self).apply_angle_node == old(self).apply_angle_node
                    &&& final(self).apply_translation_node == old(self).apply_translation_node
                    &&& final(self).apply_offset_node == old(self).apply_offset_node
                    &&& final(self).apply_scale_node == old(self).apply_scale_node
                    &&& final(self).rng.state == spec_tick_stat(*old(self)).1
                })
                &&& (trig ==> {
                    let mp = spec_mutation_pass(*old(self), spec_tick_stat(*old(self)).1);
                    &&& final(self).root_node == mp.0.root_node
                    &&& final(self).root_angle_node == mp.0.root_angle_node
                    &&& final(self).root_translation_node == mp.0.root_translation_node
                    &&& final(self).root_offset_node == mp.0.root_offset_node
                    &&& final(self).root_from_scale_node == mp.0.root_from_scale_node
                    &&& final(self).root_to_scale_node == mp.0.root_to_scale_node
                    &&& final(self).apply_angle_node == mp.0.apply_angle_node
                    &&& final(self).apply_translation_node == mp.0.apply_translation_node
                    &&& final(self).apply_offset_node == mp.0.apply_offset_node
                    &&& final(self).apply_scale_node == mp.0.apply_scale_node
                    &&& final(self).rng.state == mp.1
                })
                &&& spec_slice_written(
                    old(self).config,
                    old(self).root_node,
                    old(self).history,
                    old(self).current_t as int,
                    old(self).tick as int,
                    grid_cells(old(self).next_history_step.cell_array),
                    grid_cells(final(self).history.history_steps@[slot].cell_array),
                )
                &&& forall|i: int|
                    0 <= i < old(self).config.history_length && i != slot ==> final(self).history.history_steps@[i] == old(self).history.history_steps@[i]
                &&& final(self).next_history_step == old(self).history.history_steps@[slot]
                &&& final(self).history.history_steps@[slot].rotation == final(self).root_angle_node.spec_compute(zs, old(self).history)
                &&& final(self).history.history_steps@[slot].translation == final(self).root_translation_node.spec_compute(zs, old(self).history)
                &&& final(self).history.history_steps@[slot].offset == final(self).root_offset_node.spec_compute(zs, old(self).history)
                &&& final(self).history.history_steps@[slot].from_scale == final(self).root_from_scale_node.spec_compute(zs, old(self).history)
                &&& final(self).history.history_steps@[slot].to_scale == final(self).root_to_scale_node.spec_compute(zs, old(self).history)
                &&& final(self).history.history_steps@[slot].apply_rotation == final(self).apply_angle_node.spec_compute(zs, old(self).history).value
                &&& final(self).history.history_steps@[slot].apply_translation == final(self).apply_translation_node.spec_compute(zs, old(self).history).value
                &&& final(self).history.history_steps@[slot].apply_offset == final(self).apply_offset_node.spec_compute(zs, old(self).history).value
                &&& final(self).history.history_steps@[slot].apply_scale == final(self).apply_scale_node.spec_compute(zs, old(self).history).value
            },
    {
        let tics: usize = self.config.tics_per_update;
        let slice_stat: UpdateStat = self.run_slice();
        self.rolling_update_stat_total = self.rolling_update_stat_total.add(slice_stat);
        if self.tick + 1 == tics {
            let avg: UpdateStat = UpdateStat {
                activity_value: (self.average_update_stat.activity_value
                    + self.rolling_update_stat_total.activity_value) / 2,
                alpha_value: (self.average_update_stat.alpha_value
                    + self.rolling_update_stat_total.alpha_value) / 2,
                local_similarity_value: (self.average_update_stat.local_similarity_value
                    + self.rolling_update_stat_total.local_similarity_value) / 2,
                global_similarity_value: (self.average_update_stat.global_similarity_value
                    + self.rolling_update_stat_total.global_similarity_value) / 2,
            };
            self.average_update_stat = avg;
            self.rolling_update_stat_total = UpdateStat::zero();
            let mutate_now: bool = self.tree_dirty || avg.activity_value
                < self.config.activity_value_lower_bound || avg.alpha_value
                < self.config.alpha_value_lower_bound || avg.local_similarity_value
                > self.config.local_similarity_upper_bound || avg.global_similarity_value
                >= self.config.global_similarity_upper_bound;
            if mutate_now {
                let root: State = State::root();
                let mut taken_root: FloatColorNodes = FloatColorNodes::Gray;
                core::mem::swap(&mut self.root_node, &mut taken_root);
                let mutated: FloatColorNodes = taken_root.mutate_rng(
                    &mut self.rng,
                    root,
                    &self.ctx,
                );
                self.root_node = mutated;
                let j: u64 = self.rng.below(9);
                if j == 0 {
                    let mut taken: SNFloatNodes = SNFloatNodes::XRatio;
                    core::mem::swap(&mut self.root_angle_node, &mut taken);
                    let m: SNFloatNodes = taken.mutate_rng(&mut self.rng, root, &self.ctx);
                    self.root_angle_node = m;
                } else if j == 1 {
                    let mut taken: SNPointNodes = SNPointNodes::Zero;
                    core::mem::swap(&mut self.root_translation_node, &mut taken);
                    let m: SNPointNodes = taken.mutate_rng(&mut self.rng, root, &self.ctx);
                    self.root_translation_node = m;
                } else if j == 2 {
                    let mut taken: SNPointNodes = SNPointNodes::Zero;
                    core::mem::swap(&mut self.root_offset_node, &mut taken);
                    let m: SNPointNodes = taken.mutate_rng(&mut self.rng, root, &self.ctx);
                    self.root_offset_node = m;
                } else if j == 3 {
                    let mut taken: SNPointNodes = SNPointNodes::Zero;
                    core::mem::swap(&mut self.root_from_scale_node, &mut taken);
                    let m: SNPointNodes = taken.mutate_rng(&mut self.rng, root, &self.ctx);
                    self.root_from_scale_node = m;
                } else if j == 4 {
                    let mut taken: SNPointNodes = SNPointNodes::Zero;
                    core::mem::swap(&mut self.root_to_scale_node, &mut taken);
                    let m: SNPointNodes = taken.mutate_rng(&mut self.rng, root, &self.ctx);
                    self.root_to_scale_node = m;
                } else if j == 5 {
                    let mut taken: BooleanNodes = BooleanNodes::Constant {
                        child: crate::discrete::Boolean { value: false },
                    };
                    core::mem::swap(&mut self.apply_angle_node, &mut taken);
                    let m: BooleanNodes = taken.mutate_rng(&mut self.rng, root, &self.ctx);
                    self.apply_angle_node = m;
                } else if j == 6 {
                    let mut taken: BooleanNodes = BooleanNodes::Constant {
                        child: crate::discrete::Boolean { value: false },
                    };
                    core::mem::swap(&mut self.apply_translation_node, &mut taken);
                    let m: BooleanNodes = taken.mutate_rng(&mut self.rng, root, &self.ctx);
                    self.apply_translation_node = m;
                } else if j == 7 {
                    let mut taken: BooleanNodes = BooleanNodes::Constant {
                        child: crate::discrete::Boolean { value: false },
                    };
                    core::mem::swap(&mut self.apply_offset_node, &mut taken);
                    let m: BooleanNodes = taken.mutate_rng(&mut self.rng, root, &self.ctx);
                    self.apply_offset_node = m;
                } else {
                    let mut taken: BooleanNodes = BooleanNodes::Constant {
                        child: crate::discrete::Boolean { value: false },
                    };
                    core::mem::swap(&mut self.apply_scale_node, &mut taken);
                    let m: BooleanNodes = taken.mutate_rng(&mut self.rng, root, &self.ctx);
                    self.apply_scale_node = m;
                }
                self.tree_dirty = false;
            }
            let zero_state: CoordinateSet = self.pixel_state(0, 0);
            self.next_history_step.rotation = self.root_angle_node.compute(
                UpdateState { coordinate_set: zero_state, history: &self.history },
            );
            self.next_history_step.translation = self.root_translation_node.compute(
                UpdateState { coordinate_set: zero_state, history: &self.history },
            );
            self.next_history_step.offset = self.root_offset_node.compute(
                UpdateState { coordinate_set: zero_state, history: &self.history },
            );
            self.next_history_step.from_scale = self.root_from_scale_node.compute(
                UpdateState { coordinate_set: zero_state, history: &self.history },
            );
            self.next_history_step.to_scale = self.root_to_scale_node.compute(
                UpdateState { coordinate_set: zero_state, history: &self.history },
            );
            self.next_history_step.apply_rotation = self.apply_angle_node.compute(
                UpdateState { coordinate_set: zero_state, history: &self.history },
            ).into_inner();
            self.next_history_step.apply_translation = self.apply_translation_node.compute(
                UpdateState { coordinate_set: zero_state, history: &self.history },
            ).into_inner();
            self.next_history_step.apply_offset = self.apply_offset_node.compute(
                UpdateState { coordinate_set: zero_state, history: &self.history },
            ).into_inner();
            self.next_history_step.apply_scale = self.apply_scale_node.compute(
                UpdateState { coordinate_set: zero_state, history: &self.history },
            ).into_inner();
            let len: usize = self.history.history_steps.len();
            let slot: usize = self.current_t % len;
            proof {
                vstd::arithmetic::div_mod::lemma_mod_division_less_than_divisor(
                    self.current_t as int,
                    len as int,
                );
            }
            core::mem::swap(&mut self.history.history_steps[slot], &mut self.next_history_step);
            self.current_t = self.current_t + 1;
            self.tick = 0;
        } else {
            self.tick = self.tick + 1;
        }
    }
}

/// The pixel pipeline is deterministic: two systems that agree on the
/// configuration, the root tree, the history ring and the clock write
/// byte-identical slices.  Together with the exactly specified
/// generator step, a seeded system evolves reproducibly.
pub proof fn lemma_slice_determinism(a: Driver, b: Driver)
    requires
        a.config == b.config,
        a.root_node == b.root_node,
        a.history == b.history,
        a.current_t == b.current_t,
        a.tick == b.tick,
    ensures
        forall|x: int, y: int, c: int|
            spec_pixel_byte(a.config, a.root_node, a.history, x, y, a.current_t as int, c)
                == spec_pixel_byte(b.config, b.root_node, b.history, x, y, b.current_t as int, c),
{
}

/// The mean channel luminance of a byte colour, in unit-range units.
fn byte_average(c: ByteColor) -> (r: i64)
    ensures
        0 <= r <= UN_ONE,
        r == (c.r * 512 + c.g * 512 + c.b * 512) / 3,
{
    (c.r as i64 * 512 + c.g as i64 * 512 + c.b as i64 * 512) / 3
}

} // verus!
