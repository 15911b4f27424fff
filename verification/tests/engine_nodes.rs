use cellular3::colors::ByteColor;
use cellular3::continuous::{SNFloat, UNFloat, UN_ONE};
use cellular3::coords::{CoordinateSet, UpdateState};
use cellular3::discrete::Byte;
use cellular3::engine::{class_weights, pick_weighted, GenContext, GrammarConfig, State};
use cellular3::grid::CellGrid;
use cellular3::history::History;
use cellular3::image::Image;
use cellular3::colors::BitColor;
use cellular3::nodes::color::{BitColorNodes, ByteColorNodes};
use cellular3::nodes::continuous::{SNFloatNodes, UNFloatNodes};
use cellular3::nodes::discrete::ByteNodes;
use cellular3::nodes::point::SNPointNodes;
use cellular3::rng::DeterministicRng;

fn tiny_image() -> Image {
    let grid = CellGrid::new(1, 1);
    Image::new(String::from("flat"), vec![grid], 1, 1)
}

fn standard_ctx() -> GenContext {
    GenContext { cfg: GrammarConfig::standard(), image: std::sync::Arc::new(tiny_image()) }
}

#[test]
fn rng_streams_are_deterministic() {
    let mut a = DeterministicRng::from_seed(42);
    let mut b = DeterministicRng::from_seed(42);
    for _ in 0..1000 {
        assert_eq!(a.next_u64(), b.next_u64());
    }
    let mut c = DeterministicRng::from_seed(43);
    let mut any_diff = false;
    for _ in 0..16 {
        if a.next_u64() != c.next_u64() {
            any_diff = true;
        }
    }
    assert!(any_diff);
}

#[test]
fn weighted_pick_matches_weights() {
    // weights 10 / 30 / 60 out of 100: the empirical frequency over
    // 100000 draws must sit near the configured share.
    let weights = class_weights(10, 30, 60, 0);
    let mut rng = DeterministicRng::from_seed(7);
    let mut counts = [0u32; 4];
    for _ in 0..100_000 {
        let roll = rng.below(100);
        let idx = pick_weighted(&weights, roll);
        counts[idx] += 1;
    }
    assert_eq!(counts[3], 0);
    assert!((counts[0] as i64 - 10_000).abs() < 1_000);
    assert!((counts[1] as i64 - 30_000).abs() < 2_000);
    assert!((counts[2] as i64 - 60_000).abs() < 2_000);
}

#[test]
fn zero_weight_entry_never_picked() {
    let weights = class_weights(5, 0, 5, 0);
    let mut rng = DeterministicRng::from_seed(11);
    for _ in 0..10_000 {
        let roll = rng.below(10);
        let idx = pick_weighted(&weights, roll);
        assert!(idx == 0 || idx == 2);
    }
}

/// The deepest level at which any node of the tree sits, and whether a
/// branch-shaped node appears past the configured branch ceiling.
fn check_point_tree(node: &SNPointNodes, depth: usize, cfg: &GrammarConfig) {
    match node {
        SNPointNodes::Zero | SNPointNodes::Constant { .. } => {
            assert!(depth >= cfg.min_leaf_depth && depth <= cfg.max_leaf_depth);
        }
        SNPointNodes::Invert { child } => {
            assert!(depth >= cfg.min_pipe_depth && depth <= cfg.max_pipe_depth);
            check_point_tree(child, depth + 1, cfg);
        }
        SNPointNodes::FromSNFloats { .. } => {
            assert!(depth >= cfg.min_branch_depth && depth <= cfg.max_branch_depth);
        }
    }
}

#[test]
fn generated_trees_respect_depth_bounds() {
    let ctx = standard_ctx();
    let mut rng = DeterministicRng::from_seed(5);
    for i in 0..200 {
        let state = State { depth: (i % 8) as usize };
        let tree = SNPointNodes::generate_rng(&mut rng, state, &ctx);
        check_point_tree(&tree, state.depth, &ctx.cfg);
    }
}

fn two_constant_tree() -> SNPointNodes {
    SNPointNodes::FromSNFloats {
        child_a: Box::new(SNFloatNodes::Constant { value: SNFloat::new(12345) }),
        child_b: Box::new(SNFloatNodes::Constant { value: SNFloat::new(-321) }),
    }
}

#[test]
fn mutation_without_reroll_touches_one_path() {
    let mut cfg = GrammarConfig::standard();
    cfg.mut_reroll = 0;
    let ctx = GenContext { cfg, image: std::sync::Arc::new(tiny_image()) };
    let mut rng = DeterministicRng::from_seed(99);
    for _ in 0..100 {
        let mutated = two_constant_tree().mutate_rng(&mut rng, State { depth: 1 }, &ctx);
        match mutated {
            SNPointNodes::FromSNFloats { child_a, child_b } => {
                let a = match *child_a {
                    SNFloatNodes::Constant { value } => value.into_inner(),
                    _ => panic!("left child changed shape"),
                };
                let b = match *child_b {
                    SNFloatNodes::Constant { value } => value.into_inner(),
                    _ => panic!("right child changed shape"),
                };
                let mut diffs = 0;
                if a != 12345 {
                    diffs += 1;
                }
                if b != -321 {
                    diffs += 1;
                }
                assert!(diffs <= 1);
            }
            _ => panic!("root changed shape"),
        }
    }
}

#[test]
fn interpreter_computes_wrapping_sum() {
    let history = History::new(2, 2, 1);
    let state = UpdateState {
        coordinate_set: CoordinateSet { x: SNFloat::new(0), y: SNFloat::new(0), t: 0 },
        history: &history,
    };
    let tree = ByteNodes::Add {
        child_a: Box::new(ByteNodes::Constant { value: Byte::new(200) }),
        child_b: Box::new(ByteNodes::Constant { value: Byte::new(100) }),
    };
    assert_eq!(tree.compute(state).into_inner(), 44);
}

#[test]
fn mandelbrot_origin_never_escapes() {
    let history = History::new(2, 2, 1);
    let state = UpdateState {
        coordinate_set: CoordinateSet { x: SNFloat::new(0), y: SNFloat::new(0), t: 0 },
        history: &history,
    };
    let c = ByteColorNodes::Mandelbrot.compute(state);
    assert_eq!(c, ByteColor { r: 0, g: 0, b: 0, a: 255 });
}

#[test]
fn unfloat_index_scans_all_bit_colors() {
    let history = History::new(2, 2, 1);
    let state = UpdateState {
        coordinate_set: CoordinateSet { x: SNFloat::new(0), y: SNFloat::new(0), t: 0 },
        history: &history,
    };
    let full = BitColorNodes::FromUNFloat {
        child: Box::new(UNFloatNodes::Constant { value: UNFloat::new(UN_ONE) }),
    };
    assert_eq!(full.compute(state), BitColor::White);
    let empty = BitColorNodes::FromUNFloat {
        child: Box::new(UNFloatNodes::Constant { value: UNFloat::new(0) }),
    };
    assert_eq!(empty.compute(state), BitColor::Black);
}
