//! The ring of past frames.
//!
//! A frame owns its pixel grid and the transform metadata the presentation
//! layer interpolates with: a rotation, a translation, an offset, a scale
//! pair, and one gate per transform.  The ring is allocated once, sized to
//! the grid dimensions and the history length, and frames are overwritten
//! in place as the driver completes cycles.

use vstd::prelude::*;
use crate::colors::ByteColor;
use crate::continuous::SNFloat;
use crate::grid::{CellGrid, grid_cells, grid_cols};
use crate::points::SNPoint;

verus! {

/// One frame of history: a pixel grid plus its transform metadata.
pub struct HistoryStep {
    pub cell_array: CellGrid,
    pub rotation: SNFloat,
    pub translation: SNPoint,
    pub offset: SNPoint,
    pub from_scale: SNPoint,
    pub to_scale: SNPoint,
    pub apply_rotation: bool,
    pub apply_translation: bool,
    pub apply_offset: bool,
    pub apply_scale: bool,
}

impl HistoryStep {
    /// A frame sized to the given grid.
    pub open spec fn wf(self, width: int, height: int) -> bool {
        &&& grid_cells(self.cell_array).len() == height * width * 4
        &&& grid_cols(self.cell_array) == width
        &&& self.rotation.wf()
        &&& self.translation.wf()
        &&& self.offset.wf()
        &&& self.from_scale.wf()
        &&& self.to_scale.wf()
    }

    /// A fresh opaque black frame with no transforms applied.
    pub fn new(width: usize, height: usize) -> (r: HistoryStep)
        requires
            0 < width,
            0 < height,
            height * width * 4 <= 0x1000_0000,
        ensures
            r.wf(width as int, height as int),
            forall|i: int|
                0 <= i < height * width * 4 ==> grid_cells(r.cell_array)[i] == if i % 4 == 3 {
                    255u8
                } else {
                    0u8
                },
            !r.apply_rotation && !r.apply_translation && !r.apply_offset && !r.apply_scale,
            r.rotation.value == 0,
            r.translation == SNPoint::spec_zero(),
            r.offset == SNPoint::spec_zero(),
            r.from_scale == SNPoint::spec_zero(),
            r.to_scale == SNPoint::spec_zero(),
    {
        let mut grid: CellGrid = CellGrid::new(height, width);
        let mut p: usize = 0;
        let total: usize = height * width;
        while p < total
            invariant
                0 < width,
                0 < height,
                total == height * width,
                total * 4 <= 0x1000_0000,
                p <= total,
                grid_cells(grid).len() == total * 4,
                grid_cols(grid) == width,
                forall|i: int|
                    0 <= i < total * 4 ==> grid_cells(grid)[i] == if i % 4 == 3 && i < p * 4 {
                        255u8
                    } else {
                        0u8
                    },
            decreases total - p,
        {
            let y: usize = p / width;
            let x: usize = p % width;
            proof {
                vstd::arithmetic::div_mod::lemma_fundamental_div_mod(p as int, width as int);
                vstd::arithmetic::div_mod::lemma_mod_division_less_than_divisor(
                    p as int,
                    width as int,
                );
                assert(y * width + x == p);
            }
            grid.set(y, x, 3, 255);
            p = p + 1;
        }
        let zero: SNPoint = SNPoint::zero();
        HistoryStep {
            cell_array: grid,
            rotation: SNFloat { value: 0 },
            translation: zero,
            offset: zero,
            from_scale: zero,
            to_scale: zero,
            apply_rotation: false,
            apply_translation: false,
            apply_offset: false,
            apply_scale: false,
        }
    }
}

/// The ring of the most recent frames.
pub struct History {
    pub history_steps: Vec<HistoryStep>,
    pub width: usize,
    pub height: usize,
}

/// The byte at one channel of one wrapped position of one wrapped frame.
pub open spec fn spec_history_channel(h: History, x: int, y: int, t: int, c: int) -> u8 {
    let step = h.history_steps@[t % h.history_steps@.len() as int];
    grid_cells(step.cell_array)[((y % h.height as int) * h.width + (x % h.width as int)) * 4 + c]
}

impl History {
    pub open spec fn wf(self) -> bool {
        &&& 0 < self.history_steps@.len()
        &&& 0 < self.width
        &&& 0 < self.height
        &&& self.height * self.width * 4 <= 0x1000_0000
        &&& forall|i: int|
            0 <= i < self.history_steps@.len() ==> self.history_steps@[i].wf(
                self.width as int,
                self.height as int,
            )
    }

    /// A ring of `size` fresh frames over a `width` by `height` grid.
    pub fn new(array_width: usize, array_height: usize, size: usize) -> (r: History)
        requires
            0 < array_width,
            0 < array_height,
            0 < size,
            array_height * array_width * 4 <= 0x1000_0000,
        ensures
            r.wf(),
            r.width == array_width,
            r.height == array_height,
            r.history_steps@.len() == size,
            forall|j: int, i: int|
                0 <= j < size && 0 <= i < array_height * array_width * 4 ==> grid_cells(
                    r.history_steps@[j].cell_array,
                )[i] == if i % 4 == 3 {
                    255u8
                } else {
                    0u8
                },
            forall|j: int|
                0 <= j < size ==> !r.history_steps@[j].apply_rotation
                    && !r.history_steps@[j].apply_translation
                    && !r.history_steps@[j].apply_offset && !r.history_steps@[j].apply_scale
                    && r.history_steps@[j].rotation.value == 0 && r.history_steps@[j].translation
                    == SNPoint::spec_zero() && r.history_steps@[j].offset == SNPoint::spec_zero()
                    && r.history_steps@[j].from_scale == SNPoint::spec_zero()
                    && r.history_steps@[j].to_scale == SNPoint::spec_zero(),
    {
        let mut steps: Vec<HistoryStep> = Vec::new();
        let mut i: usize = 0;
        while i < size
            invariant
                i <= size,
                steps@.len() == i,
                0 < array_width,
                0 < array_height,
                array_height * array_width * 4 <= 0x1000_0000,
                forall|j: int|
                    0 <= j < i ==> steps@[j].wf(array_width as int, array_height as int),
                forall|j: int, k: int|
                    0 <= j < i && 0 <= k < array_height * array_width * 4 ==> grid_cells(
                        steps@[j].cell_array,
                    )[k] == if k % 4 == 3 {
                        255u8
                    } else {
                        0u8
                    },
                forall|j: int|
                    0 <= j < i ==> !steps@[j].apply_rotation && !steps@[j].apply_translation
                        && !steps@[j].apply_offset && !steps@[j].apply_scale
                        && steps@[j].rotation.value == 0 && steps@[j].translation
                        == SNPoint::spec_zero() && steps@[j].offset == SNPoint::spec_zero()
                        && steps@[j].from_scale == SNPoint::spec_zero() && steps@[j].to_scale
                        == SNPoint::spec_zero(),
            decreases size - i,
        {
            steps.push(HistoryStep::new(array_width, array_height));
            i = i + 1;
        }
        History { history_steps: steps, width: array_width, height: array_height }
    }

    /// The colour at a wrapped position of a wrapped frame of the ring.
    pub fn get(&self, x: usize, y: usize, t: usize) -> (r: ByteColor)
        requires
            self.wf(),
        ensures
            r.r == spec_history_channel(*self, x as int, y as int, t as int, 0),
            r.g == spec_history_channel(*self, x as int, y as int, t as int, 1),
            r.b == spec_history_channel(*self, x as int, y as int, t as int, 2),
            r.a == spec_history_channel(*self, x as int, y as int, t as int, 3),
    {
        let len: usize = self.history_steps.len();
        let step: &HistoryStep = &self.history_steps[t % len];
        let ax: usize = x % self.width;
        let ay: usize = y % self.height;
        proof {
            vstd::arithmetic::div_mod::lemma_mod_division_less_than_divisor(
                x as int,
                self.width as int,
            );
            vstd::arithmetic::div_mod::lemma_mod_division_less_than_divisor(
                y as int,
                self.height as int,
            );
            assert((ay * self.width + ax) * 4 + 3 < self.height * self.width * 4)
                by (nonlinear_arith)
                requires
                    ax < self.width,
                    ay < self.height,
            ;
        }
        ByteColor {
            r: step.cell_array.get(ay, ax, 0),
            g: step.cell_array.get(ay, ax, 1),
            b: step.cell_array.get(ay, ax, 2),
            a: step.cell_array.get(ay, ax, 3),
        }
    }
}

} // verus!
