//! Decoded images as the interpreter sees them.
//!
//! Decoding, resizing and fetching happen outside the core; what reaches
//! the tree is a named stack of frames, each a pixel grid of the same
//! shape as a history frame, looked up with wrapped coordinates.

use vstd::prelude::*;
use std::sync::Arc;
use crate::colors::ByteColor;
use crate::continuous::{SNFloat, UN_ONE};
use crate::grid::{CellGrid, grid_cells, grid_cols};

verus! {

/// A decoded image: one or more frames of equal dimensions.
pub struct Image {
    pub name: String,
    pub frames: Vec<CellGrid>,
    pub width: usize,
    pub height: usize,
}

/// The byte at one channel of one wrapped pixel of one wrapped frame.
pub open spec fn spec_image_channel(img: Image, x: int, y: int, t: int, c: int) -> u8 {
    let f = img.frames@[t % img.frames@.len() as int];
    grid_cells(f)[((y % img.height as int) * img.width + (x % img.width as int)) * 4 + c]
}

impl Image {
    pub open spec fn wf(self) -> bool {
        &&& 0 < self.frames@.len()
        &&& 0 < self.width
        &&& 0 < self.height
        &&& self.height * self.width * 4 <= 0x1000_0000
        &&& forall|i: int|
            0 <= i < self.frames@.len() ==> grid_cells(self.frames@[i]).len() == self.height
                * self.width * 4 && grid_cols(self.frames@[i]) == self.width
    }

    /// Wrap the given frames as an image.
    pub fn new(name: String, frames: Vec<CellGrid>, width: usize, height: usize) -> (r: Image)
        requires
            0 < frames@.len(),
            0 < width,
            0 < height,
            height * width * 4 <= 0x1000_0000,
            forall|i: int|
                0 <= i < frames@.len() ==> grid_cells(frames@[i]).len() == height * width * 4
                    && grid_cols(frames@[i]) == width,
        ensures
            r.wf(),
            r.frames@ == frames@,
            r.width == width,
            r.height == height,
            r.name == name,
    {
        Image { name, frames, width, height }
    }

    /// A copy of the image, frame by frame.
    pub fn duplicate(&self) -> (r: Image)
        requires
            self.wf(),
        ensures
            r.wf(),
            r.width == self.width,
            r.height == self.height,
            r.frames@.len() == self.frames@.len(),
            forall|i: int|
                0 <= i < self.frames@.len() ==> grid_cells(r.frames@[i]) == grid_cells(
                    self.frames@[i],
                ) && grid_cols(r.frames@[i]) == grid_cols(self.frames@[i]),
    {
        let mut frames: Vec<CellGrid> = Vec::new();
        let mut i: usize = 0;
        while i < self.frames.len()
            invariant
                i <= self.frames@.len(),
                frames@.len() == i,
                forall|j: int|
                    0 <= j < i ==> grid_cells(frames@[j]) == grid_cells(self.frames@[j])
                        && grid_cols(frames@[j]) == grid_cols(self.frames@[j]),
            decreases self.frames@.len() - i,
        {
            frames.push(self.frames[i].duplicate());
            i = i + 1;
        }
        Image {
            name: self.name.clone(),
            frames,
            width: self.width,
            height: self.height,
        }
    }

    /// The colour at a pixel, all three coordinates wrapped into range.
    pub fn get_pixel_wrapped(&self, x: u32, y: u32, t: u32) -> (r: ByteColor)
        requires
            self.wf(),
        ensures
            r.r == spec_image_channel(*self, x as int, y as int, t as int, 0),
            r.g == spec_image_channel(*self, x as int, y as int, t as int, 1),
            r.b == spec_image_channel(*self, x as int, y as int, t as int, 2),
            r.a == spec_image_channel(*self, x as int, y as int, t as int, 3),
    {
        let len: usize = self.frames.len();
        let frame: &CellGrid = &self.frames[(t as usize) % len];
        let ax: usize = (x as usize) % self.width;
        let ay: usize = (y as usize) % self.height;
        proof {
            vstd::arithmetic::div_mod::lemma_mod_division_less_than_divisor(
                x as int,
                self.width as int,
            );
            vstd::arithmetic::div_mod::lemma_mod_division_less_than_divisor(
                y as int,
                self.height as int,
            );
            assert((ay * self.width + ax) * 4 + 3 < self.height * self.width * 4)
                by (nonlinear_arith)
                requires
                    ax < self.width,
                    ay < self.height,
            ;
        }
        ByteColor {
            r: frame.get(ay, ax, 0),
            g: frame.get(ay, ax, 1),
            b: frame.get(ay, ax, 2),
            a: frame.get(ay, ax, 3),
        }
    }

    /// The colour at a signed-normalised position and a tick: the plane
    /// coordinates are scaled onto the pixel grid (the far edge wrapping
    /// to the near one) and the tick picks a frame, ticks before zero
    /// reading as frame zero.
    pub fn get_pixel_normalised(&self, x: SNFloat, y: SNFloat, t: i64) -> (r: ByteColor)
        requires
            self.wf(),
            x.wf(),
            y.wf(),
        ensures
            r.r == spec_image_channel(*self, spec_pixel_of(x, self.width as int), spec_pixel_of(y, self.height as int), spec_frame_of(t), 0),
            r.g == spec_image_channel(*self, spec_pixel_of(x, self.width as int), spec_pixel_of(y, self.height as int), spec_frame_of(t), 1),
            r.b == spec_image_channel(*self, spec_pixel_of(x, self.width as int), spec_pixel_of(y, self.height as int), spec_frame_of(t), 2),
            r.a == spec_image_channel(*self, spec_pixel_of(x, self.width as int), spec_pixel_of(y, self.height as int), spec_frame_of(t), 3),
    {
        proof {
            assert(self.width <= 0x1000_0000 && self.height <= 0x1000_0000) by (nonlinear_arith)
                requires
                    self.height * self.width * 4 <= 0x1000_0000,
                    self.height >= 1,
                    self.width >= 1,
            ;
            crate::continuous::lemma_scale_div_bound(
                crate::continuous::signed_to_unsigned(x.value as int),
                UN_ONE as int,
                self.width as int,
            );
            crate::continuous::lemma_scale_div_bound(
                crate::continuous::signed_to_unsigned(y.value as int),
                UN_ONE as int,
                self.height as int,
            );
            vstd::arithmetic::mul::lemma_mul_is_commutative(
                crate::continuous::signed_to_unsigned(x.value as int),
                self.width as int,
            );
            vstd::arithmetic::mul::lemma_mul_is_commutative(
                crate::continuous::signed_to_unsigned(y.value as int),
                self.height as int,
            );
        }
        let ux: i64 = x.to_unsigned().into_inner() as i64;
        let uy: i64 = y.to_unsigned().into_inner() as i64;
        let px: u32 = ((ux * self.width as i64) / (UN_ONE as i64)) as u32;
        let py: u32 = ((uy * self.height as i64) / (UN_ONE as i64)) as u32;
        let ft: u32 = if t < 0 {
            0
        } else if t >= 0xFFFF_FFFF {
            0xFFFF_FFFF
        } else {
            t as u32
        };
        self.get_pixel_wrapped(px, py, ft)
    }
}

/// Share an image: the tree's image leaves all point at the one decoded
/// image instead of copying it.
///
/// Relies on `std::sync::Arc::clone`: the clone is another pointer to the
/// same allocation, hence the same value.
#[verifier::external_body]
pub fn share_image(img: &Arc<Image>) -> (r: Arc<Image>)
    ensures
        r == *img,
{
    img.clone()
}

/// The pixel column or row a signed-normalised coordinate lands on, for a
/// grid `n` pixels across.
pub open spec fn spec_pixel_of(v: SNFloat, n: int) -> int {
    crate::continuous::signed_to_unsigned(v.value as int) * n / (UN_ONE as int)
}

/// The frame a tick picks: ticks before zero read as zero, and very large
/// ticks cap at the largest pixel coordinate.
pub open spec fn spec_frame_of(t: i64) -> int {
    if t < 0 {
        0
    } else if t >= 0xFFFF_FFFF {
        0xFFFF_FFFF
    } else {
        t as int
    }
}

} // verus!
