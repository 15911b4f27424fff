//! The pixel store behind a history frame.
//!
//! Each frame owns a three-dimensional `ndarray` array of bytes laid out
//! row-major as `height x width x 4` (one RGBA byte quadruple per pixel).
//! Verus cannot read the array type itself, so the array sits in a private
//! field of `CellGrid` and every access goes through a small trusted
//! surface: `grid_cells` names the flattened row-major contents and
//! `grid_cols` the width the grid was built with, and the three methods
//! below state over those names what `ndarray`'s own accessors do.

use vstd::prelude::*;

verus! {

/// The flattened row-major contents of a grid: index
/// `(y * grid_cols(g) + x) * 4 + c` holds channel `c` of pixel `(x, y)`.
pub uninterp spec fn grid_cells(g: CellGrid) -> Seq<u8>;

/// The number of pixel columns the grid was built with.
pub uninterp spec fn grid_cols(g: CellGrid) -> int;

/// A `height x width x 4` byte array in standard (row-major) layout.
#[verifier::external_body]
pub struct CellGrid {
    inner: ndarray::Array3<u8>,
}

impl CellGrid {
    /// Relies on `ndarray::ArrayBase::zeros` with a three-element shape:
    /// the array has `height * width * 4` elements, all zero, in standard
    /// row-major order.
    #[verifier::external_body]
    pub fn new(height: usize, width: usize) -> (r: CellGrid)
        requires
            height * width * 4 <= 0x1000_0000,
        ensures
            grid_cells(r).len() == height * width * 4,
            grid_cols(r) == width,
            forall|i: int| 0 <= i < grid_cells(r).len() ==> grid_cells(r)[i] == 0u8,
    {
        CellGrid { inner: ndarray::Array3::zeros((height, width, 4)) }
    }

    /// Relies on `ndarray::ArrayBase::get`: for an in-bounds index of a
    /// standard-layout array it returns the element at row-major position
    /// `(y * width + x) * 4 + c`.
    #[verifier::external_body]
    pub fn get(&self, y: usize, x: usize, c: usize) -> (r: u8)
        requires
            x < grid_cols(*self),
            c < 4,
            (y * grid_cols(*self) + x) * 4 + c < grid_cells(*self).len(),
        ensures
            r == grid_cells(*self)[(y * grid_cols(*self) + x) * 4 + c],
    {
        *self.inner.get([y, x, c]).unwrap_or(&0)
    }

    /// Relies on `ndarray::ArrayBase::clone` (through the derived `Clone`
    /// of the owned array): the copy holds the same elements in the same
    /// layout.
    #[verifier::external_body]
    pub fn duplicate(&self) -> (r: CellGrid)
        ensures
            grid_cells(r) == grid_cells(*self),
            grid_cols(r) == grid_cols(*self),
    {
        CellGrid { inner: self.inner.clone() }
    }

    /// Relies on `ndarray::ArrayBase::get_mut`: writing through it replaces
    /// exactly the element at row-major position `(y * width + x) * 4 + c`.
    #[verifier::external_body]
    pub fn set(&mut self, y: usize, x: usize, c: usize, v: u8)
        requires
            x < grid_cols(*old(self)),
            c < 4,
            (y * grid_cols(*old(self)) + x) * 4 + c < grid_cells(*old(self)).len(),
        ensures
            grid_cells(*final(self)) == grid_cells(*old(self)).update(
                (y * grid_cols(*old(self)) + x) * 4 + c,
                v,
            ),
            grid_cols(*final(self)) == grid_cols(*old(self)),
    {
        if let Some(p) = self.inner.get_mut([y, x, c]) {
            *p = v;
        }
    }
}

} // verus!
