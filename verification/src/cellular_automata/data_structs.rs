//! Shared state of the per-cell profile.

use vstd::prelude::*;

verus! {

/// Grid parameters of the per-cell profile, as the kernels read them.
#[derive(Clone, Copy, PartialEq, Eq, Structural, Debug)]
pub struct Params {
    /// Edge length of one cell in pixels.
    pub cell_size: u32,
    /// Number of cells along the horizontal axis.
    pub count_x: u32,
    /// Number of cells along the vertical axis.
    pub count_y: u32,
}

/// The grid state: one 32-bit value per cell, row by row.
#[derive(Clone, Debug)]
pub struct CellValues(pub Vec<u32>);

/// Edge length of one cell in pixels.
#[derive(Clone, Copy, PartialEq, Eq, Structural, Debug)]
pub struct CellSize(pub u32);

/// Width and height of the output image in pixels.
#[derive(Clone, Copy, PartialEq, Eq, Structural, Debug)]
pub struct Resolution(pub u32, pub u32);

} // verus!
