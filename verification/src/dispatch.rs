//! Compute dispatches: which kernel runs, over how many workgroups.

use crate::sizing::{ceil_div, dispatch_count};
use vstd::prelude::*;

verus! {

/// A compute kernel of the simulation, selected by the name of its entry
/// point.
#[derive(Clone, Copy, PartialEq, Eq, Structural, Debug)]
pub enum Kernel {
    /// Fills the grid with its initial content.
    Randomize,
    /// Advances the grid by one generation.
    Update,
    /// Renders the grid into the output image.
    Display,
}

/// Workgroup counts along the three dispatch axes.
#[derive(Clone, Copy, PartialEq, Eq, Structural, Debug)]
pub struct Workgroups {
    pub x: u32,
    pub y: u32,
    pub z: u32,
}

/// One dispatch inside a compute pass.
#[derive(Clone, Copy, PartialEq, Eq, Structural, Debug)]
pub struct Dispatch {
    pub kernel: Kernel,
    pub workgroups: Workgroups,
}

/// Which kernels have finished compiling and can be bound this frame.
#[derive(Clone, Copy, PartialEq, Eq, Structural, Debug)]
pub struct ReadyKernels {
    pub randomize: bool,
    pub update: bool,
    pub display: bool,
}

/// Workgroups of `size` invocations that cover `total` items along the
/// first axis.
pub open spec fn linear_cover(total: int, size: int) -> Workgroups
    recommends
        0 <= total <= u32::MAX,
        0 < size,
{
    Workgroups { x: ceil_div(total, size) as u32, y: 1, z: 1 }
}

/// Workgroups of `size` by `size` invocations that cover a `width` by
/// `height` rectangle.
pub open spec fn planar_cover(width: int, height: int, size: int) -> Workgroups
    recommends
        0 <= width <= u32::MAX,
        0 <= height <= u32::MAX,
        0 < size,
{
    Workgroups { x: ceil_div(width, size) as u32, y: ceil_div(height, size) as u32, z: 1 }
}

/// Computes [`linear_cover`].
pub fn linear_workgroups(total: u32, size: u32) -> (groups: Workgroups)
    requires
        size > 0,
    ensures
        groups == linear_cover(total as int, size as int),
        groups.x * size >= total,
{
    Workgroups { x: dispatch_count(total, size), y: 1, z: 1 }
}

/// Computes [`planar_cover`].
pub fn planar_workgroups(width: u32, height: u32, size: u32) -> (groups: Workgroups)
    requires
        size > 0,
    ensures
        groups == planar_cover(width as int, height as int, size as int),
        groups.x * size >= width,
        groups.y * size >= height,
{
    Workgroups { x: dispatch_count(width, size), y: dispatch_count(height, size), z: 1 }
}

} // verus!
