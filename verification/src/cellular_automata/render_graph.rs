//! The per-frame dispatch plan of the per-cell profile: one step of the
//! automaton, then the display pass, every frame.

use crate::cellular_automata::data_structs::{Params, Resolution};
use crate::dispatch::{planar_cover, planar_workgroups, Dispatch, Kernel, ReadyKernels};
use vstd::prelude::*;

verus! {

/// Invocations per workgroup of both kernels, along each axis.
pub const WORKGROUP_SIZE: u32 = 16;

/// The compute dispatch over the grid, if the kernel is ready and the
/// parameters are known.
pub open spec fn compute_step(params: Option<Params>, ready: ReadyKernels) -> Seq<Dispatch> {
    match params {
        Some(p) if ready.update => seq![
            Dispatch {
                kernel: Kernel::Update,
                workgroups: planar_cover(
                    p.count_x as int,
                    p.count_y as int,
                    WORKGROUP_SIZE as int,
                ),
            },
        ],
        _ => Seq::empty(),
    }
}

/// The display dispatch over the output image, if the kernel is ready and
/// the resolution is known.
pub open spec fn display_step(resolution: Option<Resolution>, ready: ReadyKernels) -> Seq<
    Dispatch,
> {
    match resolution {
        Some(r) if ready.display => seq![
            Dispatch {
                kernel: Kernel::Display,
                workgroups: planar_cover(r.0 as int, r.1 as int, WORKGROUP_SIZE as int),
            },
        ],
        _ => Seq::empty(),
    }
}

/// The dispatches of one frame, in issue order: compute, then display.
/// Nothing is dispatched without a live bind group.
pub open spec fn frame_plan(
    params: Option<Params>,
    resolution: Option<Resolution>,
    ready: ReadyKernels,
    bound: bool,
) -> Seq<Dispatch> {
    if bound {
        compute_step(params, ready) + display_step(resolution, ready)
    } else {
        Seq::empty()
    }
}

/// The render-graph node of the per-cell profile. It keeps no state: the
/// automaton steps in every frame.
#[derive(Clone, Copy, Debug, Default)]
pub struct CANode;

impl CANode {
    /// Plans the dispatches of one frame. A kernel that is not ready, or
    /// whose input is missing, is left out of this frame's plan.
    pub fn run(
        &self,
        params: Option<Params>,
        resolution: Option<Resolution>,
        ready: ReadyKernels,
        bound: bool,
    ) -> (plan: Vec<Dispatch>)
        ensures
            plan@ == frame_plan(params, resolution, ready, bound),
    {
        let mut plan: Vec<Dispatch> = Vec::new();
        if !bound {
            return plan;
        }
        if ready.update {
            match params {
                Some(p) => {
                    let workgroups = planar_workgroups(p.count_x, p.count_y, WORKGROUP_SIZE);
                    plan.push(Dispatch { kernel: Kernel::Update, workgroups });
                },
                None => {},
            }
        }
        assert(plan@ == compute_step(params, ready));
        if ready.display {
            match resolution {
                Some(r) => {
                    let workgroups = planar_workgroups(r.0, r.1, WORKGROUP_SIZE);
                    plan.push(Dispatch { kernel: Kernel::Display, workgroups });
                },
                None => {},
            }
        }
        plan
    }
}

} // verus!
