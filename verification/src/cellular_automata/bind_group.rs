//! GPU resources of the per-cell profile: the parameter block and the grid
//! buffer with one word per cell.

use crate::binding::{memory_image, words_as_bytes};
use crate::cellular_automata::data_structs::{CellValues, Params};
use crate::resources::{BindGroupPlan, ResourceAction, ResourceStep, Resources, ResourcesView};
use vstd::prelude::*;

verus! {

/// Size of the parameter block in bytes: three words.
pub const UNIFORM_BLOCK_BYTES: u64 = 12;

/// The words of the parameter block, in the order the kernels declare its
/// fields.
pub open spec fn uniform_words(params: Params) -> Seq<u32> {
    seq![params.cell_size, params.count_x, params.count_y]
}

/// `plan` builds the resources for `params`: the parameter block and, if a
/// grid buffer is to be created, one that holds `values`, both in memory
/// order.
pub open spec fn plan_builds(
    plan: BindGroupPlan,
    params: Params,
    values: Seq<u32>,
    create_storage: bool,
) -> bool {
    &&& memory_image(uniform_words(params), plan.params_buffer@)
    &&& create_storage <==> plan.data_buffer is Some
    &&& plan.data_buffer matches Some(contents) ==> memory_image(values, contents@)
}

/// The bytes of the parameter buffer.
pub fn params_contents(params: Params) -> (contents: Vec<u8>)
    ensures
        memory_image(uniform_words(params), contents@),
        contents@.len() == UNIFORM_BLOCK_BYTES,
{
    let mut words: Vec<u32> = Vec::new();
    words.push(params.cell_size);
    words.push(params.count_x);
    words.push(params.count_y);
    assert(words@ == uniform_words(params));
    words_as_bytes(&words)
}

/// The contents of the buffers to create before the bind group is built.
/// The grid buffer starts with the given cell values.
pub fn prepare_bind_group(params: Params, values: &CellValues, create_storage: bool) -> (plan:
    BindGroupPlan)
    ensures
        plan_builds(plan, params, values.0@, create_storage),
{
    let params_buffer = params_contents(params);
    let data_buffer: Option<Vec<u8>> = if create_storage {
        Some(words_as_bytes(&values.0))
    } else {
        None
    };
    BindGroupPlan { params_buffer, data_buffer }
}

/// `action` carries out `step` for `params` and `values`.
pub open spec fn action_performs(
    action: ResourceAction,
    step: ResourceStep,
    params: Params,
    values: Seq<u32>,
) -> bool {
    match action {
        ResourceAction::Skip => step == ResourceStep::Skip,
        ResourceAction::Sync(contents) => step == ResourceStep::Sync && memory_image(
            uniform_words(params),
            contents@,
        ),
        ResourceAction::Build(plan) => step matches ResourceStep::Build { create_storage }
            && plan_builds(plan, params, values, create_storage),
    }
}

/// The live GPU resources of the per-cell profile.
#[derive(Clone, Copy, Debug)]
pub struct CABindGroup(Resources);

impl View for CABindGroup {
    type V = ResourcesView;

    closed spec fn view(&self) -> ResourcesView {
        self.0@
    }
}

impl CABindGroup {
    /// The invariant every constructor establishes and every method keeps.
    pub open spec fn wf(&self) -> bool {
        self@.wf()
    }

    /// No resource has been created.
    pub fn new() -> (bind_group: CABindGroup)
        ensures
            bind_group@ == (ResourcesView { image: None, has_storage: false }),
            bind_group.wf(),
    {
        CABindGroup(Resources::new())
    }

    /// Whether a bind group is live, so that kernels can be dispatched.
    pub fn is_live(&self) -> (live: bool)
        ensures
            live == self@.image is Some,
    {
        self.0.is_live()
    }

    /// Decides what this frame does with the resources and prepares the
    /// buffer contents for it. `image` identifies the output image if it is
    /// resolvable on the device.
    pub fn prepare(&mut self, image: Option<u64>, params: Params, values: &CellValues) -> (action:
        ResourceAction)
        requires
            old(self).wf(),
        ensures
            action_performs(action, old(self)@.step(image), params, values.0@),
            final(self)@ == old(self)@.prepared(image),
            final(self).wf(),
    {
        match self.0.prepare(image) {
            ResourceStep::Skip => ResourceAction::Skip,
            ResourceStep::Sync => ResourceAction::Sync(params_contents(params)),
            ResourceStep::Build { create_storage } => ResourceAction::Build(
                prepare_bind_group(params, values, create_storage),
            ),
        }
    }
}

} // verus!
