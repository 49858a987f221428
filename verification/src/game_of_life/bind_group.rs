//! GPU resources of the packed profile: the parameter block, the zeroed
//! grid buffer, and the frame-by-frame decision between building them and
//! uploading the parameters again.

use crate::binding::{memory_image, words_as_bytes, zeroed_contents};
use crate::game_of_life::data_structs::{Params, ParamsView};
use crate::resources::{BindGroupPlan, ResourceAction, ResourceStep, Resources, ResourcesView};
use vstd::prelude::*;

verus! {

/// The view fields of the parameter block as the kernels read them:
/// single-precision floating-point encodings, produced by the host.
#[derive(Clone, Copy, PartialEq, Eq, Structural, Debug)]
pub struct ViewEncoding {
    pub center_x: u32,
    pub center_y: u32,
    pub zoom: u32,
}

/// Size of the parameter block in bytes: eight words.
pub const UNIFORM_BLOCK_BYTES: u64 = 32;

/// The words of the parameter block, in the order the kernels declare its
/// fields. Every field is one 32-bit word, so the block has no padding.
pub open spec fn uniform_words(params: ParamsView, view: ViewEncoding) -> Seq<u32> {
    seq![
        params.buffer_size_x as u32,
        params.buffer_size_y as u32,
        view.center_x,
        view.center_y,
        params.resolution_x as u32,
        params.resolution_y as u32,
        params.random_seed as u32,
        view.zoom,
    ]
}

/// `plan` builds the resources for `params`: the parameter block in memory
/// order and, if a grid buffer is to be created, one of `total_words` zero
/// words.
pub open spec fn plan_builds(
    plan: BindGroupPlan,
    params: ParamsView,
    view: ViewEncoding,
    create_storage: bool,
) -> bool {
    &&& memory_image(uniform_words(params, view), plan.params_buffer@)
    &&& create_storage <==> plan.data_buffer is Some
    &&& plan.data_buffer matches Some(contents) ==> contents@ == Seq::new(
        4 * params.total_words() as nat,
        |i: int| 0u8,
    )
}

/// The bytes to upload into the parameter buffer.
pub fn sync_params(params: &Params, view: ViewEncoding) -> (contents: Vec<u8>)
    ensures
        memory_image(uniform_words(params@, view), contents@),
        contents@.len() == UNIFORM_BLOCK_BYTES,
{
    let mut words: Vec<u32> = Vec::new();
    words.push(params.buffer_size_x());
    words.push(params.buffer_size_y());
    words.push(view.center_x);
    words.push(view.center_y);
    words.push(params.resolution_x());
    words.push(params.resolution_y());
    words.push(params.random_seed());
    words.push(view.zoom);
    assert(words@ == uniform_words(params@, view));
    words_as_bytes(&words)
}

/// The contents of the buffers to create before the bind group is built.
/// The grid buffer starts zeroed.
pub fn prepare_bind_group(params: &Params, view: ViewEncoding, create_storage: bool) -> (plan:
    BindGroupPlan)
    requires
        params.wf(),
    ensures
        plan_builds(plan, params@, view, create_storage),
{
    let params_buffer = sync_params(params, view);
    let data_buffer: Option<Vec<u8>> = if create_storage {
        Some(zeroed_contents(params.total_words()))
    } else {
        None
    };
    BindGroupPlan { params_buffer, data_buffer }
}

/// `action` carries out `step` for `params`.
pub open spec fn action_performs(
    action: ResourceAction,
    step: ResourceStep,
    params: ParamsView,
    view: ViewEncoding,
) -> bool {
    match action {
        ResourceAction::Skip => step == ResourceStep::Skip,
        ResourceAction::Sync(contents) => step == ResourceStep::Sync && memory_image(
            uniform_words(params, view),
            contents@,
        ),
        ResourceAction::Build(plan) => step matches ResourceStep::Build { create_storage }
            && plan_builds(plan, params, view, create_storage),
    }
}

/// The live GPU resources of the packed profile.
#[derive(Clone, Copy, Debug)]
pub struct GLBindGroup(Resources);

impl View for GLBindGroup {
    type V = ResourcesView;

    closed spec fn view(&self) -> ResourcesView {
        self.0@
    }
}

impl GLBindGroup {
    /// The invariant every constructor establishes and every method keeps.
    pub open spec fn wf(&self) -> bool {
        self@.wf()
    }

    /// No resource has been created.
    pub fn new() -> (bind_group: GLBindGroup)
        ensures
            bind_group@ == (ResourcesView { image: None, has_storage: false }),
            bind_group.wf(),
    {
        GLBindGroup(Resources::new())
    }

    /// Whether a bind group is live, so that kernels can be dispatched.
    pub fn is_live(&self) -> (live: bool)
        ensures
            live == self@.image is Some,
    {
        self.0.is_live()
    }

    /// Decides what this frame does with the resources and prepares the
    /// buffer contents for it. `image` identifies the output image if it is
    /// resolvable on the device.
    pub fn prepare(&mut self, image: Option<u64>, params: &Params, view: ViewEncoding) -> (action:
        ResourceAction)
        requires
            old(self).wf(),
            params.wf(),
        ensures
            action_performs(action, old(self)@.step(image), params@, view),
            final(self)@ == old(self)@.prepared(image),
            final(self).wf(),
    {
        match self.0.prepare(image) {
            ResourceStep::Skip => ResourceAction::Skip,
            ResourceStep::Sync => ResourceAction::Sync(sync_params(params, view)),
            ResourceStep::Build { create_storage } => ResourceAction::Build(
                prepare_bind_group(params, view, create_storage),
            ),
        }
    }
}

} // verus!
