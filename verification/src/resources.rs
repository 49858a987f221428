//! Lifecycle of the GPU resources behind the kernels: one parameter buffer,
//! one grid buffer and the bind group that ties them to the output image.
//!
//! The resources are built once the output image can be resolved on the
//! device and rebuilt when another image takes its place. In between, only
//! the contents of the parameter buffer are uploaded again.

use vstd::prelude::*;

verus! {

/// Contents of the buffers behind a new bind group. The bind group
/// references the parameter buffer at binding 0, the view of the output
/// image at binding 1 and the grid buffer at binding 2.
#[derive(Debug)]
pub struct BindGroupPlan {
    /// Contents of the new parameter buffer.
    pub params_buffer: Vec<u8>,
    /// Contents of the new grid buffer, or none to bind the grid buffer that
    /// already exists.
    pub data_buffer: Option<Vec<u8>>,
}

/// What the host has to do with the GPU resources in one frame.
#[derive(Debug)]
pub enum ResourceAction {
    /// The output image is not resolvable: do nothing and try again next
    /// frame.
    Skip,
    /// Create the buffers and build the bind group.
    Build(BindGroupPlan),
    /// Upload these bytes into the existing parameter buffer.
    Sync(Vec<u8>),
}

/// The kind of work a frame owes the resources.
#[derive(Clone, Copy, PartialEq, Eq, Structural, Debug)]
pub enum ResourceStep {
    /// Nothing: the output image is not resolvable.
    Skip,
    /// Build the bind group, and with it the grid buffer if `create_storage`
    /// is set.
    Build { create_storage: bool },
    /// Upload the parameters again.
    Sync,
}

/// The mathematical content of [`Resources`].
pub struct ResourcesView {
    /// The image the live bind group was built against, if one is live.
    pub image: Option<u64>,
    /// Whether the grid buffer has been created.
    pub has_storage: bool,
}

impl ResourcesView {
    /// A bind group is only ever built together with or after the grid
    /// buffer.
    pub open spec fn wf(self) -> bool {
        self.image is Some ==> self.has_storage
    }

    /// The work owed in a frame in which `image` identifies the resolvable
    /// output image, if there is one: nothing without an image, an upload
    /// while the bind group matches the image, and a rebuild otherwise. The
    /// grid buffer is created on the first build only.
    pub open spec fn step(self, image: Option<u64>) -> ResourceStep {
        if image is None {
            ResourceStep::Skip
        } else if self.image == image {
            ResourceStep::Sync
        } else {
            ResourceStep::Build { create_storage: !self.has_storage }
        }
    }

    /// The resources after that frame: a bind group lives exactly while the
    /// image it was built against stays resolvable, and the grid buffer,
    /// once created, stays.
    pub open spec fn prepared(self, image: Option<u64>) -> ResourcesView {
        ResourcesView { image, has_storage: self.has_storage || image is Some }
    }
}

/// Which GPU resources are live: at most one bind group, and the grid buffer
/// it binds.
#[derive(Clone, Copy, Debug)]
pub struct Resources {
    image: Option<u64>,
    has_storage: bool,
}

impl View for Resources {
    type V = ResourcesView;

    closed spec fn view(&self) -> ResourcesView {
        ResourcesView { image: self.image, has_storage: self.has_storage }
    }
}

impl Resources {
    /// The invariant every constructor establishes and every method keeps.
    pub open spec fn wf(&self) -> bool {
        self@.wf()
    }

    /// No resource has been created.
    pub fn new() -> (resources: Resources)
        ensures
            resources@ == (ResourcesView { image: None, has_storage: false }),
            resources.wf(),
    {
        Resources { image: None, has_storage: false }
    }

    /// Whether a bind group is live, so that kernels can be dispatched.
    pub fn is_live(&self) -> (live: bool)
        ensures
            live == self@.image is Some,
    {
        self.image.is_some()
    }

    /// Decides what this frame owes the resources and records the outcome.
    /// `image` identifies the output image if it is resolvable on the
    /// device; a different number stands for a different image.
    pub fn prepare(&mut self, image: Option<u64>) -> (step: ResourceStep)
        requires
            old(self).wf(),
        ensures
            step == old(self)@.step(image),
            final(self)@ == old(self)@.prepared(image),
            final(self).wf(),
    {
        let id: u64 = match image {
            Some(id) => id,
            None => {
                self.image = None;
                return ResourceStep::Skip;
            },
        };
        let bound: bool = match self.image {
            Some(existing) => existing == id,
            None => false,
        };
        if bound {
            ResourceStep::Sync
        } else {
            let create_storage: bool = !self.has_storage;
            self.image = Some(id);
            self.has_storage = true;
            ResourceStep::Build { create_storage }
        }
    }
}

/// The resources never hold more than one bind group, and preparing them
/// twice for the same image builds at most once: the second frame only
/// uploads the parameters.
pub proof fn lemma_rebuilds_only_on_change(resources: ResourcesView, image: u64)
    requires
        resources.wf(),
    ensures
        resources.prepared(Some(image)).wf(),
        resources.prepared(Some(image)).step(Some(image)) == ResourceStep::Sync,
        resources.prepared(None).step(Some(image)) == (ResourceStep::Build {
            create_storage: !resources.has_storage,
        }),
{
}

} // verus!
