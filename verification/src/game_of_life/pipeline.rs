//! The kernels of the packed profile and the requests that compile them.

use crate::dispatch::Kernel;
use crate::registry::{KernelHandles, PipelineRequest};
use vstd::prelude::*;

verus! {

/// Asset path of the shader source of this profile.
pub open spec fn shader_source() -> Seq<char> {
    "shaders/game_of_life.wgsl"@
}

/// Name of the entry point that implements `kernel`.
pub open spec fn entry_name(kernel: Kernel) -> Seq<char> {
    match kernel {
        Kernel::Randomize => "randomize"@,
        Kernel::Update => "update"@,
        Kernel::Display => "display"@,
    }
}

/// `request` asks for `kernel` under the names of this profile.
pub open spec fn requests_kernel(request: PipelineRequest, kernel: Kernel) -> bool {
    &&& request.kernel == kernel
    &&& request.shader_path@ == shader_source()
    &&& request.entry_point@ == entry_name(kernel)
}

/// Computes [`shader_source`].
pub fn shader_path() -> (path: &'static str)
    ensures
        path@ == shader_source(),
{
    "shaders/game_of_life.wgsl"
}

/// Computes [`entry_name`].
pub fn entry_point(kernel: Kernel) -> (name: &'static str)
    ensures
        name@ == entry_name(kernel),
{
    match kernel {
        Kernel::Randomize => "randomize",
        Kernel::Update => "update",
        Kernel::Display => "display",
    }
}

/// The pipelines of the packed profile: one handle per kernel, each
/// requested at most once.
#[derive(Clone, Copy, Debug)]
pub struct GLPipeline {
    handles: KernelHandles,
}

impl GLPipeline {
    /// The handle registered for `kernel`, if it has been requested.
    pub closed spec fn handle(&self, kernel: Kernel) -> Option<usize> {
        self.handles.lookup(kernel)
    }

    /// `kernel` alone if it still has to be requested, nothing otherwise.
    pub open spec fn missing(&self, kernel: Kernel) -> Seq<Kernel> {
        if self.handle(kernel) is None {
            seq![kernel]
        } else {
            Seq::empty()
        }
    }

    /// The kernels that still have to be requested, in request order:
    /// update, randomize, display.
    pub open spec fn pending_kernels(&self) -> Seq<Kernel> {
        self.missing(Kernel::Update) + self.missing(Kernel::Randomize) + self.missing(
            Kernel::Display,
        )
    }

    /// A registry in which no kernel has been requested.
    pub fn new() -> (pipeline: GLPipeline)
        ensures
            forall|kernel: Kernel| pipeline.handle(kernel) is None,
    {
        GLPipeline { handles: KernelHandles::new() }
    }

    /// The compile requests that are still outstanding. A kernel that has a
    /// handle is never requested again.
    pub fn pending(&self) -> (requests: Vec<PipelineRequest>)
        ensures
            requests@.len() == self.pending_kernels().len(),
            forall|i: int|
                0 <= i < requests@.len() ==> requests_kernel(
                    #[trigger] requests@[i],
                    self.pending_kernels()[i],
                ),
    {
        let mut requests: Vec<PipelineRequest> = Vec::new();
        self.push_missing(&mut requests, Kernel::Update);
        self.push_missing(&mut requests, Kernel::Randomize);
        self.push_missing(&mut requests, Kernel::Display);
        requests
    }

    /// Appends the request for `kernel` to `requests` if the kernel has no
    /// handle yet.
    fn push_missing(&self, requests: &mut Vec<PipelineRequest>, kernel: Kernel)
        ensures
            final(requests)@.len() == old(requests)@.len() + self.missing(kernel).len(),
            forall|i: int|
                0 <= i < old(requests)@.len() ==> final(requests)@[i] == old(requests)@[i],
            self.missing(kernel).len() == 1 ==> requests_kernel(
                final(requests)@[old(requests)@.len() as int],
                kernel,
            ),
    {
        if self.handles.get(kernel).is_none() {
            requests.push(
                PipelineRequest {
                    kernel,
                    shader_path: shader_path(),
                    entry_point: entry_point(kernel),
                },
            );
        }
    }

    /// Records that `kernel` was compiled under `handle`, unless it already
    /// has a handle, and returns the handle it is known by from now on.
    pub fn register(&mut self, kernel: Kernel, handle: usize) -> (cached: usize)
        ensures
            cached == match old(self).handle(kernel) {
                Some(existing) => existing,
                None => handle,
            },
            final(self).handle(kernel) == Some(cached),
            forall|other: Kernel|
                other != kernel ==> final(self).handle(other) == old(self).handle(other),
    {
        self.handles.register(kernel, handle)
    }

    /// Computes [`Self::handle`].
    pub fn get(&self, kernel: Kernel) -> (handle: Option<usize>)
        ensures
            handle == self.handle(kernel),
    {
        self.handles.get(kernel)
    }

    /// Handle of the kernel that advances the grid.
    pub fn update_pipeline(&self) -> (handle: Option<usize>)
        ensures
            handle == self.handle(Kernel::Update),
    {
        self.handles.get(Kernel::Update)
    }

    /// Handle of the kernel that fills the grid with its initial content.
    pub fn randomize_pipeline(&self) -> (handle: Option<usize>)
        ensures
            handle == self.handle(Kernel::Randomize),
    {
        self.handles.get(Kernel::Randomize)
    }

    /// Handle of the kernel that renders the grid.
    pub fn display_pipeline(&self) -> (handle: Option<usize>)
        ensures
            handle == self.handle(Kernel::Display),
    {
        self.handles.get(Kernel::Display)
    }
}

} // verus!
