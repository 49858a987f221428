//! The kernels of the per-cell profile and the requests that compile them.

use crate::dispatch::Kernel;
use crate::registry::{KernelHandles, PipelineRequest};
use vstd::prelude::*;

verus! {

/// Asset path of the shader source of this profile.
pub open spec fn shader_source() -> Seq<char> {
    "shaders/cellular_automata.wgsl"@
}

/// Whether this profile has `kernel`: it computes and displays, and has no
/// randomize phase.
pub open spec fn has_kernel(kernel: Kernel) -> bool {
    kernel != Kernel::Randomize
}

/// Name of the entry point that implements `kernel`.
pub open spec fn entry_name(kernel: Kernel) -> Seq<char>
    recommends
        has_kernel(kernel),
{
    match kernel {
        Kernel::Display => "display"@,
        _ => "compute"@,
    }
}

/// `request` asks for `kernel` under the names of this profile.
pub open spec fn requests_kernel(request: PipelineRequest, kernel: Kernel) -> bool {
    &&& request.kernel == kernel
    &&& request.shader_path@ == shader_source()
    &&& request.entry_point@ == entry_name(kernel)
}

/// Computes [`shader_source`].
pub fn shader_path() -> (path: &'static str)
    ensures
        path@ == shader_source(),
{
    "shaders/cellular_automata.wgsl"
}

/// The entry point that implements `kernel`, if the profile has the kernel.
pub fn entry_point(kernel: Kernel) -> (name: Option<&'static str>)
    ensures
        name is Some <==> has_kernel(kernel),
        name matches Some(text) ==> text@ == entry_name(kernel),
{
    match kernel {
        Kernel::Randomize => None,
        Kernel::Update => Some("compute"),
        Kernel::Display => Some("display"),
    }
}

/// The pipelines of the per-cell profile: one handle per kernel, each
/// requested at most once.
#[derive(Clone, Copy, Debug)]
pub struct CAPipeline {
    handles: KernelHandles,
}

impl CAPipeline {
    /// The handle registered for `kernel`, if it has been requested.
    pub closed spec fn handle(&self, kernel: Kernel) -> Option<usize> {
        self.handles.lookup(kernel)
    }

    /// No handle is registered for a kernel the profile lacks.
    pub open spec fn wf(&self) -> bool {
        self.handle(Kernel::Randomize) is None
    }

    /// `kernel` alone if it still has to be requested, nothing otherwise.
    pub open spec fn missing(&self, kernel: Kernel) -> Seq<Kernel> {
        if self.handle(kernel) is None {
            seq![kernel]
        } else {
            Seq::empty()
        }
    }

    /// The kernels that still have to be requested, in request order:
    /// compute, display.
    pub open spec fn pending_kernels(&self) -> Seq<Kernel> {
        self.missing(Kernel::Update) + self.missing(Kernel::Display)
    }

    /// A registry in which no kernel has been requested.
    pub fn new() -> (pipeline: CAPipeline)
        ensures
            forall|kernel: Kernel| pipeline.handle(kernel) is None,
            pipeline.wf(),
    {
        CAPipeline { handles: KernelHandles::new() }
    }

    /// The compile requests that are still outstanding. A kernel that has a
    /// handle is never requested again.
    pub fn pending(&self) -> (requests: Vec<PipelineRequest>)
        ensures
            requests@.len() == self.pending_kernels().len(),
            forall|i: int|
                0 <= i < requests@.len() ==> requests_kernel(
                    #[trigger] requests@[i],
                    self.pending_kernels()[i],
                ),
    {
        let mut requests: Vec<PipelineRequest> = Vec::new();
        if self.handles.get(Kernel::Update).is_none() {
            requests.push(
                PipelineRequest {
                    kernel: Kernel::Update,
                    shader_path: shader_path(),
                    entry_point: "compute",
                },
            );
        }
        if self.handles.get(Kernel::Display).is_none() {
            requests.push(
                PipelineRequest {
                    kernel: Kernel::Display,
                    shader_path: shader_path(),
                    entry_point: "display",
                },
            );
        }
        requests
    }

    /// Records that `kernel` was compiled under `handle`, unless it already
    /// has a handle, and returns the handle it is known by from now on. A
    /// kernel that the profile lacks is not recorded.
    pub fn register(&mut self, kernel: Kernel, handle: usize) -> (cached: Option<usize>)
        ensures
            cached == if has_kernel(kernel) {
                match old(self).handle(kernel) {
                    Some(existing) => Some(existing),
                    None => Some(handle),
                }
            } else {
                None
            },
            has_kernel(kernel) ==> final(self).handle(kernel) == cached,
            forall|other: Kernel|
                other != kernel || !has_kernel(kernel) ==> final(self).handle(other) == old(
                    self,
                ).handle(other),
            old(self).wf() ==> final(self).wf(),
    {
        match kernel {
            Kernel::Randomize => None,
            _ => Some(self.handles.register(kernel, handle)),
        }
    }

    /// Computes [`Self::handle`].
    pub fn get(&self, kernel: Kernel) -> (handle: Option<usize>)
        ensures
            handle == self.handle(kernel),
    {
        self.handles.get(kernel)
    }

    /// Handle of the kernel that advances the grid.
    pub fn compute_pipeline(&self) -> (handle: Option<usize>)
        ensures
            handle == self.handle(Kernel::Update),
    {
        self.handles.get(Kernel::Update)
    }

    /// Handle of the kernel that renders the grid.
    pub fn display_pipeline(&self) -> (handle: Option<usize>)
        ensures
            handle == self.handle(Kernel::Display),
    {
        self.handles.get(Kernel::Display)
    }
}

} // verus!
