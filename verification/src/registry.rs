//! Handles of the compute pipelines that were requested from the device.

use crate::dispatch::Kernel;
use vstd::prelude::*;

verus! {

/// A request to compile one kernel against the shared binding layout.
#[derive(Clone, Copy, Debug)]
pub struct PipelineRequest {
    pub kernel: Kernel,
    /// Asset path of the shader source that defines the kernel.
    pub shader_path: &'static str,
    /// Name of the kernel's entry point in that source.
    pub entry_point: &'static str,
}

/// The handle each kernel was registered under, if any. A handle is an
/// opaque number chosen by whoever compiles the kernels.
#[derive(Clone, Copy, Debug)]
pub struct KernelHandles {
    randomize: Option<usize>,
    update: Option<usize>,
    display: Option<usize>,
}

impl KernelHandles {
    /// The handle registered for `kernel`, if it has been requested.
    pub closed spec fn lookup(&self, kernel: Kernel) -> Option<usize> {
        match kernel {
            Kernel::Randomize => self.randomize,
            Kernel::Update => self.update,
            Kernel::Display => self.display,
        }
    }

    /// A registry in which no kernel has been requested.
    pub fn new() -> (handles: KernelHandles)
        ensures
            forall|kernel: Kernel| handles.lookup(kernel) is None,
    {
        KernelHandles { randomize: None, update: None, display: None }
    }

    /// Computes [`Self::lookup`].
    pub fn get(&self, kernel: Kernel) -> (handle: Option<usize>)
        ensures
            handle == self.lookup(kernel),
    {
        match kernel {
            Kernel::Randomize => self.randomize,
            Kernel::Update => self.update,
            Kernel::Display => self.display,
        }
    }

    /// Registers `handle` for `kernel` unless one is registered already, and
    /// returns the handle the kernel is known by from now on. Registering a
    /// kernel twice leaves the first handle in place.
    pub fn register(&mut self, kernel: Kernel, handle: usize) -> (cached: usize)
        ensures
            cached == match old(self).lookup(kernel) {
                Some(existing) => existing,
                None => handle,
            },
            final(self).lookup(kernel) == Some(cached),
            forall|other: Kernel|
                other != kernel ==> final(self).lookup(other) == old(self).lookup(other),
    {
        match self.get(kernel) {
            Some(existing) => existing,
            None => {
                match kernel {
                    Kernel::Randomize => {
                        self.randomize = Some(handle);
                    },
                    Kernel::Update => {
                        self.update = Some(handle);
                    },
                    Kernel::Display => {
                        self.display = Some(handle);
                    },
                }
                handle
            },
        }
    }
}

} // verus!
