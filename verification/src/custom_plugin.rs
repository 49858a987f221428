//! The single-kernel profile: one shader that draws straight into the
//! output image from the elapsed time.

use crate::binding::{memory_image, words_as_bytes, BindingType};
use crate::cellular_automata::data_structs::Resolution;
use crate::dispatch::{planar_cover, planar_workgroups, Kernel, Workgroups};
use crate::registry::PipelineRequest;
use vstd::prelude::*;

verus! {

/// Invocations per workgroup of the kernel, along each axis.
pub const WORKGROUP_SIZE: u32 = 8;

/// Size of the time buffer in bytes: one word.
pub const UNIFORM_BLOCK_BYTES: u64 = 4;

/// The binding layout of the kernel, in binding-index order: the time, then
/// the output image.
pub open spec fn custom_layout() -> Seq<BindingType> {
    seq![BindingType::UniformBuffer, BindingType::StorageTexture]
}

/// Builds [`custom_layout`]: entry `i` describes binding `i`.
pub fn layout_entries() -> (entries: Vec<BindingType>)
    ensures
        entries@ == custom_layout(),
{
    let mut entries: Vec<BindingType> = Vec::new();
    entries.push(BindingType::UniformBuffer);
    entries.push(BindingType::StorageTexture);
    entries
}

/// The request that compiles the kernel.
pub fn pipeline_request() -> (request: PipelineRequest)
    ensures
        request.kernel == Kernel::Display,
        request.shader_path@ == "shaders/shader.wgsl"@,
        request.entry_point@ == "main"@,
{
    PipelineRequest {
        kernel: Kernel::Display,
        shader_path: "shaders/shader.wgsl",
        entry_point: "main",
    }
}

/// The contents of the time buffer behind this frame's bind group, or none
/// while the output image is not resolvable. `time` is the encoding of the
/// elapsed time as a single-precision floating-point number.
pub fn prepare_bind_group(time: u32, image_resolvable: bool) -> (contents: Option<Vec<u8>>)
    ensures
        contents is Some <==> image_resolvable,
        contents matches Some(bytes) ==> memory_image(seq![time], bytes@) && bytes@.len()
            == UNIFORM_BLOCK_BYTES,
{
    if image_resolvable {
        let mut words: Vec<u32> = Vec::new();
        words.push(time);
        assert(words@ == seq![time]);
        Some(words_as_bytes(&words))
    } else {
        None
    }
}

/// The render-graph node of the single-kernel profile.
#[derive(Clone, Copy, Debug, Default)]
pub struct CustomShaderNode;

impl CustomShaderNode {
    /// The workgroups that cover the output image, or none while the kernel
    /// is not ready or no bind group is live.
    pub fn run(&self, resolution: Resolution, ready: bool, bound: bool) -> (workgroups: Option<
        Workgroups,
    >)
        ensures
            workgroups == if ready && bound {
                Some(
                    planar_cover(
                        resolution.0 as int,
                        resolution.1 as int,
                        WORKGROUP_SIZE as int,
                    ),
                )
            } else {
                None
            },
    {
        if ready && bound {
            Some(planar_workgroups(resolution.0, resolution.1, WORKGROUP_SIZE))
        } else {
            None
        }
    }
}

} // verus!
