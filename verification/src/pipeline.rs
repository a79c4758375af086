//! The one kind of graphics pipeline the engine draws with.

use vstd::prelude::*;
use crate::descriptors::{SHADER_STAGE_FRAGMENT, SHADER_STAGE_VERTEX};
use crate::device::{Extent, Physical};
use crate::mesh::PUSH_CONSTANT_BYTES;
use crate::teardown::{destroy_each, push_destroy_each, ObjectKind, Release};

verus! {

/// `VK_PRIMITIVE_TOPOLOGY_TRIANGLE_LIST`.
pub const TOPOLOGY_TRIANGLE_LIST: i32 = 3;

/// `VK_POLYGON_MODE_FILL`.
pub const POLYGON_MODE_FILL: i32 = 0;

/// `VK_CULL_MODE_NONE`.
pub const CULL_MODE_NONE: u32 = 0;

/// `VK_FRONT_FACE_CLOCKWISE`.
pub const FRONT_FACE_CLOCKWISE: i32 = 1;

/// `VK_COMPARE_OP_LESS_OR_EQUAL`.
pub const COMPARE_OP_LESS_OR_EQUAL: i32 = 3;

/// Red, green, blue and alpha of `VkColorComponentFlagBits`.
pub const COLOR_WRITE_ALL: u32 = 0xf;

/// The bits of the float 1.0.
pub const ONE: u32 = 0x3f80_0000;

/// The range of push constants of a pipeline layout.
#[derive(Clone, Copy, Debug, PartialEq, Eq, Structural)]
pub struct PushConstantRange {
    pub stage_flags: u32,
    pub offset: u32,
    pub size: u32,
}

/// One programmable stage of the pipeline: the stage, the shader module
/// that holds its code, and the name of the function it enters at.
#[derive(Debug)]
pub struct ShaderStage {
    pub stage: u32,
    pub module: u64,
    pub entry_point: String,
}

/// The fixed-function state of the pipeline. What is not listed is
/// switched off: primitive restart, depth clamp, rasterizer discard, depth
/// bias, sample shading, blending, logic operations, the depth bounds test
/// and the stencil test.
#[derive(Clone, Copy, Debug, PartialEq, Eq, Structural)]
pub struct PipelineInfo {
    pub layout: u64,
    pub render_pass: u64,
    pub subpass: u32,
    pub topology: i32,
    pub polygon_mode: i32,
    pub cull_mode: u32,
    pub front_face: i32,
    /// The line width, as the bits of a float.
    pub line_width: u32,
    pub rasterization_samples: u32,
    pub color_write_mask: u32,
    /// The viewport and the scissor both cover this extent from the
    /// origin.
    pub viewport: Extent,
    /// The viewport's depth range, as the bits of two floats.
    pub min_depth: u32,
    pub max_depth: u32,
    pub depth_test: bool,
    pub depth_write: bool,
    pub depth_compare_op: i32,
}

/// A pipeline layout and the pipelines created with it.
#[derive(Debug)]
pub struct PipelineStruct {
    pub pipelines: Vec<u64>,
    pub pipeline_layout: u64,
}

impl PipelineStruct {
    /// What destroying consists of: every pipeline, then the layout they
    /// were created with.
    pub open spec fn teardown_steps<A>(&self) -> Seq<Release<A>> {
        destroy_each::<A>(ObjectKind::Pipeline, self.pipelines@) + seq![
            Release::<A>::Destroy(ObjectKind::PipelineLayout, self.pipeline_layout),
        ]
    }

    /// The push constants of the layout: one 4x4 matrix for the vertex
    /// stage, at offset 0.
    pub fn push_constant_range() -> (range: PushConstantRange)
        ensures
            range == (PushConstantRange {
                stage_flags: SHADER_STAGE_VERTEX,
                offset: 0,
                size: PUSH_CONSTANT_BYTES,
            }),
    {
        PushConstantRange { stage_flags: SHADER_STAGE_VERTEX, offset: 0, size: PUSH_CONSTANT_BYTES }
    }

    /// The stages of the pipeline: the vertex shader, then the fragment
    /// shader, both entered at `main`.
    pub fn shader_stages(vertex_module: u64, fragment_module: u64) -> (stages: Vec<ShaderStage>)
        ensures
            stages@.len() == 2,
            stages@[0].stage == SHADER_STAGE_VERTEX,
            stages@[0].module == vertex_module,
            stages@[0].entry_point@ == "main"@,
            stages@[1].stage == SHADER_STAGE_FRAGMENT,
            stages@[1].module == fragment_module,
            stages@[1].entry_point@ == "main"@,
    {
        let mut stages: Vec<ShaderStage> = Vec::new();
        stages.push(
            ShaderStage {
                stage: SHADER_STAGE_VERTEX,
                module: vertex_module,
                entry_point: "main".to_string(),
            },
        );
        stages.push(
            ShaderStage {
                stage: SHADER_STAGE_FRAGMENT,
                module: fragment_module,
                entry_point: "main".to_string(),
            },
        );
        stages
    }

    /// Describes the pipeline: filled triangles from a triangle list, no
    /// culling, one sample, depth tested and written with less-or-equal,
    /// over the whole of the surface as it is now.
    pub fn create_info(physical: &Physical, render_pass: u64, layout: u64) -> (info: PipelineInfo)
        ensures
            info.layout == layout,
            info.render_pass == render_pass,
            info.subpass == 0,
            info.topology == TOPOLOGY_TRIANGLE_LIST,
            info.polygon_mode == POLYGON_MODE_FILL,
            info.cull_mode == CULL_MODE_NONE,
            info.front_face == FRONT_FACE_CLOCKWISE,
            info.line_width == ONE,
            info.rasterization_samples == 1,
            info.color_write_mask == COLOR_WRITE_ALL,
            info.viewport == physical.surface_caps.current_extent,
            info.min_depth == 0,
            info.max_depth == ONE,
            info.depth_test,
            info.depth_write,
            info.depth_compare_op == COMPARE_OP_LESS_OR_EQUAL,
    {
        PipelineInfo {
            layout,
            render_pass,
            subpass: 0,
            topology: TOPOLOGY_TRIANGLE_LIST,
            polygon_mode: POLYGON_MODE_FILL,
            cull_mode: CULL_MODE_NONE,
            front_face: FRONT_FACE_CLOCKWISE,
            line_width: ONE,
            rasterization_samples: 1,
            color_write_mask: COLOR_WRITE_ALL,
            viewport: physical.surface_caps.current_extent,
            min_depth: 0,
            max_depth: ONE,
            depth_test: true,
            depth_write: true,
            depth_compare_op: COMPARE_OP_LESS_OR_EQUAL,
        }
    }

    /// Holds the layout and the pipelines that were created with it.
    pub fn new(pipelines: Vec<u64>, pipeline_layout: u64) -> (pipeline: PipelineStruct)
        ensures
            pipeline.pipelines == pipelines,
            pipeline.pipeline_layout == pipeline_layout,
    {
        PipelineStruct { pipelines, pipeline_layout }
    }

    /// Appends the steps that destroy the pipelines and their layout.
    pub fn push_teardown<A>(&self, steps: &mut Vec<Release<A>>)
        ensures
            final(steps)@ == old(steps)@ + self.teardown_steps::<A>(),
    {
        push_destroy_each(steps, ObjectKind::Pipeline, &self.pipelines);
        steps.push(Release::Destroy(ObjectKind::PipelineLayout, self.pipeline_layout));
        proof {
            assert(steps@ =~= old(steps)@ + self.teardown_steps::<A>());
        }
    }
}

} // verus!
