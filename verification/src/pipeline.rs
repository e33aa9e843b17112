//! Render pipelines and the binding layouts they are built over.

use vstd::prelude::*;
use crate::gpu::{
    BindGroup, BindGroupEntry, BindGroupId, BindGroupLayout, BindGroupLayoutEntry,
    BindGroupLayoutId, BindingResource, BindingType, BlendComponent, BufferId, CompareFunction,
    Face, FrontFace, IndexFormat, PipelineId, PolygonMode, PrimitiveTopology, ShaderId,
    ShaderStage, TextureFormat, TextureId, fragment_only,
};
use crate::texture::DEPTH_COMPARE;
use crate::vertex::VertexBufferLayout;

verus! {

/// How the colour and the alpha of a fragment are combined with the
/// target.
#[derive(Clone, Copy, Debug, PartialEq, Eq, Structural)]
pub struct BlendState {
    pub color: BlendComponent,
    pub alpha: BlendComponent,
}

/// The colour target of a pipeline. All four channels are written.
#[derive(Clone, Copy, Debug, PartialEq, Eq, Structural)]
pub struct ColorTargetState {
    pub format: TextureFormat,
    pub blend: Option<BlendState>,
    pub write_all: bool,
}

/// How primitives are assembled, faced, culled and filled.
#[derive(Clone, Copy, Debug, PartialEq, Eq, Structural)]
pub struct PrimitiveState {
    pub topology: PrimitiveTopology,
    pub strip_index_format: Option<IndexFormat>,
    pub front_face: FrontFace,
    pub cull_mode: Option<Face>,
    pub clamp_depth: bool,
    pub polygon_mode: PolygonMode,
    pub conservative: bool,
}

/// Depth testing of a pipeline. The stencil is left disabled and no bias
/// is applied.
#[derive(Clone, Copy, Debug, PartialEq, Eq, Structural)]
pub struct DepthStencilState {
    pub format: TextureFormat,
    pub depth_write_enabled: bool,
    pub depth_compare: CompareFunction,
}

/// How many samples a pixel has and which of them are written.
#[derive(Clone, Copy, Debug, PartialEq, Eq, Structural)]
pub struct MultisampleState {
    pub count: u32,
    pub mask: u64,
    pub alpha_to_coverage_enabled: bool,
}

/// Everything that a render pipeline is compiled from. The vertex and the
/// fragment stage both enter the named shader at its one entry point of
/// that stage.
#[derive(Clone, Debug, PartialEq, Eq)]
pub struct RenderPipeline {
    pub id: PipelineId,
    pub bind_group_layouts: Vec<BindGroupLayoutId>,
    pub shader: ShaderId,
    pub buffers: Vec<VertexBufferLayout>,
    pub target: ColorTargetState,
    pub primitive: PrimitiveState,
    pub depth_stencil: Option<DepthStencilState>,
    pub multisample: MultisampleState,
}

/// Filled triangles from a list, counter-clockwise ones facing front, with
/// the given faces culled.
pub open spec fn triangle_list(cull_mode: Option<Face>) -> PrimitiveState {
    PrimitiveState {
        topology: PrimitiveTopology::TriangleList,
        strip_index_format: None,
        front_face: FrontFace::Ccw,
        cull_mode,
        clamp_depth: false,
        polygon_mode: PolygonMode::Fill,
        conservative: false,
    }
}

/// A colour target whose every channel the fragment overwrites.
pub open spec fn replace_target(format: TextureFormat) -> ColorTargetState {
    ColorTargetState {
        format,
        blend: Some(
            BlendState { color: BlendComponent::Replace, alpha: BlendComponent::Replace },
        ),
        write_all: true,
    }
}

/// Depth testing that writes, and passes what is no farther than what is
/// there.
pub open spec fn depth_test(format: TextureFormat) -> DepthStencilState {
    DepthStencilState {
        format,
        depth_write_enabled: true,
        depth_compare: CompareFunction::LessEqual,
    }
}

/// Depth testing where a depth format is given, none where it is not.
pub open spec fn depth_test_for(format: Option<TextureFormat>) -> Option<DepthStencilState> {
    match format {
        Some(f) => Some(depth_test(f)),
        None => None,
    }
}

/// One sample a pixel, all of it enabled.
pub open spec fn single_sample() -> MultisampleState {
    MultisampleState { count: 1, mask: 0xffff_ffff_ffff_ffff, alpha_to_coverage_enabled: false }
}

impl RenderPipeline {
    /// `self` is the pipeline that `create_render_pipeline` builds from
    /// the given parts.
    pub open spec fn built_from(
        self,
        id: PipelineId,
        bind_group_layouts: Seq<BindGroupLayoutId>,
        shader: ShaderId,
        buffers: Seq<VertexBufferLayout>,
        color_format: TextureFormat,
        depth_format: Option<TextureFormat>,
        cull_mode: Option<Face>,
    ) -> bool {
        &&& self.id == id
        &&& self.bind_group_layouts@ == bind_group_layouts
        &&& self.shader == shader
        &&& self.buffers@ == buffers
        &&& self.target == replace_target(color_format)
        &&& self.primitive == triangle_list(cull_mode)
        &&& self.depth_stencil == depth_test_for(depth_format)
        &&& self.multisample == single_sample()
    }
}

/// Describes a pipeline over a shader and a set of vertex layouts: a
/// triangle list with counter-clockwise front faces, the given faces
/// culled, the fragment replacing the target in `color_format`, one sample
/// a pixel; and, where a depth format is given, depth testing that writes
/// and compares with less-or-equal.
pub fn create_render_pipeline(
    id: PipelineId,
    bind_group_layouts: Vec<BindGroupLayoutId>,
    shader: ShaderId,
    buffers: Vec<VertexBufferLayout>,
    color_format: TextureFormat,
    depth_format: Option<TextureFormat>,
    cull_mode: Option<Face>,
) -> (pipeline: RenderPipeline)
    ensures
        pipeline.built_from(
            id,
            bind_group_layouts@,
            shader,
            buffers@,
            color_format,
            depth_format,
            cull_mode,
        ),
{
    let depth_stencil = match depth_format {
        Some(format) => Some(
            DepthStencilState { format, depth_write_enabled: true, depth_compare: DEPTH_COMPARE },
        ),
        None => None,
    };
    RenderPipeline {
        id,
        bind_group_layouts,
        shader,
        buffers,
        target: ColorTargetState {
            format: color_format,
            blend: Some(
                BlendState { color: BlendComponent::Replace, alpha: BlendComponent::Replace },
            ),
            write_all: true,
        },
        primitive: PrimitiveState {
            topology: PrimitiveTopology::TriangleList,
            strip_index_format: None,
            front_face: FrontFace::Ccw,
            cull_mode,
            clamp_depth: false,
            polygon_mode: PolygonMode::Fill,
            conservative: false,
        },
        depth_stencil,
        multisample: MultisampleState {
            count: 1,
            mask: 0xffff_ffff_ffff_ffff,
            alpha_to_coverage_enabled: false,
        },
    }
}

/// The layout of a material's set: a colour texture at binding 0 and a
/// filtering sampler at binding 1, both for the fragment stage.
pub open spec fn texture_layout() -> BindGroupLayout {
    BindGroupLayout {
        id: BindGroupLayoutId::Texture,
        first: BindGroupLayoutEntry {
            binding: 0,
            visibility: fragment_only(),
            ty: BindingType::ColorTexture,
        },
        second: Some(
            BindGroupLayoutEntry {
                binding: 1,
                visibility: fragment_only(),
                ty: BindingType::Sampler { filtering: true, comparison: false },
            },
        ),
    }
}

/// The layout of the depth view's set: the depth texture at binding 0 and
/// a comparison sampler at binding 1, both for the fragment stage.
pub open spec fn depth_layout() -> BindGroupLayout {
    BindGroupLayout {
        id: BindGroupLayoutId::Depth,
        first: BindGroupLayoutEntry {
            binding: 0,
            visibility: fragment_only(),
            ty: BindingType::DepthTexture,
        },
        second: Some(
            BindGroupLayoutEntry {
                binding: 1,
                visibility: fragment_only(),
                ty: BindingType::Sampler { filtering: true, comparison: true },
            },
        ),
    }
}

/// A layout of one uniform buffer at binding 0, seen by the given stages.
pub open spec fn uniform_layout(id: BindGroupLayoutId, visibility: ShaderStage) -> BindGroupLayout {
    BindGroupLayout {
        id,
        first: BindGroupLayoutEntry { binding: 0, visibility, ty: BindingType::UniformBuffer },
        second: None,
    }
}

/// The set of the depth view: the depth texture and its sampler.
pub open spec fn depth_bind_group() -> BindGroup {
    BindGroup {
        id: BindGroupId::Depth,
        layout: BindGroupLayoutId::Depth,
        first: BindGroupEntry {
            binding: 0,
            resource: BindingResource::TextureView(TextureId::Depth),
        },
        second: Some(
            BindGroupEntry { binding: 1, resource: BindingResource::Sampler(TextureId::Depth) },
        ),
    }
}

/// A set of one whole buffer at binding 0.
pub open spec fn buffer_bind_group(
    id: BindGroupId,
    layout: BindGroupLayoutId,
    buffer: BufferId,
) -> BindGroup {
    BindGroup {
        id,
        layout,
        first: BindGroupEntry { binding: 0, resource: BindingResource::Buffer(buffer) },
        second: None,
    }
}

/// The layout of a material's set.
pub fn create_texture_layout() -> (layout: BindGroupLayout)
    ensures
        layout == texture_layout(),
{
    BindGroupLayout {
        id: BindGroupLayoutId::Texture,
        first: BindGroupLayoutEntry {
            binding: 0,
            visibility: ShaderStage::fragment(),
            ty: BindingType::ColorTexture,
        },
        second: Some(
            BindGroupLayoutEntry {
                binding: 1,
                visibility: ShaderStage::fragment(),
                ty: BindingType::Sampler { filtering: true, comparison: false },
            },
        ),
    }
}

/// The layout of the depth view's set.
pub fn create_depth_layout() -> (layout: BindGroupLayout)
    ensures
        layout == depth_layout(),
{
    BindGroupLayout {
        id: BindGroupLayoutId::Depth,
        first: BindGroupLayoutEntry {
            binding: 0,
            visibility: ShaderStage::fragment(),
            ty: BindingType::DepthTexture,
        },
        second: Some(
            BindGroupLayoutEntry {
                binding: 1,
                visibility: ShaderStage::fragment(),
                ty: BindingType::Sampler { filtering: true, comparison: true },
            },
        ),
    }
}

/// A layout of one uniform buffer, seen by the given stages.
pub fn create_uniform_layout(id: BindGroupLayoutId, visibility: ShaderStage) -> (layout:
    BindGroupLayout)
    ensures
        layout == uniform_layout(id, visibility),
{
    BindGroupLayout {
        id,
        first: BindGroupLayoutEntry { binding: 0, visibility, ty: BindingType::UniformBuffer },
        second: None,
    }
}

/// The set of the depth view.
pub fn create_depth_bind_group() -> (group: BindGroup)
    ensures
        group == depth_bind_group(),
{
    BindGroup {
        id: BindGroupId::Depth,
        layout: BindGroupLayoutId::Depth,
        first: BindGroupEntry {
            binding: 0,
            resource: BindingResource::TextureView(TextureId::Depth),
        },
        second: Some(
            BindGroupEntry { binding: 1, resource: BindingResource::Sampler(TextureId::Depth) },
        ),
    }
}

/// A set of one whole buffer.
pub fn create_buffer_bind_group(
    id: BindGroupId,
    layout: BindGroupLayoutId,
    buffer: BufferId,
) -> (group: BindGroup)
    ensures
        group == buffer_bind_group(id, layout, buffer),
{
    BindGroup {
        id,
        layout,
        first: BindGroupEntry { binding: 0, resource: BindingResource::Buffer(buffer) },
        second: None,
    }
}

} // verus!
