//! The depth buffer and the pass that shows it on screen.
//!
//! The depth attachment always has the size of the presentation chain: it
//! is made with the chain's size and made anew whenever that changes.

use vstd::prelude::*;
use crate::gpu::{
    BindGroup, BindGroupLayout, BindGroupLayoutId, Buffer, BufferId, Face, IndexFormat,
    InputStepMode, PipelineId, ShaderId, SwapChainDescriptor, index_usage, vertex_usage,
};
use crate::bytes::{is_half_image, is_word_image};
use crate::pass::{
    ColorAttachment, ColorLoad, RenderCommand, RenderPass, RenderPassDescriptor,
};
use crate::pipeline::{
    RenderPipeline, create_depth_bind_group, create_depth_layout, create_render_pipeline,
    depth_bind_group, depth_layout,
};
use crate::texture::Texture;
use crate::vertex::{ONE, ZERO, Vertex, VertexBufferLayout, create_mesh_buffers, vertex_attributes};

verus! {

/// The words of the quad on which the depth buffer is shown: the corners
/// of the unit square counter-clockwise from the origin, each with the
/// texture coordinate that puts the top of the image at the top.
pub open spec fn plane_words() -> Seq<u32> {
    seq![
        ZERO, ZERO, ZERO, ZERO, ONE,
        ONE, ZERO, ZERO, ONE, ONE,
        ONE, ONE, ZERO, ONE, ZERO,
        ZERO, ONE, ZERO, ZERO, ZERO,
    ]
}

/// The two triangles of the quad.
pub open spec fn plane_indices() -> Seq<u16> {
    seq![0u16, 1u16, 2u16, 0u16, 2u16, 3u16]
}

/// The label of the depth attachment.
pub open spec fn depth_label() -> Seq<char> {
    "depth_texture"@
}

/// The four corners of the quad.
pub fn plane() -> (vertices: Vec<Vertex>)
    ensures
        vertices@.len() == 4,
        crate::vertex::vertex_words(vertices@) == plane_words(),
{
    let mut vertices: Vec<Vertex> = Vec::new();
    vertices.push(Vertex { position: [ZERO, ZERO, ZERO], tex_coords: [ZERO, ONE] });
    vertices.push(Vertex { position: [ONE, ZERO, ZERO], tex_coords: [ONE, ONE] });
    vertices.push(Vertex { position: [ONE, ONE, ZERO], tex_coords: [ONE, ZERO] });
    vertices.push(Vertex { position: [ZERO, ONE, ZERO], tex_coords: [ZERO, ZERO] });
    vertices
}

/// The indices of the two triangles of the quad.
pub fn plane_index_list() -> (indices: Vec<u16>)
    ensures
        indices@ == plane_indices(),
{
    let mut indices: Vec<u16> = Vec::new();
    indices.push(0);
    indices.push(1);
    indices.push(2);
    indices.push(0);
    indices.push(2);
    indices.push(3);
    indices
}

/// The depth buffer with all that is needed to show it.
#[derive(Clone, Debug, PartialEq, Eq)]
pub struct DepthPass {
    pub texture: Texture,
    pub bind_group_layout: BindGroupLayout,
    pub bind_group: BindGroup,
    pub vertex_buffer: Buffer,
    pub index_buffer: Buffer,
    pub num_depth_indices: u32,
    pub render_pipeline: RenderPipeline,
}

/// The commands of the pass that shows the depth buffer: its pipeline,
/// its set at group 0, the quad's vertices at slot 0, the quad's 16-bit
/// indices, and one indexed draw of one instance.
pub open spec fn depth_view_commands(pass: DepthPass) -> Seq<RenderCommand> {
    seq![
        RenderCommand::SetPipeline(PipelineId::DepthView),
        RenderCommand::SetBindGroup { index: 0, group: pass.bind_group.id },
        RenderCommand::SetVertexBuffer { slot: 0, buffer: pass.vertex_buffer.id },
        RenderCommand::SetIndexBuffer { buffer: pass.index_buffer.id, format: IndexFormat::Uint16 },
        RenderCommand::DrawIndexed {
            first_index: 0,
            end_index: pass.num_depth_indices,
            base_vertex: 0,
            first_instance: 0,
            end_instance: 1,
        },
    ]
}

/// The pass that shows the depth buffer keeps what is on the colour target
/// and uses no depth attachment itself.
pub open spec fn depth_view_descriptor() -> RenderPassDescriptor {
    RenderPassDescriptor {
        color: ColorAttachment { load: ColorLoad::Load, store: true },
        depth: None,
    }
}

impl DepthPass {
    /// The depth attachment has the given size.
    pub open spec fn sized(self, width: u32, height: u32) -> bool {
        &&& self.texture.is_depth(width, height)
        &&& self.texture.label_view() == Some(depth_label())
        &&& self.bind_group == depth_bind_group()
    }

    /// The parts that do not depend on the size are as `new` makes them
    /// for a presentation chain of the given descriptor.
    pub open spec fn fixed_parts(self, sc_desc: SwapChainDescriptor) -> bool {
        &&& self.bind_group_layout == depth_layout()
        &&& self.vertex_buffer.id == BufferId::DepthQuadVertices
        &&& self.vertex_buffer.usage == vertex_usage()
        &&& is_word_image(self.vertex_buffer.contents@, plane_words())
        &&& self.index_buffer.id == BufferId::DepthQuadIndices
        &&& self.index_buffer.usage == index_usage()
        &&& is_half_image(self.index_buffer.contents@, plane_indices())
        &&& self.num_depth_indices == 6
        &&& self.render_pipeline.buffers@.len() == 1
        &&& self.render_pipeline.buffers@[0].array_stride == 20
        &&& self.render_pipeline.buffers@[0].step_mode == InputStepMode::Vertex
        &&& self.render_pipeline.buffers@[0].attributes@ == vertex_attributes()
        &&& self.render_pipeline.built_from(
            PipelineId::DepthView,
            seq![BindGroupLayoutId::Depth],
            ShaderId::DepthView,
            self.render_pipeline.buffers@,
            sc_desc.format,
            None,
            Some(Face::Back),
        )
    }

    /// The depth buffer for a presentation chain, with the quad, the set
    /// and the pipeline that show it.
    pub fn new(sc_desc: &SwapChainDescriptor) -> (pass: DepthPass)
        ensures
            pass.sized(sc_desc.width, sc_desc.height),
            pass.fixed_parts(*sc_desc),
    {
        let texture = Texture::create_depth_texture(sc_desc, "depth_texture");
        let bind_group_layout = create_depth_layout();
        let bind_group = create_depth_bind_group();
        let vertices = plane();
        let indices = plane_index_list();
        let (vertex_buffer, index_buffer, num_depth_indices) = create_mesh_buffers(
            BufferId::DepthQuadVertices,
            BufferId::DepthQuadIndices,
            &vertices,
            &indices,
        ).unwrap();
        let mut layouts: Vec<BindGroupLayoutId> = Vec::new();
        layouts.push(bind_group_layout.id);
        let mut buffers: Vec<VertexBufferLayout> = Vec::new();
        buffers.push(Vertex::desc());
        let render_pipeline = create_render_pipeline(
            PipelineId::DepthView,
            layouts,
            ShaderId::DepthView,
            buffers,
            sc_desc.format,
            None,
            Some(Face::Back),
        );
        DepthPass {
            texture,
            bind_group_layout,
            bind_group,
            vertex_buffer,
            index_buffer,
            num_depth_indices,
            render_pipeline,
        }
    }

    /// Makes the depth attachment anew for a presentation chain that has
    /// changed, and binds the new one. Nothing else changes.
    pub fn resize(&mut self, sc_desc: &SwapChainDescriptor)
        ensures
            final(self).sized(sc_desc.width, sc_desc.height),
            final(self).bind_group_layout == old(self).bind_group_layout,
            final(self).vertex_buffer == old(self).vertex_buffer,
            final(self).index_buffer == old(self).index_buffer,
            final(self).num_depth_indices == old(self).num_depth_indices,
            final(self).render_pipeline == old(self).render_pipeline,
    {
        self.texture = Texture::create_depth_texture(sc_desc, "depth_texture");
        self.bind_group = create_depth_bind_group();
    }

    /// Records the pass that shows the depth buffer over the frame.
    pub fn render(&self) -> (pass: RenderPass)
        ensures
            pass.desc == depth_view_descriptor(),
            pass.commands@ == depth_view_commands(*self),
    {
        let mut render_pass = RenderPass::begin(
            RenderPassDescriptor {
                color: ColorAttachment { load: ColorLoad::Load, store: true },
                depth: None,
            },
        );
        render_pass.set_pipeline(PipelineId::DepthView);
        render_pass.set_bind_group(0, self.bind_group.id);
        render_pass.set_vertex_buffer(0, self.vertex_buffer.id);
        render_pass.set_index_buffer(self.index_buffer.id, IndexFormat::Uint16);
        render_pass.draw_indexed(0..self.num_depth_indices, 0, 0..1);
        render_pass
    }
}

} // verus!
