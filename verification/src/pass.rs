//! Render passes as recorded lists of commands.
//!
//! A pass names its attachments and collects the commands issued against
//! it. Whoever owns the device replays the list in order.

use vstd::prelude::*;
use crate::gpu::{BindGroupId, BufferId, IndexFormat, PipelineId, Rgb};

verus! {

/// One command of a render pass.
#[derive(Clone, Copy, Debug, PartialEq, Eq, Structural)]
pub enum RenderCommand {
    SetPipeline(PipelineId),
    /// Binds a resource-binding set at a group index, without offsets.
    SetBindGroup { index: u32, group: BindGroupId },
    /// Binds the whole of a buffer at a vertex slot.
    SetVertexBuffer { slot: u32, buffer: BufferId },
    /// Binds the whole of a buffer as the indices.
    SetIndexBuffer { buffer: BufferId, format: IndexFormat },
    /// Draws the indices from `first_index` up to `end_index` for the
    /// instances from `first_instance` up to `end_instance`; both ends are
    /// left out.
    DrawIndexed {
        first_index: u32,
        end_index: u32,
        base_vertex: i32,
        first_instance: u32,
        end_instance: u32,
    },
}

/// What happens to the colour target when a pass begins.
#[derive(Clone, Copy, Debug, PartialEq, Eq, Structural)]
pub enum ColorLoad {
    Clear(Rgb),
    Load,
}

/// What happens to the depth attachment when a pass begins.
#[derive(Clone, Copy, Debug, PartialEq, Eq, Structural)]
pub enum DepthLoad {
    /// Every pixel is set to the far plane, depth 1.
    ClearToFar,
    Load,
}

/// The colour target of a pass: the current image of the presentation
/// chain, never resolved into another.
#[derive(Clone, Copy, Debug, PartialEq, Eq, Structural)]
pub struct ColorAttachment {
    pub load: ColorLoad,
    pub store: bool,
}

/// The use a pass makes of the shared depth buffer. There is no stencil.
#[derive(Clone, Copy, Debug, PartialEq, Eq, Structural)]
pub struct DepthAttachment {
    pub load: DepthLoad,
    pub store: bool,
}

/// The attachments of a pass.
#[derive(Clone, Copy, Debug, PartialEq, Eq, Structural)]
pub struct RenderPassDescriptor {
    pub color: ColorAttachment,
    pub depth: Option<DepthAttachment>,
}

/// A pass that is being recorded.
#[derive(Clone, Debug, PartialEq, Eq)]
pub struct RenderPass {
    pub desc: RenderPassDescriptor,
    pub commands: Vec<RenderCommand>,
}

/// A pass as contracts see it: its attachments and the commands recorded
/// so far.
#[verifier::ext_equal]
pub struct PassView {
    pub desc: RenderPassDescriptor,
    pub commands: Seq<RenderCommand>,
}

impl PassView {
    /// The pass with more commands recorded after those it has.
    pub open spec fn with(self, more: Seq<RenderCommand>) -> PassView {
        PassView { desc: self.desc, commands: self.commands + more }
    }
}

impl View for RenderPass {
    type V = PassView;

    open spec fn view(&self) -> PassView {
        PassView { desc: self.desc, commands: self.commands@ }
    }
}

impl RenderPass {
    /// Begins a pass with nothing recorded.
    pub fn begin(desc: RenderPassDescriptor) -> (pass: RenderPass)
        ensures
            pass.desc == desc,
            pass.commands@ == Seq::<RenderCommand>::empty(),
    {
        RenderPass { desc, commands: Vec::new() }
    }

    /// Records the choice of a pipeline.
    pub fn set_pipeline(&mut self, pipeline: PipelineId)
        ensures
            final(self).desc == old(self).desc,
            final(self).commands@ == old(self).commands@.push(RenderCommand::SetPipeline(pipeline)),
    {
        self.commands.push(RenderCommand::SetPipeline(pipeline));
    }

    /// Records the binding of a set at a group index.
    pub fn set_bind_group(&mut self, index: u32, group: BindGroupId)
        ensures
            final(self).desc == old(self).desc,
            final(self).commands@ == old(self).commands@.push(
                RenderCommand::SetBindGroup { index, group },
            ),
    {
        self.commands.push(RenderCommand::SetBindGroup { index, group });
    }

    /// Records the binding of a whole buffer at a vertex slot.
    pub fn set_vertex_buffer(&mut self, slot: u32, buffer: BufferId)
        ensures
            final(self).desc == old(self).desc,
            final(self).commands@ == old(self).commands@.push(
                RenderCommand::SetVertexBuffer { slot, buffer },
            ),
    {
        self.commands.push(RenderCommand::SetVertexBuffer { slot, buffer });
    }

    /// Records the binding of a whole buffer as the indices.
    pub fn set_index_buffer(&mut self, buffer: BufferId, format: IndexFormat)
        ensures
            final(self).desc == old(self).desc,
            final(self).commands@ == old(self).commands@.push(
                RenderCommand::SetIndexBuffer { buffer, format },
            ),
    {
        self.commands.push(RenderCommand::SetIndexBuffer { buffer, format });
    }

    /// Records an indexed draw of the given indices and instances.
    pub fn draw_indexed(
        &mut self,
        indices: core::ops::Range<u32>,
        base_vertex: i32,
        instances: core::ops::Range<u32>,
    )
        ensures
            final(self).desc == old(self).desc,
            final(self).commands@ == old(self).commands@.push(
                draw_indexed_command(indices, base_vertex, instances),
            ),
    {
        self.commands.push(
            RenderCommand::DrawIndexed {
                first_index: indices.start,
                end_index: indices.end,
                base_vertex,
                first_instance: instances.start,
                end_instance: instances.end,
            },
        );
    }
}

/// The command of an indexed draw of the given indices and instances.
pub open spec fn draw_indexed_command(
    indices: core::ops::Range<u32>,
    base_vertex: i32,
    instances: core::ops::Range<u32>,
) -> RenderCommand {
    RenderCommand::DrawIndexed {
        first_index: indices.start,
        end_index: indices.end,
        base_vertex,
        first_instance: instances.start,
        end_instance: instances.end,
    }
}

} // verus!
