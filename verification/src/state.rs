//! The render state: one aggregate that owns the description of every GPU
//! resource across frames, reconciles the size-dependent ones with the
//! window, and records each frame's passes.

use vstd::prelude::*;
use crate::bytes::is_word_image;
use crate::depth_pass::DepthPass;
use crate::gpu::{
    AspectRatio, BindGroup, BindGroupId, BindGroupLayout, BindGroupLayoutId, BufferId,
    BufferWrite, CompareFunction, Face, IndexFormat, InputStepMode, PhysicalSize, PipelineId,
    PresentMode, Rgb, ShaderId, ShaderStage, SwapChainDescriptor, SwapChainError, TextureFormat,
    TextureUsage, no_texture_usage, vertex_and_fragment,
};
use crate::instance::{
    INSTANCE_SLOT, Instance, InstanceRaw, build_instances, grid, instance_attributes,
};
use crate::light::{FULL_TURN, Light, light_words, turn, turned};
use crate::model::{
    DrawLight, DrawModel, Model, ModelError, ModelVertex, SourceMaterial, SourceMesh,
    light_mesh_draw, load_fails_with, model_draw, model_draw_is_mesh_by_mesh,
    model_vertex_attributes, no_geometry_fault, no_texture_fault,
};
use crate::pass::{
    ColorAttachment, ColorLoad, DepthAttachment, DepthLoad, RenderCommand, RenderPass,
    RenderPassDescriptor,
};
use crate::pipeline::{
    DepthStencilState, RenderPipeline, buffer_bind_group, create_buffer_bind_group,
    create_render_pipeline, create_texture_layout, create_uniform_layout, texture_layout,
    uniform_layout,
};
use crate::texture::DEPTH_FORMAT;
use crate::uniform::{Matrix4, Uniforms, is_identity, matrix_words};
use crate::vertex::VertexBufferLayout;

verus! {

/// Whether a key went down or up.
#[derive(Clone, Copy, Debug, PartialEq, Eq, Structural)]
pub enum ElementState {
    Pressed,
    Released,
}

/// The keys that the renderer tells apart.
#[derive(Clone, Copy, Debug, PartialEq, Eq, Structural)]
pub enum VirtualKeyCode {
    Space,
    Escape,
    Other,
}

/// An event of the window, as far as the renderer looks at it.
#[derive(Clone, Copy, Debug, PartialEq, Eq, Structural)]
pub enum WindowEvent {
    KeyboardInput { state: ElementState, virtual_keycode: Option<VirtualKeyCode> },
    /// The client area has a new size.
    Resized(PhysicalSize),
    /// The scale of the display has changed, and with it the size of the
    /// client area.
    ScaleFactorChanged(PhysicalSize),
    CloseRequested,
    Other,
}

/// What an event leaves the caller to do.
#[derive(Clone, Copy, Debug, PartialEq, Eq, Structural)]
pub enum Command {
    /// Nothing.
    Proceed,
    /// End the event loop.
    Exit,
    /// The state has taken a new size: build the presentation chain and
    /// the depth buffer anew from it.
    Reconfigure,
}

/// Why no render state could be set up.
#[derive(Clone, Copy, Debug, PartialEq, Eq, Structural)]
pub enum StateError {
    /// The grid has more instances than a draw call can count.
    TooManyInstances,
    /// The model could not be loaded.
    Model(ModelError),
}

/// The tone that the first pass of a frame clears the colour target to.
pub open spec fn background() -> Rgb {
    Rgb { r: 100, g: 149, b: 237 }
}

/// What is drawn: a model, the instances of it, and the mesh that marks
/// the light. The invariant of a scene holds of every scene there is.
#[derive(Debug, PartialEq, Eq)]
pub struct Scene {
    model: Model,
    instances: Vec<Instance>,
    mesh_index: usize,
}

impl Scene {
    /// The invariant of a scene: the invariant of its model holds, the
    /// instances are no more than a draw call can count, and the marker
    /// is a mesh of the model, or 0 where the model has none.
    pub closed spec fn wf(self) -> bool {
        &&& self.model.wf()
        &&& self.instances@.len() <= u32::MAX
        &&& (self.mesh_index < self.model.meshes@.len() || self.mesh_index == 0)
    }

    #[verifier::type_invariant]
    spec fn valid(self) -> bool {
        self.wf()
    }

    /// What the invariant of a scene says of its parts.
    pub proof fn wf_unfolded(self)
        requires
            self.wf(),
        ensures
            self.model_spec().wf(),
            self.instances_spec().len() <= u32::MAX,
            self.mesh_index_spec() < self.model_spec().meshes@.len() || self.mesh_index_spec()
                == 0,
    {
    }

    /// The model of the scene.
    pub closed spec fn model_spec(self) -> Model {
        self.model
    }

    /// The instances of the scene, in the order of the instance buffer.
    pub closed spec fn instances_spec(self) -> Seq<Instance> {
        self.instances@
    }

    /// The index of the mesh that marks the light.
    pub closed spec fn mesh_index_spec(self) -> usize {
        self.mesh_index
    }

    /// The mesh after the marker, or the first after the last.
    pub open spec fn next_mesh_index(self) -> usize {
        if self.mesh_index_spec() + 1 < self.model_spec().meshes@.len() {
            (self.mesh_index_spec() + 1) as usize
        } else {
            0
        }
    }

    /// A scene of the given model and instances, with the marker at the
    /// first mesh. `None` is returned exactly when the invariant of the
    /// model fails or the instances are too many for a draw call.
    pub fn new(model: Model, instances: Vec<Instance>) -> (r: Option<Scene>)
        ensures
            r is Some <==> (model.wf() && instances@.len() <= u32::MAX),
            r matches Some(scene) ==> {
                &&& scene.wf()
                &&& scene.model_spec() == model
                &&& scene.instances_spec() == instances@
                &&& scene.mesh_index_spec() == 0
            },
    {
        if !model.is_wf() || instances.len() > u32::MAX as usize {
            return None;
        }
        Some(Scene { model, instances, mesh_index: 0 })
    }

    /// The model, of which its invariant holds.
    pub fn model(&self) -> (model: &Model)
        ensures
            *model == self.model_spec(),
            model.wf(),
    {
        proof {
            use_type_invariant(self);
        }
        &self.model
    }

    /// The instances, which are no more than a draw call can count.
    pub fn instances(&self) -> (instances: &Vec<Instance>)
        ensures
            instances@ == self.instances_spec(),
            instances@.len() <= u32::MAX,
    {
        proof {
            use_type_invariant(self);
        }
        &self.instances
    }

    /// The index of the mesh that marks the light: a mesh of the model,
    /// or 0 where the model has none.
    pub fn mesh_index(&self) -> (i: usize)
        ensures
            i == self.mesh_index_spec(),
            i < self.model_spec().meshes@.len() || i == 0,
    {
        proof {
            use_type_invariant(self);
        }
        self.mesh_index
    }

    /// Moves the marker to the next mesh, and from the last to the first.
    pub fn select_next_mesh(&mut self)
        ensures
            final(self).wf(),
            final(self).model_spec() == old(self).model_spec(),
            final(self).instances_spec() == old(self).instances_spec(),
            final(self).mesh_index_spec() == old(self).next_mesh_index(),
    {
        proof {
            use_type_invariant(&*self);
        }
        let count = self.model.meshes.len();
        let at = self.mesh_index;
        if at < usize::MAX && at + 1 < count {
            self.mesh_index = at + 1;
        } else {
            self.mesh_index = 0;
        }
    }
}

/// The one aggregate of the renderer.
#[derive(Debug, PartialEq, Eq)]
pub struct State {
    pub size: PhysicalSize,
    pub sc_desc: SwapChainDescriptor,
    pub bg_color: Rgb,
    pub depth_pass: DepthPass,
    pub camera_aspect: AspectRatio,
    pub uniforms: Uniforms,
    pub uniform_bind_group_layout: BindGroupLayout,
    pub uniform_bind_group: BindGroup,
    pub light: Light,
    /// Where the light stood before it was ever turned.
    pub light_start: [u32; 3],
    /// Whole degrees by which the light has turned about the vertical axis
    /// from where it started, within a turn.
    pub light_angle: u32,
    pub light_bind_group_layout: BindGroupLayout,
    pub light_bind_group: BindGroup,
    pub texture_bind_group_layout: BindGroupLayout,
    pub render_pipeline: RenderPipeline,
    pub light_render_pipeline: RenderPipeline,
    /// Whether a frame begins with the pass that marks the light.
    pub light_marker: bool,
    pub scene: Scene,
}

/// The presentation chain for a window of the given size: a render
/// attachment in `format`, presented in step with the display.
pub open spec fn swap_chain_for(size: PhysicalSize, format: TextureFormat) -> SwapChainDescriptor {
    SwapChainDescriptor {
        usage: TextureUsage { render_attachment: true, ..no_texture_usage() },
        format,
        width: size.width,
        height: size.height,
        present_mode: PresentMode::Fifo,
    }
}

/// The attachments of a pass of a frame: the first pass clears the colour
/// target to `bg` and the depth buffer to the far plane, every later pass
/// keeps what the passes before it wrote. All passes store.
pub open spec fn frame_pass_descriptor(first: bool, bg: Rgb) -> RenderPassDescriptor {
    RenderPassDescriptor {
        color: ColorAttachment {
            load: if first {
                ColorLoad::Clear(bg)
            } else {
                ColorLoad::Load
            },
            store: true,
        },
        depth: Some(
            DepthAttachment {
                load: if first {
                    DepthLoad::ClearToFar
                } else {
                    DepthLoad::Load
                },
                store: true,
            },
        ),
    }
}

/// The pipeline reads a buffer that steps by instance.
pub open spec fn reads_instances(pipeline: RenderPipeline) -> bool {
    exists|slot: int|
        0 <= slot < pipeline.buffers@.len() && (#[trigger] pipeline.buffers@[slot]).step_mode
            == InputStepMode::Instance
}

/// The bytes to write into the uniform buffer and into the light buffer,
/// in that order, each from the start of its buffer.
pub open spec fn is_refresh(writes: Seq<BufferWrite>, uniforms: Uniforms, light: Light) -> bool {
    &&& writes.len() == 2
    &&& writes[0].buffer == BufferId::Uniforms
    &&& writes[0].offset == 0
    &&& is_word_image(writes[0].data@, matrix_words(uniforms.view_proj))
    &&& writes[0].data@.len() == 64
    &&& writes[1].buffer == BufferId::Light
    &&& writes[1].offset == 0
    &&& is_word_image(writes[1].data@, light_words(light))
    &&& writes[1].data@.len() == 32
}

impl State {
    /// The presentation chain, the depth buffer and the camera agree on
    /// the size, which is the window's.
    pub open spec fn size_consistent(self) -> bool {
        &&& self.sc_desc.width == self.size.width
        &&& self.sc_desc.height == self.size.height
        &&& self.depth_pass.sized(self.sc_desc.width, self.sc_desc.height)
        &&& self.camera_aspect == AspectRatio {
            width: self.sc_desc.width,
            height: self.sc_desc.height,
        }
    }

    /// The invariant of the render state: the presentation chain, the
    /// depth buffer and the camera agree on the window's size; the chain
    /// is a render attachment presented in step with the display; the
    /// quad, the bindings and the pipelines are those of a renderer that
    /// presents in the chain's format; the light's angle lies within a
    /// turn; the invariant of the scene holds; and every material's set
    /// is made for the layout of a texture.
    pub open spec fn wf(self) -> bool {
        &&& self.size_consistent()
        &&& self.sc_desc == swap_chain_for(self.size, self.sc_desc.format)
        &&& self.depth_pass.fixed_parts(self.sc_desc)
        &&& self.pipelines_for(self.sc_desc.format)
        &&& self.light_angle < FULL_TURN
        &&& self.scene.wf()
        &&& self.materials_bound_as_textures()
    }

    /// Every material's set is made for the layout of a texture with its
    /// sampler.
    pub open spec fn materials_bound_as_textures(self) -> bool {
        forall|i: int|
            0 <= i < self.scene.model_spec().materials@.len() ==> (#[trigger] self.scene
                .model_spec().materials@[i]).bind_group.layout == BindGroupLayoutId::Texture
    }

    /// `self` differs from `before` at most in what depends on the
    /// window's size: the size itself, the width and height of the
    /// presentation chain, the depth attachment with its set, and the
    /// camera's aspect ratio.
    pub open spec fn size_independent_parts_equal(self, before: State) -> bool {
        self == (State {
            size: self.size,
            sc_desc: SwapChainDescriptor {
                width: self.sc_desc.width,
                height: self.sc_desc.height,
                ..before.sc_desc
            },
            depth_pass: DepthPass {
                texture: self.depth_pass.texture,
                bind_group: self.depth_pass.bind_group,
                ..before.depth_pass
            },
            camera_aspect: self.camera_aspect,
            ..before
        })
    }

    /// The fixed bindings and pipelines are those of a renderer that
    /// presents in `format`.
    pub open spec fn pipelines_for(self, format: TextureFormat) -> bool {
        &&& self.texture_bind_group_layout == texture_layout()
        &&& self.uniform_bind_group_layout == uniform_layout(
            BindGroupLayoutId::Uniforms,
            vertex_and_fragment(),
        )
        &&& self.uniform_bind_group == buffer_bind_group(
            BindGroupId::Uniforms,
            BindGroupLayoutId::Uniforms,
            BufferId::Uniforms,
        )
        &&& self.light_bind_group_layout == uniform_layout(
            BindGroupLayoutId::Light,
            vertex_and_fragment(),
        )
        &&& self.light_bind_group == buffer_bind_group(
            BindGroupId::Light,
            BindGroupLayoutId::Light,
            BufferId::Light,
        )
        &&& self.render_pipeline.buffers@.len() == 2
        &&& self.render_pipeline.buffers@[0].array_stride == 32
        &&& self.render_pipeline.buffers@[0].step_mode == InputStepMode::Vertex
        &&& self.render_pipeline.buffers@[0].attributes@ == model_vertex_attributes()
        &&& self.render_pipeline.buffers@[1].array_stride == 64
        &&& self.render_pipeline.buffers@[1].step_mode == InputStepMode::Instance
        &&& self.render_pipeline.buffers@[1].attributes@ == instance_attributes()
        &&& self.render_pipeline.built_from(
            PipelineId::Main,
            seq![BindGroupLayoutId::Texture, BindGroupLayoutId::Uniforms, BindGroupLayoutId::Light],
            ShaderId::Main,
            self.render_pipeline.buffers@,
            format,
            Some(TextureFormat::Depth32Float),
            Some(Face::Back),
        )
        &&& self.light_render_pipeline.buffers@.len() == 1
        &&& self.light_render_pipeline.buffers@[0].array_stride == 32
        &&& self.light_render_pipeline.buffers@[0].step_mode == InputStepMode::Vertex
        &&& self.light_render_pipeline.buffers@[0].attributes@ == model_vertex_attributes()
        &&& self.light_render_pipeline.built_from(
            PipelineId::LightMarker,
            seq![BindGroupLayoutId::Uniforms, BindGroupLayoutId::Light],
            ShaderId::LightMarker,
            self.light_render_pipeline.buffers@,
            format,
            Some(TextureFormat::Depth32Float),
            None,
        )
    }

    /// The state owns a buffer of this name.
    pub open spec fn owns_buffer(self, id: BufferId) -> bool {
        match id {
            BufferId::MeshVertices(i) => i < self.scene.model_spec().meshes@.len(),
            BufferId::MeshIndices(i) => i < self.scene.model_spec().meshes@.len(),
            _ => true,
        }
    }

    /// The state owns a resource-binding set of this name.
    pub open spec fn owns_bind_group(self, id: BindGroupId) -> bool {
        match id {
            BindGroupId::Material(i) => i < self.scene.model_spec().materials@.len(),
            _ => true,
        }
    }

    /// The layout that the set of this name is made for.
    pub open spec fn layout_of(self, id: BindGroupId) -> BindGroupLayoutId {
        match id {
            BindGroupId::Material(i) => self.scene.model_spec().materials@[i as int]
                .bind_group.layout,
            BindGroupId::Uniforms => self.uniform_bind_group.layout,
            BindGroupId::Light => self.light_bind_group.layout,
            BindGroupId::Depth => self.depth_pass.bind_group.layout,
        }
    }

    /// `command` can be carried out in a pass of the frame under
    /// `pipeline`: it names what the state owns; a set goes to a group
    /// that the pipeline has, and is made for the layout of that group; a
    /// vertex buffer goes to a slot that the pipeline has, the instance
    /// buffer to the slot that steps by instance and no other buffer
    /// there; the indices are a mesh's and 32 bits wide; and a draw under
    /// a pipeline that reads the instance buffer is for no more instances
    /// than there are.
    pub open spec fn fits(self, pipeline: RenderPipeline, command: RenderCommand) -> bool {
        match command {
            RenderCommand::SetPipeline(id) => id == pipeline.id,
            RenderCommand::SetBindGroup { index, group } => {
                &&& self.owns_bind_group(group)
                &&& index < pipeline.bind_group_layouts@.len()
                &&& pipeline.bind_group_layouts@[index as int] == self.layout_of(group)
            },
            RenderCommand::SetVertexBuffer { slot, buffer } => {
                &&& self.owns_buffer(buffer)
                &&& slot < pipeline.buffers@.len()
                &&& (buffer == BufferId::Instances <==> pipeline.buffers@[slot as int].step_mode
                    == InputStepMode::Instance)
            },
            RenderCommand::SetIndexBuffer { buffer, format } => {
                &&& self.owns_buffer(buffer)
                &&& buffer is MeshIndices
                &&& format == IndexFormat::Uint32
            },
            RenderCommand::DrawIndexed {
                first_index,
                end_index,
                base_vertex,
                first_instance,
                end_instance,
            } => {
                &&& first_index <= end_index
                &&& base_vertex == 0
                &&& first_instance <= end_instance
                &&& reads_instances(pipeline) ==> end_instance
                    <= self.scene.instances_spec().len()
            },
        }
    }

    /// A frame begins with the marker pass when the marker is switched on
    /// and the model has a mesh to mark the light with.
    pub open spec fn has_marker_pass(self) -> bool {
        self.light_marker && self.scene.model_spec().meshes@.len() > 0
    }

    /// The commands of the marker pass: the marker pipeline, then one
    /// instance of the marker mesh.
    pub open spec fn marker_commands(self) -> Seq<RenderCommand> {
        seq![RenderCommand::SetPipeline(PipelineId::LightMarker)] + light_mesh_draw(
            self.scene.model_spec().meshes@[self.scene.mesh_index_spec() as int],
            0,
            1,
            self.uniform_bind_group.id,
            self.light_bind_group.id,
        )
    }

    /// The commands of the main pass: the main pipeline, the instance
    /// buffer at its slot, then every mesh of the model once for all the
    /// instances.
    pub open spec fn main_commands(self) -> Seq<RenderCommand> {
        seq![
            RenderCommand::SetPipeline(PipelineId::Main),
            RenderCommand::SetVertexBuffer { slot: INSTANCE_SLOT, buffer: BufferId::Instances },
        ] + model_draw(
            self.scene.model_spec(),
            0,
            self.scene.instances_spec().len() as u32,
            self.uniform_bind_group.id,
            self.light_bind_group.id,
        )
    }

    /// `passes` is the command buffer of one frame: the marker pass where
    /// there is one, then the main pass; the first of them clears.
    pub open spec fn is_frame(self, passes: Seq<RenderPass>) -> bool {
        if self.has_marker_pass() {
            &&& passes.len() == 2
            &&& passes[0].desc == frame_pass_descriptor(true, self.bg_color)
            &&& passes[0].commands@ == self.marker_commands()
            &&& passes[1].desc == frame_pass_descriptor(false, self.bg_color)
            &&& passes[1].commands@ == self.main_commands()
        } else {
            &&& passes.len() == 1
            &&& passes[0].desc == frame_pass_descriptor(true, self.bg_color)
            &&& passes[0].commands@ == self.main_commands()
        }
    }

    /// Sets up the render state for a window of the given size whose
    /// surface prefers `format`.
    ///
    /// The instances are laid out first, on a grid of `grid_size` columns
    /// and rows for a spacing of which `step_is_zero` says whether its
    /// half is a distance of zero; a grid too large for a draw call ends
    /// the setup. The model is loaded next, and an error of the
    /// load ends the setup with that error. The state then presents at
    /// the window's size, with a depth buffer of that size, the identity
    /// as view-projection matrix, the light as given and not yet turned,
    /// and the marker of the light switched on at the first mesh.
    pub fn new(
        size: PhysicalSize,
        format: TextureFormat,
        light: Light,
        meshes: &Vec<SourceMesh>,
        materials: &Vec<SourceMaterial>,
        grid_size: u32,
        step_is_zero: bool,
    ) -> (r: Result<State, StateError>)
        ensures
            match r {
                Err(StateError::TooManyInstances) => grid_size * grid_size > u32::MAX,
                Err(StateError::Model(e)) => {
                    &&& grid_size * grid_size <= u32::MAX
                    &&& load_fails_with(meshes@, materials@, e)
                },
                Ok(state) => {
                    &&& grid_size * grid_size <= u32::MAX
                    &&& no_texture_fault(materials@)
                    &&& no_geometry_fault(meshes@, materials@.len())
                    &&& state.wf()
                    &&& state.size == size
                    &&& state.sc_desc.format == format
                    &&& state.bg_color == background()
                    &&& is_identity(state.uniforms.view_proj)
                    &&& state.light == light
                    &&& state.light_start == light.position
                    &&& state.light_angle == 0
                    &&& state.light_marker
                    &&& state.scene.model_spec().loaded_from(
                        meshes@,
                        materials@,
                        BindGroupLayoutId::Texture,
                    )
                    &&& state.scene.instances_spec() == grid(grid_size, step_is_zero)
                    &&& state.scene.mesh_index_spec() == 0
                },
            },
    {
        let instances = match build_instances(grid_size, step_is_zero) {
            Some(instances) => instances,
            None => {
                return Err(StateError::TooManyInstances);
            },
        };
        let texture_bind_group_layout = create_texture_layout();
        let model = match Model::load(&texture_bind_group_layout, meshes, materials) {
            Ok(model) => model,
            Err(e) => {
                return Err(StateError::Model(e));
            },
        };
        let sc_desc = SwapChainDescriptor {
            usage: TextureUsage {
                copy_src: false,
                copy_dst: false,
                sampled: false,
                storage: false,
                render_attachment: true,
            },
            format,
            width: size.width,
            height: size.height,
            present_mode: PresentMode::Fifo,
        };
        let uniform_bind_group_layout = create_uniform_layout(
            BindGroupLayoutId::Uniforms,
            ShaderStage::vertex_fragment(),
        );
        let uniform_bind_group = create_buffer_bind_group(
            BindGroupId::Uniforms,
            uniform_bind_group_layout.id,
            BufferId::Uniforms,
        );
        let light_bind_group_layout = create_uniform_layout(
            BindGroupLayoutId::Light,
            ShaderStage::vertex_fragment(),
        );
        let light_bind_group = create_buffer_bind_group(
            BindGroupId::Light,
            light_bind_group_layout.id,
            BufferId::Light,
        );
        let depth_pass = DepthPass::new(&sc_desc);

        let mut main_layouts: Vec<BindGroupLayoutId> = Vec::new();
        main_layouts.push(texture_bind_group_layout.id);
        main_layouts.push(uniform_bind_group_layout.id);
        main_layouts.push(light_bind_group_layout.id);
        let mut main_buffers: Vec<VertexBufferLayout> = Vec::new();
        main_buffers.push(ModelVertex::desc());
        main_buffers.push(InstanceRaw::desc());
        let render_pipeline = create_render_pipeline(
            PipelineId::Main,
            main_layouts,
            ShaderId::Main,
            main_buffers,
            format,
            Some(DEPTH_FORMAT),
            Some(Face::Back),
        );
        assert(render_pipeline.bind_group_layouts@ =~= seq![
            BindGroupLayoutId::Texture,
            BindGroupLayoutId::Uniforms,
            BindGroupLayoutId::Light,
        ]);

        let mut light_layouts: Vec<BindGroupLayoutId> = Vec::new();
        light_layouts.push(uniform_bind_group_layout.id);
        light_layouts.push(light_bind_group_layout.id);
        let mut light_buffers: Vec<VertexBufferLayout> = Vec::new();
        light_buffers.push(ModelVertex::desc());
        let light_render_pipeline = create_render_pipeline(
            PipelineId::LightMarker,
            light_layouts,
            ShaderId::LightMarker,
            light_buffers,
            format,
            Some(DEPTH_FORMAT),
            None,
        );
        assert(light_render_pipeline.bind_group_layouts@ =~= seq![
            BindGroupLayoutId::Uniforms,
            BindGroupLayoutId::Light,
        ]);

        let scene = Scene::new(model, instances).unwrap();
        Ok(
            State {
                size,
                sc_desc,
                bg_color: Rgb { r: 100, g: 149, b: 237 },
                depth_pass,
                camera_aspect: AspectRatio { width: size.width, height: size.height },
                uniforms: Uniforms::new(),
                uniform_bind_group_layout,
                uniform_bind_group,
                light,
                light_start: light.position,
                light_angle: 0,
                light_bind_group_layout,
                light_bind_group,
                texture_bind_group_layout,
                render_pipeline,
                light_render_pipeline,
                light_marker: true,
                scene,
            },
        )
    }

    /// Makes the presentation chain's configuration, the depth buffer and
    /// the camera's aspect ratio anew at the current size.
    pub fn rebuild(&mut self)
        ensures
            final(self).size == old(self).size,
            final(self).size_consistent(),
            final(self).size_independent_parts_equal(*old(self)),
            old(self).wf() ==> final(self).wf(),
    {
        self.sc_desc.width = self.size.width;
        self.sc_desc.height = self.size.height;
        self.depth_pass.resize(&self.sc_desc);
        self.camera_aspect = AspectRatio { width: self.size.width, height: self.size.height };
    }

    /// A resize takes effect when the new size differs from the current
    /// one and has no zero side.
    pub open spec fn resize_applies(self, new_size: PhysicalSize) -> bool {
        new_size != self.size && !new_size.degenerate()
    }

    /// `self` is what a resize to `new_size` makes of `before`: where the
    /// resize takes effect, a state of the new size in which the
    /// presentation chain, the depth buffer and the camera agree on it,
    /// and which is otherwise as before; else `before` itself.
    pub open spec fn after_resize(self, before: State, new_size: PhysicalSize) -> bool {
        if before.resize_applies(new_size) {
            &&& self.size == new_size
            &&& self.size_consistent()
            &&& self.size_independent_parts_equal(before)
        } else {
            self == before
        }
    }

    /// Reconciles the state with the window's size.
    ///
    /// Where the new size differs from the current one and has no zero
    /// side, the presentation chain is configured for it, the depth
    /// buffer is made anew at that size and the camera takes its aspect
    /// ratio; `true` is returned. Otherwise nothing changes and `false`
    /// is returned.
    ///
    /// So after a resize to a size without a zero side the depth buffer
    /// has exactly the dimensions of the presentation chain, which are the
    /// new size, and the camera's aspect ratio is the new width over the
    /// new height; and a size with a zero side leaves in effect what was.
    pub fn resize(&mut self, new_size: PhysicalSize) -> (applied: bool)
        ensures
            applied == old(self).resize_applies(new_size),
            final(self).after_resize(*old(self), new_size),
            new_size.degenerate() ==> *final(self) == *old(self),
            old(self).wf() ==> final(self).wf(),
            !new_size.degenerate() && old(self).size_consistent() ==> {
                &&& final(self).sc_desc.width == new_size.width
                &&& final(self).sc_desc.height == new_size.height
                &&& final(self).depth_pass.texture.width() == final(self).sc_desc.width
                &&& final(self).depth_pass.texture.height() == final(self).sc_desc.height
                &&& final(self).camera_aspect == AspectRatio {
                    width: new_size.width,
                    height: new_size.height,
                }
            },
    {
        let differs = new_size.width != self.size.width || new_size.height != self.size.height;
        if !differs || new_size.is_degenerate() {
            return false;
        }
        self.size = new_size;
        self.rebuild();
        true
    }

    /// Takes an event of the window together with the answer of the
    /// camera controller, and says whether the event was consumed, so that
    /// the caller does not act on it as well.
    ///
    /// An event is consumed exactly when the camera controller consumed
    /// it. The render state itself is not changed by an event that the
    /// controller took: what the controller made of the camera reaches
    /// the state with the next `update`.
    pub fn input(&mut self, event: &WindowEvent, camera_consumed: bool) -> (consumed: bool)
        ensures
            consumed == camera_consumed,
            *final(self) == *old(self),
    {
        camera_consumed
    }

    /// The event asks for the end of the event loop: the window is to be
    /// closed, or the escape key went down.
    pub open spec fn asks_to_exit(event: WindowEvent) -> bool {
        ||| event == WindowEvent::CloseRequested
        ||| event == (WindowEvent::KeyboardInput {
            state: ElementState::Pressed,
            virtual_keycode: Some(VirtualKeyCode::Escape),
        })
    }

    /// The size that the event announces, where it announces one.
    pub open spec fn announced_size(event: WindowEvent) -> Option<PhysicalSize> {
        match event {
            WindowEvent::Resized(size) => Some(size),
            WindowEvent::ScaleFactorChanged(size) => Some(size),
            _ => None,
        }
    }

    /// The event asks for the next mesh as marker of the light: the space
    /// bar went down.
    pub open spec fn asks_for_next_marker(event: WindowEvent) -> bool {
        event == (WindowEvent::KeyboardInput {
            state: ElementState::Pressed,
            virtual_keycode: Some(VirtualKeyCode::Space),
        })
    }

    /// `self` is `before` with the marker of the light moved to the next
    /// mesh, and from the last to the first, and nothing else changed.
    pub open spec fn after_next_marker(self, before: State) -> bool {
        &&& self == (State { scene: self.scene, ..before })
        &&& self.scene.mesh_index_spec() == before.scene.next_mesh_index()
        &&& self.scene.model_spec() == before.scene.model_spec()
        &&& self.scene.instances_spec() == before.scene.instances_spec()
    }

    /// The command that an event ends in, given the state before it and
    /// the answer of the camera controller.
    pub open spec fn command_for(self, event: WindowEvent, camera_consumed: bool) -> Command {
        if camera_consumed {
            Command::Proceed
        } else if Self::asks_to_exit(event) {
            Command::Exit
        } else if Self::announced_size(event) matches Some(size) && self.resize_applies(size) {
            Command::Reconfigure
        } else {
            Command::Proceed
        }
    }

    /// `self` is what an event makes of `before`, given the answer of the
    /// camera controller: nothing where the controller consumed the event;
    /// else what `resize` makes of a new size of the client area, the
    /// marker of the light moved on where the space bar went down, and
    /// nothing for any other event.
    pub open spec fn after_event(
        self,
        before: State,
        event: WindowEvent,
        camera_consumed: bool,
    ) -> bool {
        if camera_consumed {
            self == before
        } else {
            match Self::announced_size(event) {
                Some(size) => self.after_resize(before, size),
                None => if Self::asks_for_next_marker(event) {
                    self.after_next_marker(before)
                } else {
                    self == before
                },
            }
        }
    }

    /// Takes an event of the window with the answer of the camera
    /// controller and says what is left to the caller.
    ///
    /// An event that the camera controller consumed goes no further. Of
    /// the others, a request to close the window and a press of the
    /// escape key end the loop; a new size of the client area is taken as
    /// `resize` takes it, and where that size takes effect the caller is
    /// to build the presentation chain and the depth buffer anew; and a
    /// press of the space bar moves the marker of the light to the next
    /// mesh.
    pub fn handle_event(&mut self, event: &WindowEvent, camera_consumed: bool) -> (command: Command)
        ensures
            command == old(self).command_for(*event, camera_consumed),
            final(self).after_event(*old(self), *event, camera_consumed),
            old(self).wf() ==> final(self).wf(),
    {
        if self.input(event, camera_consumed) {
            return Command::Proceed;
        }
        match event {
            WindowEvent::CloseRequested => Command::Exit,
            WindowEvent::KeyboardInput {
                state: ElementState::Pressed,
                virtual_keycode: Some(VirtualKeyCode::Escape),
            } => Command::Exit,
            WindowEvent::KeyboardInput {
                state: ElementState::Pressed,
                virtual_keycode: Some(VirtualKeyCode::Space),
            } => {
                self.scene.select_next_mesh();
                Command::Proceed
            },
            WindowEvent::Resized(size) => {
                if self.resize(*size) {
                    Command::Reconfigure
                } else {
                    Command::Proceed
                }
            },
            WindowEvent::ScaleFactorChanged(size) => {
                if self.resize(*size) {
                    Command::Reconfigure
                } else {
                    Command::Proceed
                }
            },
            _ => Command::Proceed,
        }
    }

    /// The angle that the light has after the next update: one step on
    /// from where it is, within a turn. The caller turns `light_start` by
    /// this angle about the vertical axis to have the position that the
    /// next update takes.
    pub fn next_light_angle(&self) -> (angle: u32)
        ensures
            angle == turned(self.light_angle),
            angle < FULL_TURN,
    {
        turn(self.light_angle)
    }

    /// Refreshes the per-frame constants.
    ///
    /// The light turns one step further, to the angle that
    /// `next_light_angle` gave before the call. The view-projection
    /// matrix is taken over as the camera gives it, and the position of
    /// the light as the caller has it from turning `light_start` by that
    /// angle. The result is what to write to the GPU: the uniform block,
    /// then the light's block.
    pub fn update(&mut self, view_proj: Matrix4, light_position: [u32; 3]) -> (writes: Vec<
        BufferWrite,
    >)
        ensures
            *final(self) == (State {
                uniforms: Uniforms { view_proj },
                light: Light { position: light_position, color: old(self).light.color },
                light_angle: turned(old(self).light_angle),
                ..*old(self)
            }),
            is_refresh(writes@, final(self).uniforms, final(self).light),
            old(self).wf() ==> final(self).wf(),
    {
        self.uniforms.update_view_proj(view_proj);
        self.light.position = light_position;
        self.light_angle = turn(self.light_angle);
        let mut writes: Vec<BufferWrite> = Vec::new();
        writes.push(
            BufferWrite { buffer: BufferId::Uniforms, offset: 0, data: self.uniforms.bytes() },
        );
        writes.push(BufferWrite { buffer: BufferId::Light, offset: 0, data: self.light.bytes() });
        writes
    }

    /// Records the command buffer of one frame.
    ///
    /// Where no image of the presentation chain could be acquired, the
    /// error is handed on and nothing is recorded. Otherwise the passes
    /// are recorded in order: the pass that marks the light, where the
    /// marker is on and the model has a mesh, then the main pass that
    /// draws every mesh of the model for all the instances. The first
    /// pass of the frame clears colour and depth, a later one loads them.
    pub fn render(&self, acquired: Result<(), SwapChainError>) -> (r: Result<
        Vec<RenderPass>,
        SwapChainError,
    >)
        ensures
            acquired matches Err(e) ==> r == Err::<Vec<RenderPass>, SwapChainError>(e),
            acquired is Ok ==> {
                &&& r matches Ok(passes)
                &&& self.is_frame(passes@)
            },
    {
        match acquired {
            Err(e) => {
                return Err(e);
            },
            Ok(_) => {},
        }
        let model = self.scene.model();
        let instances = self.scene.instances();
        let mesh_index = self.scene.mesh_index();
        let mut passes: Vec<RenderPass> = Vec::new();
        let mut first = true;
        if self.light_marker && model.meshes.len() > 0 {
            let mut marker = RenderPass::begin(Self::pass_descriptor(first, self.bg_color));
            marker.set_pipeline(PipelineId::LightMarker);
            marker.draw_light_mesh(
                &model.meshes[mesh_index],
                &self.uniform_bind_group,
                &self.light_bind_group,
            );
            passes.push(marker);
            first = false;
        }
        let mut main = RenderPass::begin(Self::pass_descriptor(first, self.bg_color));
        main.set_pipeline(PipelineId::Main);
        main.set_vertex_buffer(INSTANCE_SLOT, BufferId::Instances);
        main.draw_model_instanced(
            model,
            0..instances.len() as u32,
            &self.uniform_bind_group,
            &self.light_bind_group,
        );
        assert(main.commands@ =~= self.main_commands());
        passes.push(main);
        Ok(passes)
    }

    /// The attachments of a pass of a frame.
    pub fn pass_descriptor(first: bool, bg: Rgb) -> (desc: RenderPassDescriptor)
        ensures
            desc == frame_pass_descriptor(first, bg),
    {
        RenderPassDescriptor {
            color: ColorAttachment {
                load: if first {
                    ColorLoad::Clear(bg)
                } else {
                    ColorLoad::Load
                },
                store: true,
            },
            depth: Some(
                DepthAttachment {
                    load: if first {
                        DepthLoad::ClearToFar
                    } else {
                        DepthLoad::Load
                    },
                    store: true,
                },
            ),
        }
    }
}

/// Resizing is a reconciliation: a second resize to the same size finds
/// nothing left to do.
pub proof fn resize_is_idempotent(before: State, once: State, twice: State, size: PhysicalSize)
    requires
        once.after_resize(before, size),
        twice.after_resize(once, size),
        !size.degenerate(),
    ensures
        once.size == size,
        !once.resize_applies(size),
        twice == once,
{
}

/// A resize to a size with a zero side leaves in effect what was, and a
/// later resize to a size without one takes effect as if the other had
/// not been.
pub proof fn degenerate_resize_is_ignored(
    before: State,
    between: State,
    after: State,
    degenerate: PhysicalSize,
    size: PhysicalSize,
)
    requires
        degenerate.degenerate(),
        between.after_resize(before, degenerate),
        after.after_resize(between, size),
    ensures
        between == before,
        after.after_resize(before, size),
{
}

/// Wherever the presentation chain, the depth buffer and the camera agree
/// on the size before a resize, they agree after it; and after a resize
/// to a size without a zero side what they agree on is that size.
pub proof fn resize_keeps_sizes_together(before: State, after: State, size: PhysicalSize)
    requires
        before.size_consistent(),
        after.after_resize(before, size),
    ensures
        after.size_consistent(),
        after.depth_pass.texture.width() == after.sc_desc.width,
        after.depth_pass.texture.height() == after.sc_desc.height,
        after.camera_aspect == (AspectRatio {
            width: after.sc_desc.width,
            height: after.sc_desc.height,
        }),
        !size.degenerate() ==> after.sc_desc.width == size.width && after.sc_desc.height
            == size.height,
{
}

/// Both pipelines of a frame write the format of the presentation chain
/// and test against the format of the depth buffer, with the comparison
/// that the depth buffer's own sampler uses.
pub proof fn pipelines_match_their_attachments(state: State)
    requires
        state.wf(),
    ensures
        state.render_pipeline.target.format == state.sc_desc.format,
        state.light_render_pipeline.target.format == state.sc_desc.format,
        state.render_pipeline.depth_stencil == Some(
            DepthStencilState {
                format: state.depth_pass.texture.desc.format,
                depth_write_enabled: true,
                depth_compare: CompareFunction::LessEqual,
            },
        ),
        state.light_render_pipeline.depth_stencil == state.render_pipeline.depth_stencil,
        state.depth_pass.texture.sampler.compare == Some(CompareFunction::LessEqual),
        state.depth_pass.texture.desc.size.width == state.sc_desc.width,
        state.depth_pass.texture.desc.size.height == state.sc_desc.height,
{
}

/// Every command of the main pass can be carried out under the main
/// pipeline.
pub proof fn main_pass_fits_its_pipeline(state: State, j: int)
    requires
        state.wf(),
        0 <= j < state.main_commands().len(),
    ensures
        state.fits(state.render_pipeline, state.main_commands()[j]),
{
    state.scene.wf_unfolded();
    let model = state.scene.model_spec();
    let count = state.scene.instances_spec().len() as u32;
    let uniforms = state.uniform_bind_group.id;
    let light = state.light_bind_group.id;
    model_draw_is_mesh_by_mesh(model, 0, count, uniforms, light, model.meshes@.len() as int);
}

/// Every command of the pass that marks the light can be carried out
/// under the marker's pipeline.
pub proof fn marker_pass_fits_its_pipeline(state: State, j: int)
    requires
        state.wf(),
        state.has_marker_pass(),
        0 <= j < state.marker_commands().len(),
    ensures
        state.fits(state.light_render_pipeline, state.marker_commands()[j]),
{
    state.scene.wf_unfolded();
}

/// In the main pass mesh `i` is drawn by the six commands from `2 + 6 * i`
/// on: its own vertices are bound, then its own indices, and the draw at
/// the end reads exactly the indices that its index buffer holds, once
/// for every instance.
pub proof fn main_pass_draws_each_mesh_from_its_own_buffers(state: State, i: int)
    requires
        state.wf(),
        0 <= i < state.scene.model_spec().meshes@.len(),
    ensures
        state.main_commands().len() == 2 + 6 * state.scene.model_spec().meshes@.len(),
        state.main_commands()[2 + 6 * i] == (RenderCommand::SetVertexBuffer {
            slot: 0,
            buffer: BufferId::MeshVertices(i as usize),
        }),
        state.main_commands()[2 + 6 * i + 1] == (RenderCommand::SetIndexBuffer {
            buffer: BufferId::MeshIndices(i as usize),
            format: IndexFormat::Uint32,
        }),
        state.main_commands()[2 + 6 * i + 5] == (RenderCommand::DrawIndexed {
            first_index: 0,
            end_index: state.scene.model_spec().meshes@[i].num_elements,
            base_vertex: 0,
            first_instance: 0,
            end_instance: state.scene.instances_spec().len() as u32,
        }),
        4 * state.scene.model_spec().meshes@[i].num_elements
            == state.scene.model_spec().meshes@[i].index_buffer.contents@.len(),
{
    state.scene.wf_unfolded();
    let model = state.scene.model_spec();
    let count = state.scene.instances_spec().len() as u32;
    let uniforms = state.uniform_bind_group.id;
    let light = state.light_bind_group.id;
    model_draw_is_mesh_by_mesh(model, 0, count, uniforms, light, model.meshes@.len() as int);
}

} // verus!
