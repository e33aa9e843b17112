use render_state::depth_pass::{plane, plane_index_list, DepthPass};
use render_state::frame::{FrameAction, FrameEvent, FrameState};
use render_state::gpu::{
    AspectRatio, BindGroupId, BindGroupLayoutId, BlendComponent, BufferId, CompareFunction,
    Extent3d, Face, FrontFace, IndexFormat, PhysicalSize, PipelineId, PolygonMode, PresentMode,
    PrimitiveTopology, Rgb, ShaderId, ShaderStage, SwapChainDescriptor, SwapChainError,
    TextureFormat, TextureUsage,
};
use render_state::instance::{build_instances, InstanceRaw};
use render_state::light::Light;
use render_state::model::{GeometryFault, Model, ModelError, ModelVertex, SourceMaterial, SourceMesh};
use render_state::pass::{
    ColorAttachment, ColorLoad, DepthAttachment, DepthLoad, RenderCommand, RenderPassDescriptor,
};
use render_state::pipeline::{
    create_depth_bind_group, create_depth_layout, create_render_pipeline, create_texture_layout,
    create_uniform_layout, BlendState, DepthStencilState,
};
use render_state::state::{
    Command, ElementState, Scene, State, StateError, VirtualKeyCode, WindowEvent,
};
use render_state::texture::{DecodedImage, TextureError};
use render_state::uniform::Uniforms;
use render_state::vertex::{Vertex, ONE, ZERO};

fn bits(values: &[f32]) -> Vec<u32> {
    values.iter().map(|v| v.to_bits()).collect()
}

fn native_words(words: &[u32]) -> Vec<u8> {
    let mut out = Vec::new();
    for w in words {
        out.extend_from_slice(&w.to_ne_bytes());
    }
    out
}

fn triangle(material_id: Option<usize>) -> SourceMesh {
    SourceMesh {
        name: "triangle".to_string(),
        positions: bits(&[0.0, 0.5, 0.0, -0.5, -0.5, 0.0, 0.5, -0.5, 0.0]),
        texcoords: bits(&[0.5, 0.0, 0.0, 1.0, 1.0, 1.0]),
        normals: bits(&[0.0, 0.0, 1.0, 0.0, 0.0, 1.0, 0.0, 0.0, 1.0]),
        indices: vec![0, 1, 2],
        material_id,
    }
}

fn quad(material_id: Option<usize>) -> SourceMesh {
    SourceMesh {
        name: "quad".to_string(),
        positions: bits(&[0.0, 0.0, 0.0, 1.0, 0.0, 0.0, 1.0, 1.0, 0.0, 0.0, 1.0, 0.0]),
        texcoords: bits(&[0.0, 1.0, 1.0, 1.0, 1.0, 0.0, 0.0, 0.0]),
        normals: bits(&[0.0, 0.0, 1.0, 0.0, 0.0, 1.0, 0.0, 0.0, 1.0, 0.0, 0.0, 1.0]),
        indices: vec![0, 1, 2, 0, 2, 3],
        material_id,
    }
}

fn material() -> SourceMaterial {
    SourceMaterial {
        name: "paint".to_string(),
        label: Some("paint.png".to_string()),
        image: DecodedImage { width: 1, height: 1, rgba: vec![10, 20, 30, 255] },
    }
}

fn white_light() -> Light {
    Light { position: [2.0f32.to_bits(); 3], color: [ONE; 3] }
}

fn state_with(meshes: Vec<SourceMesh>, grid_size: u32) -> State {
    State::new(
        PhysicalSize::new(800, 600),
        TextureFormat::Bgra8UnormSrgb,
        white_light(),
        &meshes,
        &vec![material()],
        grid_size,
        false,
    )
    .unwrap()
}

fn chain(width: u32, height: u32) -> SwapChainDescriptor {
    SwapChainDescriptor {
        usage: TextureUsage {
            copy_src: false,
            copy_dst: false,
            sampled: false,
            storage: false,
            render_attachment: true,
        },
        format: TextureFormat::Bgra8Unorm,
        width,
        height,
        present_mode: PresentMode::Fifo,
    }
}

const SPACE: WindowEvent = WindowEvent::KeyboardInput {
    state: ElementState::Pressed,
    virtual_keycode: Some(VirtualKeyCode::Space),
};

const ESCAPE: WindowEvent = WindowEvent::KeyboardInput {
    state: ElementState::Pressed,
    virtual_keycode: Some(VirtualKeyCode::Escape),
};

#[test]
fn new_state_presents_at_the_window_size() {
    let state = state_with(vec![triangle(Some(0))], 10);
    assert_eq!(state.size, PhysicalSize { width: 800, height: 600 });
    assert_eq!(
        state.sc_desc,
        SwapChainDescriptor {
            usage: TextureUsage {
                copy_src: false,
                copy_dst: false,
                sampled: false,
                storage: false,
                render_attachment: true,
            },
            format: TextureFormat::Bgra8UnormSrgb,
            width: 800,
            height: 600,
            present_mode: PresentMode::Fifo,
        }
    );
    assert_eq!(
        state.depth_pass.texture.desc.size,
        Extent3d { width: 800, height: 600, depth_or_array_layers: 1 }
    );
    assert_eq!(state.camera_aspect, AspectRatio { width: 800, height: 600 });
    assert_eq!(state.bg_color, Rgb { r: 100, g: 149, b: 237 });
    assert_eq!(state.uniforms, Uniforms::new());
    assert_eq!(state.light, white_light());
    assert_eq!(state.light_start, white_light().position);
    assert_eq!(state.light_angle, 0);
    assert_eq!(state.next_light_angle(), 1);
    assert!(state.light_marker);
    assert_eq!(state.scene.mesh_index(), 0);
    assert_eq!(state.scene.instances(), &build_instances(10, false).unwrap());
    let layout = create_texture_layout();
    assert_eq!(
        state.scene.model(),
        &Model::load(&layout, &vec![triangle(Some(0))], &vec![material()]).unwrap()
    );
}

#[test]
fn new_state_has_two_pipelines() {
    let state = state_with(vec![triangle(Some(0))], 2);
    let main = &state.render_pipeline;
    assert_eq!(main.id, PipelineId::Main);
    assert_eq!(main.shader, ShaderId::Main);
    assert_eq!(
        main.bind_group_layouts,
        vec![BindGroupLayoutId::Texture, BindGroupLayoutId::Uniforms, BindGroupLayoutId::Light]
    );
    assert_eq!(main.buffers, vec![ModelVertex::desc(), InstanceRaw::desc()]);
    assert_eq!(main.target.format, TextureFormat::Bgra8UnormSrgb);
    assert_eq!(main.primitive.cull_mode, Some(Face::Back));
    assert_eq!(
        main.depth_stencil,
        Some(DepthStencilState {
            format: TextureFormat::Depth32Float,
            depth_write_enabled: true,
            depth_compare: CompareFunction::LessEqual,
        })
    );
    let marker = &state.light_render_pipeline;
    assert_eq!(marker.id, PipelineId::LightMarker);
    assert_eq!(marker.shader, ShaderId::LightMarker);
    assert_eq!(
        marker.bind_group_layouts,
        vec![BindGroupLayoutId::Uniforms, BindGroupLayoutId::Light]
    );
    assert_eq!(marker.buffers, vec![ModelVertex::desc()]);
    assert_eq!(marker.primitive.cull_mode, None);
    assert_eq!(marker.depth_stencil, main.depth_stencil);
    assert_eq!(state.texture_bind_group_layout, create_texture_layout());
    assert_eq!(
        state.uniform_bind_group_layout,
        create_uniform_layout(BindGroupLayoutId::Uniforms, ShaderStage::vertex_fragment())
    );
    assert_eq!(
        state.light_bind_group_layout,
        create_uniform_layout(BindGroupLayoutId::Light, ShaderStage::vertex_fragment())
    );
    assert_eq!(state.uniform_bind_group.id, BindGroupId::Uniforms);
    assert_eq!(state.light_bind_group.id, BindGroupId::Light);
}

#[test]
fn pipeline_replaces_the_target_and_culls_as_told() {
    let pipeline = create_render_pipeline(
        PipelineId::Main,
        vec![BindGroupLayoutId::Texture],
        ShaderId::Main,
        vec![Vertex::desc()],
        TextureFormat::Rgba8Unorm,
        None,
        Some(Face::Front),
    );
    assert_eq!(pipeline.target.format, TextureFormat::Rgba8Unorm);
    assert_eq!(
        pipeline.target.blend,
        Some(BlendState { color: BlendComponent::Replace, alpha: BlendComponent::Replace })
    );
    assert!(pipeline.target.write_all);
    assert_eq!(pipeline.primitive.topology, PrimitiveTopology::TriangleList);
    assert_eq!(pipeline.primitive.strip_index_format, None);
    assert_eq!(pipeline.primitive.front_face, FrontFace::Ccw);
    assert_eq!(pipeline.primitive.cull_mode, Some(Face::Front));
    assert!(!pipeline.primitive.clamp_depth);
    assert_eq!(pipeline.primitive.polygon_mode, PolygonMode::Fill);
    assert!(!pipeline.primitive.conservative);
    assert_eq!(pipeline.depth_stencil, None);
    assert_eq!(pipeline.multisample.count, 1);
    assert_eq!(pipeline.multisample.mask, !0);
    assert!(!pipeline.multisample.alpha_to_coverage_enabled);
}

#[test]
fn too_large_grid_ends_the_setup_before_the_model() {
    let r = State::new(
        PhysicalSize::new(800, 600),
        TextureFormat::Bgra8UnormSrgb,
        white_light(),
        &vec![triangle(Some(5))],
        &vec![material()],
        65536,
        false,
    );
    assert_eq!(r.err(), Some(StateError::TooManyInstances));
}

#[test]
fn bad_model_ends_the_setup() {
    let r = State::new(
        PhysicalSize::new(800, 600),
        TextureFormat::Bgra8UnormSrgb,
        white_light(),
        &vec![triangle(Some(5))],
        &vec![material()],
        10,
        false,
    );
    assert_eq!(
        r.err(),
        Some(StateError::Model(ModelError::Geometry {
            mesh: 0,
            fault: GeometryFault::NoSuchMaterial
        }))
    );
    let mut broken = material();
    broken.image.height = 2;
    let r = State::new(
        PhysicalSize::new(800, 600),
        TextureFormat::Bgra8UnormSrgb,
        white_light(),
        &vec![triangle(Some(0))],
        &vec![broken],
        10,
        false,
    );
    assert_eq!(
        r.err(),
        Some(StateError::Model(ModelError::Texture {
            material: 0,
            error: TextureError::SizeMismatch
        }))
    );
}

#[test]
fn resize_keeps_depth_buffer_and_chain_together() {
    let mut state = state_with(vec![triangle(Some(0))], 10);
    for (w, h) in [(1024u32, 768u32), (1, 1), (1920, 1080), (800, 600), (u32::MAX, 7)] {
        let before = state.size;
        let applied = state.resize(PhysicalSize::new(w, h));
        assert_eq!(applied, before != PhysicalSize::new(w, h));
        assert_eq!(state.size, PhysicalSize { width: w, height: h });
        assert_eq!((state.sc_desc.width, state.sc_desc.height), (w, h));
        assert_eq!(state.depth_pass.texture.desc.size.width, state.sc_desc.width);
        assert_eq!(state.depth_pass.texture.desc.size.height, state.sc_desc.height);
        assert_eq!(state.camera_aspect, AspectRatio { width: w, height: h });
        let aspect = state.camera_aspect.width as f32 / state.camera_aspect.height as f32;
        assert_eq!(aspect, w as f32 / h as f32);
    }
}

#[test]
fn resize_changes_nothing_but_the_size() {
    let mut state = state_with(vec![triangle(Some(0))], 10);
    let fresh = state_with(vec![triangle(Some(0))], 10);
    assert!(state.resize(PhysicalSize::new(640, 480)));
    assert_eq!(state.sc_desc.format, fresh.sc_desc.format);
    assert_eq!(state.sc_desc.usage, fresh.sc_desc.usage);
    assert_eq!(state.sc_desc.present_mode, PresentMode::Fifo);
    assert_eq!(state.scene, fresh.scene);
    assert_eq!(state.render_pipeline, fresh.render_pipeline);
    assert_eq!(state.light_render_pipeline, fresh.light_render_pipeline);
    assert_eq!(state.depth_pass.vertex_buffer, fresh.depth_pass.vertex_buffer);
    assert_eq!(state.depth_pass.render_pipeline, fresh.depth_pass.render_pipeline);
    assert_eq!(state.depth_pass.texture.label.as_deref(), Some("depth_texture"));
    assert!(state.resize(PhysicalSize::new(800, 600)));
    assert_eq!(state, fresh);
}

#[test]
fn degenerate_resize_leaves_the_size_in_effect() {
    let mut state = state_with(vec![triangle(Some(0))], 10);
    let fresh = state_with(vec![triangle(Some(0))], 10);
    assert!(!state.resize(PhysicalSize::new(0, 600)));
    assert_eq!(state, fresh);
    assert_eq!((state.sc_desc.width, state.sc_desc.height), (800, 600));
    assert_eq!(
        state.depth_pass.texture.desc.size,
        Extent3d { width: 800, height: 600, depth_or_array_layers: 1 }
    );
    assert!(!state.resize(PhysicalSize::new(800, 0)));
    assert!(!state.resize(PhysicalSize::new(0, 0)));
    assert_eq!(state, fresh);
    assert!(state.resize(PhysicalSize::new(1024, 768)));
    assert_eq!((state.sc_desc.width, state.sc_desc.height), (1024, 768));
    assert_eq!(state.size, PhysicalSize { width: 1024, height: 768 });
}

#[test]
fn resize_to_the_same_size_is_not_applied() {
    let mut state = state_with(vec![triangle(Some(0))], 10);
    assert!(!state.resize(PhysicalSize::new(800, 600)));
    assert_eq!(state, state_with(vec![triangle(Some(0))], 10));
}

#[test]
fn rebuild_keeps_the_size() {
    let mut state = state_with(vec![triangle(Some(0))], 10);
    state.rebuild();
    assert_eq!(state, state_with(vec![triangle(Some(0))], 10));
    state.size = PhysicalSize::new(320, 200);
    state.rebuild();
    assert_eq!((state.sc_desc.width, state.sc_desc.height), (320, 200));
    assert_eq!(state.depth_pass.texture.desc.size.width, 320);
    assert_eq!(state.camera_aspect, AspectRatio { width: 320, height: 200 });
}

#[test]
fn degenerate_sizes_are_told_apart() {
    assert!(PhysicalSize::new(0, 1).is_degenerate());
    assert!(PhysicalSize::new(1, 0).is_degenerate());
    assert!(PhysicalSize::new(0, 0).is_degenerate());
    assert!(!PhysicalSize::new(1, 1).is_degenerate());
}

#[test]
fn event_is_consumed_exactly_when_the_camera_controller_took_it() {
    let mut state = state_with(vec![triangle(Some(0)), quad(Some(0))], 1);
    let events = [
        SPACE,
        ESCAPE,
        WindowEvent::KeyboardInput {
            state: ElementState::Released,
            virtual_keycode: Some(VirtualKeyCode::Other),
        },
        WindowEvent::KeyboardInput { state: ElementState::Pressed, virtual_keycode: None },
        WindowEvent::Resized(PhysicalSize::new(1, 2)),
        WindowEvent::ScaleFactorChanged(PhysicalSize::new(3, 4)),
        WindowEvent::CloseRequested,
        WindowEvent::Other,
    ];
    for event in events.iter() {
        assert!(state.input(event, true));
        assert!(!state.input(event, false));
    }
    assert_eq!(state, state_with(vec![triangle(Some(0)), quad(Some(0))], 1));
}

#[test]
fn space_bar_moves_the_marker_when_the_camera_left_it() {
    let mut state = state_with(vec![triangle(Some(0)), quad(Some(0)), triangle(None)], 1);
    assert_eq!(state.scene.mesh_index(), 0);
    assert_eq!(state.handle_event(&SPACE, false), Command::Proceed);
    assert_eq!(state.scene.mesh_index(), 1);
    assert_eq!(state.handle_event(&SPACE, false), Command::Proceed);
    assert_eq!(state.scene.mesh_index(), 2);
    assert_eq!(state.handle_event(&SPACE, false), Command::Proceed);
    assert_eq!(state.scene.mesh_index(), 0);
    let released = WindowEvent::KeyboardInput {
        state: ElementState::Released,
        virtual_keycode: Some(VirtualKeyCode::Space),
    };
    assert_eq!(state.handle_event(&released, false), Command::Proceed);
    assert_eq!(state.scene.mesh_index(), 0);
}

#[test]
fn space_bar_on_an_empty_model_keeps_the_marker() {
    let mut state = state_with(vec![], 1);
    assert_eq!(state.handle_event(&SPACE, false), Command::Proceed);
    assert_eq!(state.scene.mesh_index(), 0);
    let mut single = state_with(vec![quad(None)], 1);
    assert_eq!(single.handle_event(&SPACE, false), Command::Proceed);
    assert_eq!(single.scene.mesh_index(), 0);
}

#[test]
fn event_that_the_camera_took_changes_nothing() {
    let mut state = state_with(vec![triangle(Some(0)), quad(Some(0))], 1);
    let events = [
        SPACE,
        ESCAPE,
        WindowEvent::Resized(PhysicalSize::new(1024, 768)),
        WindowEvent::ScaleFactorChanged(PhysicalSize::new(3, 4)),
        WindowEvent::CloseRequested,
        WindowEvent::Other,
    ];
    for event in events.iter() {
        assert_eq!(state.handle_event(event, true), Command::Proceed);
    }
    assert_eq!(state, state_with(vec![triangle(Some(0)), quad(Some(0))], 1));
}

#[test]
fn update_rewrites_uniforms_then_light() {
    let mut state = state_with(vec![triangle(Some(0))], 1);
    let m = [[1, 2, 3, 4], [5, 6, 7, 8], [9, 10, 11, 12], [13, 14, 15, 16]];
    let writes = state.update(m, [21, 22, 23]);
    assert_eq!(state.uniforms.view_proj, m);
    assert_eq!(state.light.position, [21, 22, 23]);
    assert_eq!(state.light.color, [ONE; 3]);
    assert_eq!(state.light_start, white_light().position);
    assert_eq!(state.light_angle, 1);
    assert_eq!(state.next_light_angle(), 2);
    assert_eq!(writes.len(), 2);
    assert_eq!(writes[0].buffer, BufferId::Uniforms);
    assert_eq!(writes[0].offset, 0);
    assert_eq!(writes[0].data, native_words(&(1..=16).collect::<Vec<u32>>()));
    assert_eq!(writes[1].buffer, BufferId::Light);
    assert_eq!(writes[1].offset, 0);
    assert_eq!(writes[1].data, native_words(&[21, 22, 23, 0, ONE, ONE, ONE, 0]));
    assert_eq!(writes[1].data.len() % 16, 0);
}

#[test]
fn light_has_turned_by_as_many_degrees_as_updates() {
    let mut state = state_with(vec![triangle(Some(0))], 1);
    let m = Uniforms::new().view_proj;
    for k in 1..=725u32 {
        state.update(m, [ZERO; 3]);
        assert_eq!(state.light_angle, k % 360);
    }
    state.light_angle = 1000;
    state.update(m, [ZERO; 3]);
    assert_eq!(state.light_angle, 281);
    state.light_angle = u32::MAX;
    state.update(m, [ZERO; 3]);
    assert_eq!(state.light_angle, (u32::MAX % 360 + 1) % 360);
}

#[test]
fn update_leaves_the_rest_alone() {
    let mut state = state_with(vec![triangle(Some(0))], 2);
    let fresh = state_with(vec![triangle(Some(0))], 2);
    state.update(fresh.uniforms.view_proj, fresh.light.position);
    state.light_angle = 0;
    assert_eq!(state, fresh);
}

#[test]
fn frame_marks_the_light_then_draws_the_model() {
    let mut state = state_with(vec![triangle(Some(0)), quad(Some(0))], 3);
    assert_eq!(state.handle_event(&SPACE, false), Command::Proceed);
    let passes = state.render(Ok(())).unwrap();
    assert_eq!(passes.len(), 2);
    assert_eq!(
        passes[0].desc,
        RenderPassDescriptor {
            color: ColorAttachment {
                load: ColorLoad::Clear(Rgb { r: 100, g: 149, b: 237 }),
                store: true
            },
            depth: Some(DepthAttachment { load: DepthLoad::ClearToFar, store: true }),
        }
    );
    assert_eq!(
        passes[0].commands,
        vec![
            RenderCommand::SetPipeline(PipelineId::LightMarker),
            RenderCommand::SetVertexBuffer { slot: 0, buffer: BufferId::MeshVertices(1) },
            RenderCommand::SetIndexBuffer {
                buffer: BufferId::MeshIndices(1),
                format: IndexFormat::Uint32
            },
            RenderCommand::SetBindGroup { index: 0, group: BindGroupId::Uniforms },
            RenderCommand::SetBindGroup { index: 1, group: BindGroupId::Light },
            RenderCommand::DrawIndexed {
                first_index: 0,
                end_index: 6,
                base_vertex: 0,
                first_instance: 0,
                end_instance: 1,
            },
        ]
    );
    assert_eq!(
        passes[1].desc,
        RenderPassDescriptor {
            color: ColorAttachment { load: ColorLoad::Load, store: true },
            depth: Some(DepthAttachment { load: DepthLoad::Load, store: true }),
        }
    );
    assert_eq!(
        passes[1].commands,
        vec![
            RenderCommand::SetPipeline(PipelineId::Main),
            RenderCommand::SetVertexBuffer { slot: 1, buffer: BufferId::Instances },
            RenderCommand::SetVertexBuffer { slot: 0, buffer: BufferId::MeshVertices(0) },
            RenderCommand::SetIndexBuffer {
                buffer: BufferId::MeshIndices(0),
                format: IndexFormat::Uint32
            },
            RenderCommand::SetBindGroup { index: 0, group: BindGroupId::Material(0) },
            RenderCommand::SetBindGroup { index: 1, group: BindGroupId::Uniforms },
            RenderCommand::SetBindGroup { index: 2, group: BindGroupId::Light },
            RenderCommand::DrawIndexed {
                first_index: 0,
                end_index: 3,
                base_vertex: 0,
                first_instance: 0,
                end_instance: 9,
            },
            RenderCommand::SetVertexBuffer { slot: 0, buffer: BufferId::MeshVertices(1) },
            RenderCommand::SetIndexBuffer {
                buffer: BufferId::MeshIndices(1),
                format: IndexFormat::Uint32
            },
            RenderCommand::SetBindGroup { index: 0, group: BindGroupId::Material(0) },
            RenderCommand::SetBindGroup { index: 1, group: BindGroupId::Uniforms },
            RenderCommand::SetBindGroup { index: 2, group: BindGroupId::Light },
            RenderCommand::DrawIndexed {
                first_index: 0,
                end_index: 6,
                base_vertex: 0,
                first_instance: 0,
                end_instance: 9,
            },
        ]
    );
}

#[test]
fn frame_without_marker_clears_in_the_main_pass() {
    let mut state = state_with(vec![triangle(Some(0))], 1);
    state.light_marker = false;
    let passes = state.render(Ok(())).unwrap();
    assert_eq!(passes.len(), 1);
    assert_eq!(
        passes[0].desc.color,
        ColorAttachment { load: ColorLoad::Clear(Rgb { r: 100, g: 149, b: 237 }), store: true }
    );
    assert_eq!(
        passes[0].desc.depth,
        Some(DepthAttachment { load: DepthLoad::ClearToFar, store: true })
    );
    assert_eq!(passes[0].commands[0], RenderCommand::SetPipeline(PipelineId::Main));
    let draws: Vec<&RenderCommand> = passes[0]
        .commands
        .iter()
        .filter(|c| matches!(c, RenderCommand::DrawIndexed { .. }))
        .collect();
    assert_eq!(
        draws,
        vec![&RenderCommand::DrawIndexed {
            first_index: 0,
            end_index: 3,
            base_vertex: 0,
            first_instance: 0,
            end_instance: 1,
        }]
    );
}

#[test]
fn frame_of_an_empty_model_has_only_the_main_pass() {
    let state = state_with(vec![], 4);
    let passes = state.render(Ok(())).unwrap();
    assert_eq!(passes.len(), 1);
    assert!(matches!(passes[0].desc.color.load, ColorLoad::Clear(_)));
    assert_eq!(
        passes[0].commands,
        vec![
            RenderCommand::SetPipeline(PipelineId::Main),
            RenderCommand::SetVertexBuffer { slot: 1, buffer: BufferId::Instances },
        ]
    );
}

#[test]
fn frame_without_an_image_hands_the_error_on() {
    let state = state_with(vec![triangle(Some(0))], 1);
    for e in [
        SwapChainError::Timeout,
        SwapChainError::Outdated,
        SwapChainError::Lost,
        SwapChainError::OutOfMemory,
    ] {
        assert_eq!(state.render(Err(e)), Err(e));
    }
}

#[test]
fn first_pass_clears_and_later_passes_load() {
    let bg = Rgb { r: 9, g: 8, b: 7 };
    assert_eq!(
        State::pass_descriptor(true, bg),
        RenderPassDescriptor {
            color: ColorAttachment { load: ColorLoad::Clear(bg), store: true },
            depth: Some(DepthAttachment { load: DepthLoad::ClearToFar, store: true }),
        }
    );
    assert_eq!(
        State::pass_descriptor(false, bg),
        RenderPassDescriptor {
            color: ColorAttachment { load: ColorLoad::Load, store: true },
            depth: Some(DepthAttachment { load: DepthLoad::Load, store: true }),
        }
    );
}

#[test]
fn scene_refuses_what_cannot_be_drawn() {
    let layout = create_texture_layout();
    let mut model = Model::load(&layout, &vec![triangle(Some(0))], &vec![material()]).unwrap();
    model.meshes[0].material = 3;
    assert!(Scene::new(model, vec![]).is_none());
    let model = Model::load(&layout, &vec![triangle(Some(0))], &vec![material()]).unwrap();
    let mut scene = Scene::new(model.clone(), build_instances(2, false).unwrap()).unwrap();
    assert_eq!(scene.model(), &model);
    assert_eq!(scene.instances().len(), 4);
    assert_eq!(scene.mesh_index(), 0);
    scene.select_next_mesh();
    assert_eq!(scene.mesh_index(), 0);
}

#[test]
fn depth_pass_is_sized_with_the_chain() {
    let pass = DepthPass::new(&chain(800, 600));
    assert_eq!(
        pass.texture.desc.size,
        Extent3d { width: 800, height: 600, depth_or_array_layers: 1 }
    );
    assert_eq!(pass.texture.desc.format, TextureFormat::Depth32Float);
    assert_eq!(pass.texture.label.as_deref(), Some("depth_texture"));
    assert_eq!(pass.bind_group_layout, create_depth_layout());
    assert_eq!(pass.bind_group, create_depth_bind_group());
    assert_eq!(pass.num_depth_indices, 6);
    assert_eq!(pass.vertex_buffer.id, BufferId::DepthQuadVertices);
    assert_eq!(pass.vertex_buffer.contents.len(), 80);
    assert_eq!(
        pass.vertex_buffer.contents,
        native_words(&bits(&[
            0.0, 0.0, 0.0, 0.0, 1.0, //
            1.0, 0.0, 0.0, 1.0, 1.0, //
            1.0, 1.0, 0.0, 1.0, 0.0, //
            0.0, 1.0, 0.0, 0.0, 0.0,
        ]))
    );
    assert_eq!(pass.index_buffer.id, BufferId::DepthQuadIndices);
    let mut index_bytes = Vec::new();
    for i in [0u16, 1, 2, 0, 2, 3] {
        index_bytes.extend_from_slice(&i.to_ne_bytes());
    }
    assert_eq!(pass.index_buffer.contents, index_bytes);
    assert_eq!(pass.render_pipeline.id, PipelineId::DepthView);
    assert_eq!(pass.render_pipeline.shader, ShaderId::DepthView);
    assert_eq!(pass.render_pipeline.bind_group_layouts, vec![BindGroupLayoutId::Depth]);
    assert_eq!(pass.render_pipeline.buffers, vec![Vertex::desc()]);
    assert_eq!(pass.render_pipeline.target.format, TextureFormat::Bgra8Unorm);
    assert_eq!(pass.render_pipeline.depth_stencil, None);
    assert_eq!(pass.render_pipeline.primitive.cull_mode, Some(Face::Back));
    assert_eq!(plane().len(), 4);
    assert_eq!(plane_index_list(), vec![0, 1, 2, 0, 2, 3]);
}

#[test]
fn depth_pass_resize_replaces_only_the_texture() {
    let mut pass = DepthPass::new(&chain(800, 600));
    let fresh = DepthPass::new(&chain(800, 600));
    pass.resize(&chain(1024, 768));
    assert_eq!(
        pass.texture.desc.size,
        Extent3d { width: 1024, height: 768, depth_or_array_layers: 1 }
    );
    assert_eq!(pass.bind_group, fresh.bind_group);
    assert_eq!(pass.bind_group_layout, fresh.bind_group_layout);
    assert_eq!(pass.vertex_buffer, fresh.vertex_buffer);
    assert_eq!(pass.index_buffer, fresh.index_buffer);
    assert_eq!(pass.num_depth_indices, fresh.num_depth_indices);
    assert_eq!(pass.render_pipeline, fresh.render_pipeline);
    assert_eq!(pass, DepthPass::new(&chain(1024, 768)));
}

#[test]
fn depth_view_draws_the_quad_over_the_frame() {
    let pass = DepthPass::new(&chain(4, 4)).render();
    assert_eq!(
        pass.desc,
        RenderPassDescriptor {
            color: ColorAttachment { load: ColorLoad::Load, store: true },
            depth: None,
        }
    );
    assert_eq!(
        pass.commands,
        vec![
            RenderCommand::SetPipeline(PipelineId::DepthView),
            RenderCommand::SetBindGroup { index: 0, group: BindGroupId::Depth },
            RenderCommand::SetVertexBuffer { slot: 0, buffer: BufferId::DepthQuadVertices },
            RenderCommand::SetIndexBuffer {
                buffer: BufferId::DepthQuadIndices,
                format: IndexFormat::Uint16
            },
            RenderCommand::DrawIndexed {
                first_index: 0,
                end_index: 6,
                base_vertex: 0,
                first_instance: 0,
                end_instance: 1,
            },
        ]
    );
}

#[test]
fn two_lost_chains_call_for_two_rebuilds() {
    let mut frame = FrameState::Idle;
    let mut rebuilds = 0;
    for _ in 0..2 {
        let action = frame.on(FrameEvent::RedrawRequested(Err(SwapChainError::Lost)));
        assert_eq!(action, FrameAction::Rebuild);
        assert_eq!(frame, FrameState::Idle);
        rebuilds += 1;
    }
    assert_eq!(rebuilds, 2);
    assert_eq!(frame.on(FrameEvent::RedrawRequested(Ok(()))), FrameAction::Record);
    assert_eq!(frame, FrameState::Recording);
}

#[test]
fn lost_chain_rebuilds_the_state_at_its_size() {
    let mut state = state_with(vec![triangle(Some(0))], 1);
    let mut frame = FrameState::Idle;
    let mut rebuilds = 0;
    for _ in 0..2 {
        let acquired = Err(SwapChainError::Lost);
        let error = state.render(acquired).unwrap_err();
        if frame.on(FrameEvent::RedrawRequested(Err(error))) == FrameAction::Rebuild {
            state.rebuild();
            rebuilds += 1;
        }
    }
    assert_eq!(rebuilds, 2);
    assert_eq!(state, state_with(vec![triangle(Some(0))], 1));
}

#[test]
fn frame_runs_from_idle_to_idle() {
    let mut frame = FrameState::Idle;
    assert_eq!(frame.on(FrameEvent::RedrawRequested(Ok(()))), FrameAction::Record);
    assert_eq!(frame, FrameState::Recording);
    assert_eq!(frame.on(FrameEvent::Recorded), FrameAction::Submit);
    assert_eq!(frame, FrameState::Submitted);
    assert_eq!(frame.on(FrameEvent::Queued), FrameAction::Present);
    assert_eq!(frame, FrameState::Presented);
    assert_eq!(frame.on(FrameEvent::Shown), FrameAction::Wait);
    assert_eq!(frame, FrameState::Idle);
}

#[test]
fn out_of_memory_ends_the_loop() {
    let mut frame = FrameState::Idle;
    assert_eq!(
        frame.on(FrameEvent::RedrawRequested(Err(SwapChainError::OutOfMemory))),
        FrameAction::Exit
    );
    assert_eq!(frame, FrameState::Idle);
}

#[test]
fn other_failures_drop_the_frame() {
    let mut frame = FrameState::Idle;
    assert_eq!(
        frame.on(FrameEvent::RedrawRequested(Err(SwapChainError::Timeout))),
        FrameAction::Skip(SwapChainError::Timeout)
    );
    assert_eq!(
        frame.on(FrameEvent::RedrawRequested(Err(SwapChainError::Outdated))),
        FrameAction::Skip(SwapChainError::Outdated)
    );
    assert_eq!(frame, FrameState::Idle);
}

#[test]
fn events_out_of_turn_change_nothing() {
    let all = [
        FrameEvent::RedrawRequested(Ok(())),
        FrameEvent::RedrawRequested(Err(SwapChainError::Lost)),
        FrameEvent::Recorded,
        FrameEvent::Queued,
        FrameEvent::Shown,
    ];
    let turns = [
        (FrameState::Idle, vec![0usize, 1]),
        (FrameState::Recording, vec![2]),
        (FrameState::Submitted, vec![3]),
        (FrameState::Presented, vec![4]),
    ];
    for (state, in_turn) in turns.iter() {
        for (i, event) in all.iter().enumerate() {
            if !in_turn.contains(&i) {
                let mut frame = *state;
                assert_eq!(frame.on(*event), FrameAction::Wait);
                assert_eq!(frame, *state);
            }
        }
    }
}


#[test]
fn closing_and_escape_end_the_loop() {
    let mut state = state_with(vec![triangle(Some(0))], 1);
    assert_eq!(state.handle_event(&WindowEvent::CloseRequested, false), Command::Exit);
    assert_eq!(state.handle_event(&ESCAPE, false), Command::Exit);
    assert_eq!(state, state_with(vec![triangle(Some(0))], 1));
    let released = WindowEvent::KeyboardInput {
        state: ElementState::Released,
        virtual_keycode: Some(VirtualKeyCode::Escape),
    };
    assert_eq!(state.handle_event(&released, false), Command::Proceed);
}

#[test]
fn new_size_reconfigures_when_it_takes_effect() {
    let mut state = state_with(vec![triangle(Some(0))], 1);
    assert_eq!(
        state.handle_event(&WindowEvent::Resized(PhysicalSize::new(1024, 768)), false),
        Command::Reconfigure
    );
    assert_eq!((state.sc_desc.width, state.sc_desc.height), (1024, 768));
    assert_eq!(state.depth_pass.texture.desc.size.width, 1024);
    assert_eq!(state.camera_aspect, AspectRatio { width: 1024, height: 768 });
    assert_eq!(
        state.handle_event(&WindowEvent::Resized(PhysicalSize::new(1024, 768)), false),
        Command::Proceed
    );
    assert_eq!(
        state.handle_event(&WindowEvent::ScaleFactorChanged(PhysicalSize::new(2048, 1536)), false),
        Command::Reconfigure
    );
    assert_eq!(state.size, PhysicalSize { width: 2048, height: 1536 });
    assert_eq!(
        state.handle_event(&WindowEvent::Resized(PhysicalSize::new(0, 600)), false),
        Command::Proceed
    );
    assert_eq!(
        state.handle_event(&WindowEvent::ScaleFactorChanged(PhysicalSize::new(5, 0)), false),
        Command::Proceed
    );
    assert_eq!(state.size, PhysicalSize { width: 2048, height: 1536 });
    assert_eq!(state.handle_event(&WindowEvent::Other, false), Command::Proceed);
}

#[test]
fn second_resize_to_the_same_size_finds_nothing_to_do() {
    let mut once = state_with(vec![triangle(Some(0))], 1);
    assert!(once.resize(PhysicalSize::new(640, 480)));
    let mut twice = state_with(vec![triangle(Some(0))], 1);
    assert!(twice.resize(PhysicalSize::new(640, 480)));
    assert!(!twice.resize(PhysicalSize::new(640, 480)));
    assert_eq!(once, twice);
}

#[test]
fn every_set_of_a_frame_is_made_for_the_group_it_goes_to() {
    let state = state_with(vec![triangle(Some(0)), quad(Some(0))], 2);
    let passes = state.render(Ok(())).unwrap();
    let pipelines = [&state.light_render_pipeline, &state.render_pipeline];
    for (pass, pipeline) in passes.iter().zip(pipelines.iter()) {
        assert_eq!(pass.commands[0], RenderCommand::SetPipeline(pipeline.id));
        for command in pass.commands.iter() {
            match *command {
                RenderCommand::SetBindGroup { index, group } => {
                    let layout = match group {
                        BindGroupId::Material(i) => {
                            state.scene.model().materials[i].bind_group.layout
                        }
                        BindGroupId::Uniforms => state.uniform_bind_group.layout,
                        BindGroupId::Light => state.light_bind_group.layout,
                        BindGroupId::Depth => state.depth_pass.bind_group.layout,
                    };
                    assert_eq!(pipeline.bind_group_layouts[index as usize], layout);
                }
                RenderCommand::SetVertexBuffer { slot, buffer } => {
                    assert!((slot as usize) < pipeline.buffers.len());
                    let by_instance = pipeline.buffers[slot as usize].step_mode
                        == render_state::gpu::InputStepMode::Instance;
                    assert_eq!(buffer == BufferId::Instances, by_instance);
                }
                _ => {}
            }
        }
    }
}

#[test]
fn every_draw_reads_what_its_index_buffer_holds() {
    let state = state_with(vec![triangle(Some(0)), quad(Some(0))], 2);
    let passes = state.render(Ok(())).unwrap();
    let model = state.scene.model();
    let main = &passes[1].commands;
    assert_eq!(main.len(), 2 + 6 * model.meshes.len());
    for (i, mesh) in model.meshes.iter().enumerate() {
        assert_eq!(
            main[2 + 6 * i],
            RenderCommand::SetVertexBuffer { slot: 0, buffer: BufferId::MeshVertices(i) }
        );
        assert_eq!(
            main[2 + 6 * i + 1],
            RenderCommand::SetIndexBuffer {
                buffer: BufferId::MeshIndices(i),
                format: IndexFormat::Uint32
            }
        );
        assert_eq!(
            main[2 + 6 * i + 5],
            RenderCommand::DrawIndexed {
                first_index: 0,
                end_index: (mesh.index_buffer.contents.len() / 4) as u32,
                base_vertex: 0,
                first_instance: 0,
                end_instance: state.scene.instances().len() as u32,
            }
        );
    }
}

#[test]
fn state_lays_out_its_instances_for_the_step_it_is_told() {
    let build = |step_is_zero: bool| {
        State::new(
            PhysicalSize::new(800, 600),
            TextureFormat::Bgra8UnormSrgb,
            white_light(),
            &vec![triangle(Some(0))],
            &vec![material()],
            1,
            step_is_zero,
        )
        .unwrap()
    };
    let collapsed = build(true);
    assert_eq!(collapsed.scene.instances(), &build_instances(1, true).unwrap());
    assert_eq!(collapsed.scene.instances().len(), 1);
    assert_eq!(
        collapsed.scene.instances()[0].rotation,
        render_state::instance::Rotation::Identity
    );
    let spread = build(false);
    assert_eq!(
        spread.scene.instances()[0].rotation,
        render_state::instance::Rotation::AboutPosition { degrees: 45 }
    );
}

#[test]
fn unknown_surface_format_is_handed_on() {
    let state = State::new(
        PhysicalSize::new(4, 4),
        TextureFormat::Other(77),
        white_light(),
        &vec![],
        &vec![],
        1,
        false,
    )
    .unwrap();
    assert_eq!(state.sc_desc.format, TextureFormat::Other(77));
    assert_eq!(state.render_pipeline.target.format, TextureFormat::Other(77));
    assert_eq!(state.light_render_pipeline.target.format, TextureFormat::Other(77));
    assert_eq!(state.depth_pass.render_pipeline.target.format, TextureFormat::Other(77));
    assert_eq!(state.depth_pass.texture.desc.format, TextureFormat::Depth32Float);
}
