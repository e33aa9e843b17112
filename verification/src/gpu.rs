//! The vocabulary in which GPU resources are described.
//!
//! Every type here is plain data. A value says what is to exist on the
//! device; creating it there is the caller's business.

use vstd::prelude::*;

verus! {

/// Client-area size of the window, in physical pixels.
#[derive(Clone, Copy, Debug, PartialEq, Eq, Structural)]
pub struct PhysicalSize {
    pub width: u32,
    pub height: u32,
}

impl PhysicalSize {
    /// A size of the given width and height.
    pub fn new(width: u32, height: u32) -> (size: PhysicalSize)
        ensures
            size.width == width,
            size.height == height,
    {
        PhysicalSize { width, height }
    }

    /// A size with a zero side has no pixels to present.
    pub open spec fn degenerate(self) -> bool {
        self.width == 0 || self.height == 0
    }

    /// Whether a side is zero.
    pub fn is_degenerate(&self) -> (b: bool)
        ensures
            b == self.degenerate(),
    {
        self.width == 0 || self.height == 0
    }
}

/// Width over height, kept as the exact fraction.
#[derive(Clone, Copy, Debug, PartialEq, Eq, Structural)]
pub struct AspectRatio {
    pub width: u32,
    pub height: u32,
}

/// Pixel formats of the presentation chain and of the textures in use.
#[derive(Clone, Copy, Debug, PartialEq, Eq, Structural)]
pub enum TextureFormat {
    Rgba8Unorm,
    Rgba8UnormSrgb,
    Bgra8Unorm,
    Bgra8UnormSrgb,
    Depth32Float,
    /// Any other format, told by a number of the caller's choosing. The
    /// renderer hands it on without looking at it.
    Other(u32),
}

/// When an image of the presentation chain reaches the screen.
#[derive(Clone, Copy, Debug, PartialEq, Eq, Structural)]
pub enum PresentMode {
    Immediate,
    Mailbox,
    Fifo,
}

/// How many dimensions a texture has.
#[derive(Clone, Copy, Debug, PartialEq, Eq, Structural)]
pub enum TextureDimension {
    D1,
    D2,
    D3,
}

/// What a sampler reads outside the edges of a texture.
#[derive(Clone, Copy, Debug, PartialEq, Eq, Structural)]
pub enum AddressMode {
    ClampToEdge,
    Repeat,
    MirrorRepeat,
}

/// How a sampler picks among the texels around a coordinate.
#[derive(Clone, Copy, Debug, PartialEq, Eq, Structural)]
pub enum FilterMode {
    Nearest,
    Linear,
}

/// The comparison of a new value with the one that is there.
#[derive(Clone, Copy, Debug, PartialEq, Eq, Structural)]
pub enum CompareFunction {
    Never,
    Less,
    Equal,
    LessEqual,
    Greater,
    NotEqual,
    GreaterEqual,
    Always,
}

/// The width of the indices in an index buffer.
#[derive(Clone, Copy, Debug, PartialEq, Eq, Structural)]
pub enum IndexFormat {
    Uint16,
    Uint32,
}

/// Whether a vertex buffer advances with every vertex or with every
/// instance.
#[derive(Clone, Copy, Debug, PartialEq, Eq, Structural)]
pub enum InputStepMode {
    Vertex,
    Instance,
}

/// How vertices are assembled into primitives.
#[derive(Clone, Copy, Debug, PartialEq, Eq, Structural)]
pub enum PrimitiveTopology {
    PointList,
    LineList,
    LineStrip,
    TriangleList,
    TriangleStrip,
}

/// The winding of a triangle that faces the viewer.
#[derive(Clone, Copy, Debug, PartialEq, Eq, Structural)]
pub enum FrontFace {
    Ccw,
    Cw,
}

/// A side of a triangle.
#[derive(Clone, Copy, Debug, PartialEq, Eq, Structural)]
pub enum Face {
    Front,
    Back,
}

/// How a triangle is rasterised.
#[derive(Clone, Copy, Debug, PartialEq, Eq, Structural)]
pub enum PolygonMode {
    Fill,
    Line,
    Point,
}

/// How a colour component of the source is combined with the target.
#[derive(Clone, Copy, Debug, PartialEq, Eq, Structural)]
pub enum BlendComponent {
    /// The source overwrites the target.
    Replace,
    /// The source is laid over the target, which shows through by as much
    /// as the source's alpha leaves.
    Over,
}

/// The ways in which a texture may be used.
#[derive(Clone, Copy, Debug, PartialEq, Eq, Structural)]
pub struct TextureUsage {
    pub copy_src: bool,
    pub copy_dst: bool,
    pub sampled: bool,
    pub storage: bool,
    pub render_attachment: bool,
}

/// The ways in which a buffer may be used.
#[derive(Clone, Copy, Debug, PartialEq, Eq, Structural)]
pub struct BufferUsage {
    pub copy_src: bool,
    pub copy_dst: bool,
    pub index: bool,
    pub vertex: bool,
    pub uniform: bool,
}

/// The shader stages that see a binding.
#[derive(Clone, Copy, Debug, PartialEq, Eq, Structural)]
pub struct ShaderStage {
    pub vertex: bool,
    pub fragment: bool,
    pub compute: bool,
}

/// The size of a texture.
#[derive(Clone, Copy, Debug, PartialEq, Eq, Structural)]
pub struct Extent3d {
    pub width: u32,
    pub height: u32,
    pub depth_or_array_layers: u32,
}

/// An opaque colour with eight bits per channel.
#[derive(Clone, Copy, Debug, PartialEq, Eq, Structural)]
pub struct Rgb {
    pub r: u8,
    pub g: u8,
    pub b: u8,
}

/// Configuration of the presentation chain.
#[derive(Clone, Copy, Debug, PartialEq, Eq, Structural)]
pub struct SwapChainDescriptor {
    pub usage: TextureUsage,
    pub format: TextureFormat,
    pub width: u32,
    pub height: u32,
    pub present_mode: PresentMode,
}

/// Why no image of the presentation chain could be acquired.
#[derive(Clone, Copy, Debug, PartialEq, Eq, Structural)]
pub enum SwapChainError {
    Timeout,
    Outdated,
    Lost,
    OutOfMemory,
}

/// The range of detail levels that a sampler may pick from.
#[derive(Clone, Copy, Debug, PartialEq, Eq, Structural)]
pub enum LodClamp {
    /// From the base level up to whatever the texture has.
    Unbounded,
    /// Between two whole levels, both included.
    Between { min: i32, max: i32 },
}

/// How a texture is sampled. No anisotropy is used and no border colour.
#[derive(Clone, Copy, Debug, PartialEq, Eq, Structural)]
pub struct SamplerDescriptor {
    pub address_mode_u: AddressMode,
    pub address_mode_v: AddressMode,
    pub address_mode_w: AddressMode,
    pub mag_filter: FilterMode,
    pub min_filter: FilterMode,
    pub mipmap_filter: FilterMode,
    pub lod_clamp: LodClamp,
    pub compare: Option<CompareFunction>,
}

/// What a texture is created with, but for its label.
#[derive(Clone, Copy, Debug, PartialEq, Eq, Structural)]
pub struct TextureDescriptor {
    pub size: Extent3d,
    pub mip_level_count: u32,
    pub sample_count: u32,
    pub dimension: TextureDimension,
    pub format: TextureFormat,
    pub usage: TextureUsage,
}

/// How the rows of an image lie in the bytes that are copied to a texture.
/// A stride of `None` stands for "not given", as a zero stride cannot be.
#[derive(Clone, Copy, Debug, PartialEq, Eq, Structural)]
pub struct ImageDataLayout {
    pub offset: u64,
    pub bytes_per_row: Option<u32>,
    pub rows_per_image: Option<u32>,
}

/// Names of the textures that the renderer owns.
#[derive(Clone, Copy, Debug, PartialEq, Eq, Structural)]
pub enum TextureId {
    /// The depth attachment.
    Depth,
    /// The diffuse image of the material with this index.
    Diffuse(usize),
}

/// Names of the buffers that the renderer owns.
#[derive(Clone, Copy, Debug, PartialEq, Eq, Structural)]
pub enum BufferId {
    /// The view-projection matrix.
    Uniforms,
    /// The point light.
    Light,
    /// The per-instance transforms.
    Instances,
    /// The vertices of the mesh with this index.
    MeshVertices(usize),
    /// The indices of the mesh with this index.
    MeshIndices(usize),
    /// The vertices of the quad on which the depth buffer is shown.
    DepthQuadVertices,
    /// The indices of that quad.
    DepthQuadIndices,
}

/// Names of the binding layouts.
#[derive(Clone, Copy, Debug, PartialEq, Eq, Structural)]
pub enum BindGroupLayoutId {
    /// A sampled colour texture and its sampler.
    Texture,
    /// The view-projection uniform.
    Uniforms,
    /// The light uniform.
    Light,
    /// The depth texture and its comparison sampler.
    Depth,
}

/// Names of the resource-binding sets.
#[derive(Clone, Copy, Debug, PartialEq, Eq, Structural)]
pub enum BindGroupId {
    /// The set of the material with this index.
    Material(usize),
    Uniforms,
    Light,
    Depth,
}

/// Names of the render pipelines.
#[derive(Clone, Copy, Debug, PartialEq, Eq, Structural)]
pub enum PipelineId {
    /// The lit, instanced pipeline.
    Main,
    /// The pipeline that marks where the light is.
    LightMarker,
    /// The pipeline that shows the depth buffer.
    DepthView,
}

/// Names of the shader programs. Their text is held by the caller.
#[derive(Clone, Copy, Debug, PartialEq, Eq, Structural)]
pub enum ShaderId {
    Main,
    LightMarker,
    DepthView,
}

/// What a binding slot of a layout expects.
#[derive(Clone, Copy, Debug, PartialEq, Eq, Structural)]
pub enum BindingType {
    /// A two-dimensional texture sampled as filterable colour.
    ColorTexture,
    /// A two-dimensional texture sampled as depth.
    DepthTexture,
    /// A sampler.
    Sampler { filtering: bool, comparison: bool },
    /// A uniform buffer, bound whole, without a dynamic offset.
    UniformBuffer,
}

/// One slot of a binding layout.
#[derive(Clone, Copy, Debug, PartialEq, Eq, Structural)]
pub struct BindGroupLayoutEntry {
    pub binding: u32,
    pub visibility: ShaderStage,
    pub ty: BindingType,
}

/// What is bound to a slot of a resource-binding set.
#[derive(Clone, Copy, Debug, PartialEq, Eq, Structural)]
pub enum BindingResource {
    TextureView(TextureId),
    Sampler(TextureId),
    Buffer(BufferId),
}

/// One slot of a resource-binding set.
#[derive(Clone, Copy, Debug, PartialEq, Eq, Structural)]
pub struct BindGroupEntry {
    pub binding: u32,
    pub resource: BindingResource,
}

/// A layout with at most two slots, which is all that the renderer binds.
#[derive(Clone, Copy, Debug, PartialEq, Eq, Structural)]
pub struct BindGroupLayout {
    pub id: BindGroupLayoutId,
    pub first: BindGroupLayoutEntry,
    pub second: Option<BindGroupLayoutEntry>,
}

/// A resource-binding set for a layout with at most two slots.
#[derive(Clone, Copy, Debug, PartialEq, Eq, Structural)]
pub struct BindGroup {
    pub id: BindGroupId,
    pub layout: BindGroupLayoutId,
    pub first: BindGroupEntry,
    pub second: Option<BindGroupEntry>,
}

/// A buffer and the bytes that it is created with.
#[derive(Clone, Debug, PartialEq, Eq)]
pub struct Buffer {
    pub id: BufferId,
    pub contents: Vec<u8>,
    pub usage: BufferUsage,
}

/// Bytes to be written into a buffer from its start.
#[derive(Clone, Debug, PartialEq, Eq)]
pub struct BufferWrite {
    pub buffer: BufferId,
    pub offset: u64,
    pub data: Vec<u8>,
}

/// No use of a texture at all.
pub open spec fn no_texture_usage() -> TextureUsage {
    TextureUsage {
        copy_src: false,
        copy_dst: false,
        sampled: false,
        storage: false,
        render_attachment: false,
    }
}

/// No use of a buffer at all.
pub open spec fn no_buffer_usage() -> BufferUsage {
    BufferUsage { copy_src: false, copy_dst: false, index: false, vertex: false, uniform: false }
}

/// A buffer that vertices are read from.
pub open spec fn vertex_usage() -> BufferUsage {
    BufferUsage { vertex: true, ..no_buffer_usage() }
}

/// A buffer that indices are read from.
pub open spec fn index_usage() -> BufferUsage {
    BufferUsage { index: true, ..no_buffer_usage() }
}

/// A uniform buffer that is rewritten from the CPU.
pub open spec fn uniform_usage() -> BufferUsage {
    BufferUsage { uniform: true, copy_dst: true, ..no_buffer_usage() }
}

/// Seen by the fragment stage alone.
pub open spec fn fragment_only() -> ShaderStage {
    ShaderStage { vertex: false, fragment: true, compute: false }
}

/// Seen by the vertex and the fragment stage.
pub open spec fn vertex_and_fragment() -> ShaderStage {
    ShaderStage { vertex: true, fragment: true, compute: false }
}

impl BufferUsage {
    /// The usage of a vertex buffer.
    pub fn vertex() -> (u: BufferUsage)
        ensures
            u == vertex_usage(),
    {
        BufferUsage { copy_src: false, copy_dst: false, index: false, vertex: true, uniform: false }
    }

    /// The usage of an index buffer.
    pub fn index() -> (u: BufferUsage)
        ensures
            u == index_usage(),
    {
        BufferUsage { copy_src: false, copy_dst: false, index: true, vertex: false, uniform: false }
    }

    /// The usage of a uniform buffer that is written from the CPU.
    pub fn uniform() -> (u: BufferUsage)
        ensures
            u == uniform_usage(),
    {
        BufferUsage { copy_src: false, copy_dst: true, index: false, vertex: false, uniform: true }
    }
}

impl ShaderStage {
    /// The fragment stage alone.
    pub fn fragment() -> (s: ShaderStage)
        ensures
            s == fragment_only(),
    {
        ShaderStage { vertex: false, fragment: true, compute: false }
    }

    /// The vertex and the fragment stage.
    pub fn vertex_fragment() -> (s: ShaderStage)
        ensures
            s == vertex_and_fragment(),
    {
        ShaderStage { vertex: true, fragment: true, compute: false }
    }
}

} // verus!
