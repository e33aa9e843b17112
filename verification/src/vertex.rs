//! Vertex records and the layouts under which a pipeline reads them.
//!
//! A component is held as the bit pattern of a single-precision number, so
//! that a record is exactly the words that reach the GPU.

use vstd::prelude::*;
use crate::bytes::{is_half_image, is_word_image, halves_to_bytes, words_to_bytes};
use crate::gpu::{Buffer, BufferId, BufferUsage, InputStepMode, index_usage, vertex_usage};

verus! {

/// The bit pattern of the single-precision number 1.
pub const ONE: u32 = 0x3F80_0000;

/// The bit pattern of the single-precision number 0.
pub const ZERO: u32 = 0;

/// The formats of vertex attributes in use: two, three or four
/// single-precision numbers.
#[derive(Clone, Copy, Debug, PartialEq, Eq, Structural)]
pub enum VertexFormat {
    Float32x2,
    Float32x3,
    Float32x4,
}

/// Bytes taken by one attribute of the format.
pub open spec fn format_size(format: VertexFormat) -> nat {
    match format {
        VertexFormat::Float32x2 => 8,
        VertexFormat::Float32x3 => 12,
        VertexFormat::Float32x4 => 16,
    }
}

impl VertexFormat {
    /// Bytes taken by one attribute of the format.
    pub fn size(&self) -> (n: u64)
        ensures
            n == format_size(*self),
    {
        match self {
            VertexFormat::Float32x2 => 8,
            VertexFormat::Float32x3 => 12,
            VertexFormat::Float32x4 => 16,
        }
    }
}

/// One attribute of a vertex: its format, where it starts in the record,
/// and the shader location it feeds.
#[derive(Clone, Copy, Debug, PartialEq, Eq, Structural)]
pub struct VertexAttribute {
    pub format: VertexFormat,
    pub offset: u64,
    pub shader_location: u32,
}

/// How a pipeline steps through one vertex buffer.
#[derive(Clone, Debug, PartialEq, Eq)]
pub struct VertexBufferLayout {
    pub array_stride: u64,
    pub step_mode: InputStepMode,
    pub attributes: Vec<VertexAttribute>,
}

/// Bytes taken by the first `n` of the formats when nothing lies between
/// them.
pub open spec fn packed_offset(formats: Seq<VertexFormat>, n: int) -> nat
    decreases n,
{
    if n <= 0 {
        0
    } else {
        packed_offset(formats, n - 1) + format_size(formats[n - 1])
    }
}

/// The attributes of a record whose fields follow each other without
/// padding, bound to consecutive shader locations.
pub open spec fn packed_attributes(formats: Seq<VertexFormat>, first_location: u32) -> Seq<
    VertexAttribute,
> {
    Seq::new(
        formats.len(),
        |i: int|
            VertexAttribute {
                format: formats[i],
                offset: packed_offset(formats, i) as u64,
                shader_location: (first_location + i) as u32,
            },
    )
}

/// An attribute takes at most sixteen bytes, so `n` of them take at most
/// `16 * n`.
pub proof fn packed_offset_bound(formats: Seq<VertexFormat>, n: int)
    requires
        0 <= n <= formats.len(),
    ensures
        packed_offset(formats, n) <= 16 * n,
    decreases n,
{
    if n > 0 {
        packed_offset_bound(formats, n - 1);
    }
}

/// Packed attributes tile the record: each begins where the one before it
/// ends, so no two overlap and none is left out, and the last ends where
/// the record does.
pub proof fn packed_attributes_tile_the_record(
    formats: Seq<VertexFormat>,
    first_location: u32,
    i: int,
)
    requires
        0 <= i < formats.len(),
        first_location + formats.len() <= u32::MAX,
    ensures
        packed_attributes(formats, first_location)[i].offset + format_size(formats[i])
            == packed_offset(formats, i + 1),
        i + 1 < formats.len() ==> packed_attributes(formats, first_location)[i + 1].offset
            == packed_attributes(formats, first_location)[i].offset + format_size(formats[i]),
        packed_attributes(formats, first_location)[i].offset + format_size(formats[i])
            <= packed_offset(formats, formats.len() as int),
        packed_attributes(formats, first_location)[i].shader_location == first_location + i,
{
    packed_offset_bound(formats, i);
    packed_offset_bound(formats, i + 1);
    packed_offset_grows(formats, i + 1, formats.len() as int);
}

/// More formats take no fewer bytes.
pub proof fn packed_offset_grows(formats: Seq<VertexFormat>, m: int, n: int)
    requires
        0 <= m <= n,
    ensures
        packed_offset(formats, m) <= packed_offset(formats, n),
    decreases n - m,
{
    if m < n {
        packed_offset_grows(formats, m, n - 1);
    }
}

/// The layout of a buffer of packed records: each attribute starts where
/// the one before it ends, and the stride is the size of a whole record.
pub fn packed_layout(
    formats: &Vec<VertexFormat>,
    first_location: u32,
    step_mode: InputStepMode,
) -> (layout: VertexBufferLayout)
    requires
        first_location + formats@.len() <= u32::MAX,
    ensures
        layout.attributes@ == packed_attributes(formats@, first_location),
        layout.array_stride == packed_offset(formats@, formats@.len() as int),
        layout.step_mode == step_mode,
{
    let mut attributes: Vec<VertexAttribute> = Vec::new();
    let mut offset: u64 = 0;
    let mut i: usize = 0;
    while i < formats.len()
        invariant
            i <= formats@.len(),
            first_location + formats@.len() <= u32::MAX,
            offset == packed_offset(formats@, i as int),
            attributes@ == packed_attributes(formats@, first_location).subrange(0, i as int),
        decreases formats@.len() - i,
    {
        let format = formats[i];
        proof {
            packed_offset_bound(formats@, i as int);
        }
        attributes.push(
            VertexAttribute { format, offset, shader_location: first_location + i as u32 },
        );
        offset = offset + format.size();
        i = i + 1;
    }
    VertexBufferLayout { array_stride: offset, step_mode, attributes }
}

/// A vertex with a position and a texture coordinate.
#[derive(Clone, Copy, Debug, PartialEq, Eq)]
pub struct Vertex {
    pub position: [u32; 3],
    pub tex_coords: [u32; 2],
}

/// Words in one `Vertex`.
pub const VERTEX_WORDS: usize = 5;

/// Word `k` of a vertex: the position, then the texture coordinate.
pub open spec fn vertex_word(v: Vertex, k: int) -> u32 {
    if k < 3 {
        v.position@[k]
    } else {
        v.tex_coords@[k - 3]
    }
}

/// The vertices as the words of one buffer, record after record.
pub open spec fn vertex_words(vertices: Seq<Vertex>) -> Seq<u32> {
    Seq::new(5 * vertices.len(), |i: int| vertex_word(vertices[i / 5], i % 5))
}

/// The attributes of a `Vertex`: three numbers at offset 0 for location 0,
/// two numbers at offset 12 for location 1.
pub open spec fn vertex_attributes() -> Seq<VertexAttribute> {
    seq![
        VertexAttribute { format: VertexFormat::Float32x3, offset: 0, shader_location: 0 },
        VertexAttribute { format: VertexFormat::Float32x2, offset: 12, shader_location: 1 },
    ]
}

impl Vertex {
    /// The layout of a buffer of `Vertex` records. Its stride is the twenty
    /// bytes of a record, so the layout covers each record exactly.
    pub fn desc() -> (layout: VertexBufferLayout)
        ensures
            layout.array_stride == 20,
            layout.array_stride == 4 * VERTEX_WORDS,
            layout.step_mode == InputStepMode::Vertex,
            layout.attributes@ == vertex_attributes(),
    {
        let mut formats: Vec<VertexFormat> = Vec::new();
        formats.push(VertexFormat::Float32x3);
        formats.push(VertexFormat::Float32x2);
        let layout = packed_layout(&formats, 0, InputStepMode::Vertex);
        proof {
            reveal_with_fuel(packed_offset, 3);
        }
        layout
    }
}

/// The words of `vertices`, record after record.
pub fn flatten_vertices(vertices: &Vec<Vertex>) -> (words: Vec<u32>)
    ensures
        words@ == vertex_words(vertices@),
{
    let mut words: Vec<u32> = Vec::new();
    let mut i: usize = 0;
    while i < vertices.len()
        invariant
            i <= vertices@.len(),
            words@ == vertex_words(vertices@).subrange(0, 5 * i),
        decreases vertices@.len() - i,
    {
        let v = vertices[i];
        words.push(v.position[0]);
        words.push(v.position[1]);
        words.push(v.position[2]);
        words.push(v.tex_coords[0]);
        words.push(v.tex_coords[1]);
        i = i + 1;
    }
    words
}

/// The vertex buffer and the index buffer of a mesh with 16-bit indices,
/// and the number of indices to draw.
///
/// `None` is returned exactly when the indices are too many to be counted
/// in 32 bits.
pub fn create_mesh_buffers(
    vertex_id: BufferId,
    index_id: BufferId,
    vertices: &Vec<Vertex>,
    indices: &Vec<u16>,
) -> (r: Option<(Buffer, Buffer, u32)>)
    ensures
        r is None <==> indices@.len() > u32::MAX,
        r matches Some((vertex_buffer, index_buffer, num_indices)) ==> {
            &&& vertex_buffer.id == vertex_id
            &&& vertex_buffer.usage == vertex_usage()
            &&& is_word_image(vertex_buffer.contents@, vertex_words(vertices@))
            &&& vertex_buffer.contents@.len() == 20 * vertices@.len()
            &&& index_buffer.id == index_id
            &&& index_buffer.usage == index_usage()
            &&& is_half_image(index_buffer.contents@, indices@)
            &&& index_buffer.contents@.len() == 2 * indices@.len()
            &&& num_indices == indices@.len()
        },
{
    if indices.len() > u32::MAX as usize {
        return None;
    }
    let words = flatten_vertices(vertices);
    let vertex_buffer = Buffer {
        id: vertex_id,
        contents: words_to_bytes(&words),
        usage: BufferUsage::vertex(),
    };
    let num_indices = indices.len() as u32;
    let index_buffer = Buffer {
        id: index_id,
        contents: halves_to_bytes(indices),
        usage: BufferUsage::index(),
    };
    Some((vertex_buffer, index_buffer, num_indices))
}

/// The indices that cut a convex polygon of `corners` corners into a fan
/// of triangles around corner 0: triangle `t` is `(t + 2, t + 1, 0)`.
pub open spec fn fan_indices(corners: u16) -> Seq<u16> {
    if corners < 3 {
        Seq::empty()
    } else {
        Seq::new(
            3 * (corners - 2) as nat,
            |i: int|
                if i % 3 == 0 {
                    (i / 3 + 2) as u16
                } else if i % 3 == 1 {
                    (i / 3 + 1) as u16
                } else {
                    0u16
                },
        )
    }
}

/// Triangulates a convex polygon as a fan. A polygon of fewer than three
/// corners has no triangle.
pub fn polygon_indices(corners: u16) -> (indices: Vec<u16>)
    ensures
        indices@ == fan_indices(corners),
{
    let mut indices: Vec<u16> = Vec::new();
    if corners < 3 {
        return indices;
    }
    let triangles: u16 = corners - 2;
    let mut t: u16 = 0;
    while t < triangles
        invariant
            t <= triangles,
            triangles == corners - 2,
            corners >= 3,
            indices@ == fan_indices(corners).subrange(0, 3 * t),
        decreases triangles - t,
    {
        indices.push(t + 2);
        indices.push(t + 1);
        indices.push(0);
        t = t + 1;
    }
    indices
}

} // verus!
