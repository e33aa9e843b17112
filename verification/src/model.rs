//! Models: meshes with their buffers, materials with their textures and
//! resource-binding sets, and the commands that draw them.

use vstd::prelude::*;
use crate::bytes::{is_word_image, words_to_bytes};
use crate::gpu::{
    BindGroup, BindGroupEntry, BindGroupId, BindGroupLayout, BindGroupLayoutId, BindingResource,
    Buffer, BufferId, BufferUsage, IndexFormat, InputStepMode, TextureId, index_usage,
    vertex_usage,
};
use crate::pass::{PassView, RenderCommand, RenderPass};
use crate::texture::{DecodedImage, Texture, TextureError};
use crate::vertex::{
    VertexAttribute, VertexBufferLayout, VertexFormat, packed_layout, packed_offset,
};

verus! {

/// A vertex of a model: position, texture coordinate and normal, each
/// component the bit pattern of a single-precision number.
#[derive(Clone, Copy, Debug, PartialEq, Eq)]
pub struct ModelVertex {
    pub position: [u32; 3],
    pub tex_coords: [u32; 2],
    pub normal: [u32; 3],
}

/// Words in one `ModelVertex`.
pub const MODEL_VERTEX_WORDS: usize = 8;

/// Word `k` of a vertex: the position, then the texture coordinate, then
/// the normal.
pub open spec fn model_vertex_word(v: ModelVertex, k: int) -> u32 {
    if k < 3 {
        v.position@[k]
    } else if k < 5 {
        v.tex_coords@[k - 3]
    } else {
        v.normal@[k - 5]
    }
}

/// The vertices as the words of one buffer, record after record.
pub open spec fn model_vertex_words(vertices: Seq<ModelVertex>) -> Seq<u32> {
    Seq::new(8 * vertices.len(), |i: int| model_vertex_word(vertices[i / 8], i % 8))
}

/// The attributes of a `ModelVertex`: the position at offset 0 for
/// location 0, the texture coordinate at offset 12 for location 1, the
/// normal at offset 20 for location 2.
pub open spec fn model_vertex_attributes() -> Seq<VertexAttribute> {
    seq![
        VertexAttribute { format: VertexFormat::Float32x3, offset: 0, shader_location: 0 },
        VertexAttribute { format: VertexFormat::Float32x2, offset: 12, shader_location: 1 },
        VertexAttribute { format: VertexFormat::Float32x3, offset: 20, shader_location: 2 },
    ]
}

impl ModelVertex {
    /// The layout of a buffer of `ModelVertex` records. Its stride is the
    /// thirty-two bytes of a record.
    pub fn desc() -> (layout: VertexBufferLayout)
        ensures
            layout.array_stride == 32,
            layout.array_stride == 4 * MODEL_VERTEX_WORDS,
            layout.step_mode == InputStepMode::Vertex,
            layout.attributes@ == model_vertex_attributes(),
    {
        let mut formats: Vec<VertexFormat> = Vec::new();
        formats.push(VertexFormat::Float32x3);
        formats.push(VertexFormat::Float32x2);
        formats.push(VertexFormat::Float32x3);
        let layout = packed_layout(&formats, 0, InputStepMode::Vertex);
        proof {
            reveal_with_fuel(packed_offset, 4);
        }
        layout
    }
}

/// The geometry of one mesh as a model file gives it: three position
/// components a vertex, two texture components, three normal components,
/// and three indices a triangle.
#[derive(Clone, Debug, PartialEq, Eq)]
pub struct SourceMesh {
    pub name: String,
    pub positions: Vec<u32>,
    pub texcoords: Vec<u32>,
    pub normals: Vec<u32>,
    pub indices: Vec<u32>,
    pub material_id: Option<usize>,
}

/// A material as a model file gives it, with its diffuse image decoded.
#[derive(Clone, Debug, PartialEq, Eq)]
pub struct SourceMaterial {
    pub name: String,
    /// The label of the texture: where the diffuse image was found, if
    /// that can be written as text.
    pub label: Option<String>,
    pub image: DecodedImage,
}

impl SourceMaterial {
    /// The label as a sequence of characters, where there is one.
    pub open spec fn label_view(self) -> Option<Seq<char>> {
        match self.label {
            Some(s) => Some(s@),
            None => None,
        }
    }
}

/// What can be wrong with the geometry of a mesh.
#[derive(Clone, Copy, Debug, PartialEq, Eq, Structural)]
pub enum GeometryFault {
    /// Texture coordinates or normals are fewer than the positions call
    /// for.
    MissingAttributes,
    /// The indices are more than a draw call can count.
    TooManyIndices,
    /// The indices do not come in threes.
    NotTriangulated,
    /// The mesh names a material that the model does not have.
    NoSuchMaterial,
}

/// Why a model could not be loaded.
#[derive(Clone, Copy, Debug, PartialEq, Eq, Structural)]
pub enum ModelError {
    /// The diffuse image of this material gives no texture.
    Texture { material: usize, error: TextureError },
    /// The geometry of this mesh is malformed.
    Geometry { mesh: usize, fault: GeometryFault },
}

/// A material: its name, its diffuse texture, and the resource-binding
/// set through which a shader reads that texture.
#[derive(Clone, Debug, PartialEq, Eq)]
pub struct Material {
    pub name: String,
    pub diffuse_texture: Texture,
    pub bind_group: BindGroup,
}

/// A mesh: its buffers, the number of indices to draw, and the index of
/// its material in the model.
#[derive(Clone, Debug, PartialEq, Eq)]
pub struct Mesh {
    pub name: String,
    pub vertex_buffer: Buffer,
    pub index_buffer: Buffer,
    pub num_elements: u32,
    pub material: usize,
}

/// A model: its meshes and the materials they share, each in order.
#[derive(Clone, Debug, PartialEq, Eq)]
pub struct Model {
    pub meshes: Vec<Mesh>,
    pub materials: Vec<Material>,
}

/// Vertices of a mesh: a vertex for every three position components.
pub open spec fn vertex_count(mesh: SourceMesh) -> nat {
    mesh.positions@.len() / 3
}

/// Triangles of a mesh: a face for every three indices.
pub open spec fn face_count(mesh: SourceMesh) -> nat {
    mesh.indices@.len() / 3
}

/// The material that a mesh is drawn with: the one it names, else the
/// first.
pub open spec fn material_of(mesh: SourceMesh) -> usize {
    match mesh.material_id {
        Some(id) => id,
        None => 0,
    }
}

/// Word `k` of vertex `v` of a mesh, taken from the three attribute
/// arrays.
pub open spec fn source_word(mesh: SourceMesh, v: int, k: int) -> u32 {
    if k < 3 {
        mesh.positions@[3 * v + k]
    } else if k < 5 {
        mesh.texcoords@[2 * v + (k - 3)]
    } else {
        mesh.normals@[3 * v + (k - 5)]
    }
}

/// The words of the vertex buffer of a mesh: its attributes interleaved,
/// vertex after vertex.
pub open spec fn interleaved_words(mesh: SourceMesh) -> Seq<u32> {
    Seq::new(8 * vertex_count(mesh), |i: int| source_word(mesh, i / 8, i % 8))
}

/// What, if anything, is wrong with the geometry of a mesh in a model of
/// `materials` materials. Of several faults the first in this order is
/// reported.
pub open spec fn geometry_fault(mesh: SourceMesh, materials: nat) -> Option<GeometryFault> {
    if !has_all_attributes(mesh) {
        Some(GeometryFault::MissingAttributes)
    } else if mesh.indices@.len() > u32::MAX {
        Some(GeometryFault::TooManyIndices)
    } else if mesh.indices@.len() % 3 != 0 {
        Some(GeometryFault::NotTriangulated)
    } else if material_of(mesh) >= materials {
        Some(GeometryFault::NoSuchMaterial)
    } else {
        None
    }
}

/// What, if anything, keeps the diffuse image of a material from becoming
/// a texture.
pub open spec fn texture_fault(material: SourceMaterial) -> Option<TextureError> {
    let image = material.image;
    match Texture::image_verdict(image.width, image.height, image.rgba@) {
        Err(e) => Some(e),
        Ok(_) => None,
    }
}

/// The resource-binding set of the material with the given index: its
/// diffuse texture at binding 0 and that texture's sampler at binding 1.
pub open spec fn material_bind_group(index: usize, layout: BindGroupLayoutId) -> BindGroup {
    BindGroup {
        id: BindGroupId::Material(index),
        layout,
        first: BindGroupEntry {
            binding: 0,
            resource: BindingResource::TextureView(TextureId::Diffuse(index)),
        },
        second: Some(
            BindGroupEntry {
                binding: 1,
                resource: BindingResource::Sampler(TextureId::Diffuse(index)),
            },
        ),
    }
}

impl Material {
    /// `self` stands at `index` of its model: its set bears the name of
    /// that place and binds the diffuse texture of that place with its
    /// sampler.
    pub open spec fn placed_at(self, index: usize) -> bool {
        self.bind_group == material_bind_group(index, self.bind_group.layout)
    }

    /// Whether the material stands at `index` of its model.
    pub fn is_placed_at(&self, index: usize) -> (b: bool)
        ensures
            b == self.placed_at(index),
    {
        let group = &self.bind_group;
        let named = match group.id {
            BindGroupId::Material(i) => i == index,
            _ => false,
        };
        let first = group.first.binding == 0 && match group.first.resource {
            BindingResource::TextureView(TextureId::Diffuse(i)) => i == index,
            _ => false,
        };
        let second = match group.second {
            Some(entry) => entry.binding == 1 && match entry.resource {
                BindingResource::Sampler(TextureId::Diffuse(i)) => i == index,
                _ => false,
            },
            None => false,
        };
        named && first && second
    }

    /// `self` is what loading makes of the material `source` at `index`.
    pub open spec fn loaded_from(
        self,
        source: SourceMaterial,
        index: usize,
        layout: BindGroupLayoutId,
    ) -> bool {
        &&& self.name@ == source.name@
        &&& self.diffuse_texture.is_diffuse(
            source.image.width,
            source.image.height,
            source.image.rgba@,
        )
        &&& self.diffuse_texture.label_view() == source.label_view()
        &&& self.bind_group == material_bind_group(index, layout)
    }
}

impl Mesh {
    /// `self` stands at `index` of its model: its buffers bear the names
    /// of that place, and its index buffer holds exactly the 32-bit
    /// indices that a draw of the mesh reads.
    pub open spec fn placed_at(self, index: usize) -> bool {
        &&& self.vertex_buffer.id == BufferId::MeshVertices(index)
        &&& self.index_buffer.id == BufferId::MeshIndices(index)
        &&& self.index_buffer.contents@.len() == 4 * self.num_elements
    }

    /// Whether the mesh stands at `index` of its model.
    pub fn is_placed_at(&self, index: usize) -> (b: bool)
        ensures
            b == self.placed_at(index),
    {
        let named = match (self.vertex_buffer.id, self.index_buffer.id) {
            (BufferId::MeshVertices(v), BufferId::MeshIndices(i)) => v == index && i == index,
            _ => false,
        };
        named && self.index_buffer.contents.len() as u128 == 4 * (self.num_elements as u128)
    }

    /// `self` is what loading makes of the mesh `source` at `index`.
    pub open spec fn loaded_from(self, source: SourceMesh, index: usize) -> bool {
        &&& self.name@ == source.name@
        &&& self.vertex_buffer.id == BufferId::MeshVertices(index)
        &&& self.vertex_buffer.usage == vertex_usage()
        &&& is_word_image(self.vertex_buffer.contents@, interleaved_words(source))
        &&& self.vertex_buffer.contents@.len() == 32 * vertex_count(source)
        &&& self.index_buffer.id == BufferId::MeshIndices(index)
        &&& self.index_buffer.usage == index_usage()
        &&& is_word_image(self.index_buffer.contents@, source.indices@)
        &&& self.index_buffer.contents@.len() == 4 * source.indices@.len()
        &&& self.num_elements == source.indices@.len()
        &&& self.material == material_of(source)
    }
}

impl Model {
    /// Every mesh is drawn with a material that the model has.
    pub open spec fn materials_exist(self) -> bool {
        forall|i: int|
            0 <= i < self.meshes@.len() ==> (#[trigger] self.meshes@[i]).material
                < self.materials@.len()
    }

    /// The invariant of a model: every mesh is drawn with a material that
    /// the model has, and every mesh and material stands at its place, so
    /// that the names of its buffers and sets tell them apart.
    pub open spec fn wf(self) -> bool {
        &&& self.materials_exist()
        &&& forall|i: int|
            0 <= i < self.meshes@.len() ==> (#[trigger] self.meshes@[i]).placed_at(i as usize)
        &&& forall|i: int|
            0 <= i < self.materials@.len() ==> (#[trigger] self.materials@[i]).placed_at(
                i as usize,
            )
    }

    /// `self` is what loading makes of the given meshes and materials.
    pub open spec fn loaded_from(
        self,
        meshes: Seq<SourceMesh>,
        materials: Seq<SourceMaterial>,
        layout: BindGroupLayoutId,
    ) -> bool {
        &&& self.meshes@.len() == meshes.len()
        &&& self.materials@.len() == materials.len()
        &&& forall|i: int|
            0 <= i < meshes.len() ==> (#[trigger] self.meshes@[i]).loaded_from(
                meshes[i],
                i as usize,
            )
        &&& forall|i: int|
            0 <= i < materials.len() ==> (#[trigger] self.materials@[i]).loaded_from(
                materials[i],
                i as usize,
                layout,
            )
    }

    /// Whether the invariant of a model holds of `self`.
    pub fn is_wf(&self) -> (b: bool)
        ensures
            b == self.wf(),
    {
        let mut i: usize = 0;
        while i < self.meshes.len()
            invariant
                i <= self.meshes@.len(),
                forall|k: int|
                    0 <= k < i ==> (#[trigger] self.meshes@[k]).material < self.materials@.len(),
                forall|k: int| 0 <= k < i ==> (#[trigger] self.meshes@[k]).placed_at(k as usize),
            decreases self.meshes@.len() - i,
        {
            if self.meshes[i].material >= self.materials.len() || !self.meshes[i].is_placed_at(i) {
                return false;
            }
            i = i + 1;
        }
        let mut j: usize = 0;
        while j < self.materials.len()
            invariant
                j <= self.materials@.len(),
                forall|k: int|
                    0 <= k < j ==> (#[trigger] self.materials@[k]).placed_at(k as usize),
            decreases self.materials@.len() - j,
        {
            if !self.materials[j].is_placed_at(j) {
                return false;
            }
            j = j + 1;
        }
        true
    }
}

/// A mesh has a texture coordinate and a normal for every vertex.
pub open spec fn has_all_attributes(mesh: SourceMesh) -> bool {
    &&& mesh.texcoords@.len() >= 2 * vertex_count(mesh)
    &&& mesh.normals@.len() >= 3 * vertex_count(mesh)
}

/// The vertices of a mesh, each gathered from the three attribute arrays.
/// `None` is returned exactly when texture coordinates or normals are
/// fewer than the positions call for. Components beyond the last whole
/// vertex are left aside.
pub fn interleave(mesh: &SourceMesh) -> (r: Option<Vec<ModelVertex>>)
    ensures
        r is Some <==> has_all_attributes(*mesh),
        r matches Some(vertices) ==> {
            &&& vertices@.len() == vertex_count(*mesh)
            &&& forall|v: int, k: int|
                0 <= v < vertices@.len() && 0 <= k < 8 ==> model_vertex_word(
                    #[trigger] vertices@[v],
                    k,
                ) == #[trigger] source_word(*mesh, v, k)
        },
{
    let n = mesh.positions.len() / 3;
    if mesh.texcoords.len() < 2 * n || mesh.normals.len() < 3 * n {
        return None;
    }
    let mut vertices: Vec<ModelVertex> = Vec::new();
    let mut i: usize = 0;
    while i < n
        invariant
            i <= n,
            n == vertex_count(*mesh),
            3 * n <= mesh.positions@.len() <= usize::MAX,
            mesh.texcoords@.len() >= 2 * n,
            mesh.normals@.len() >= 3 * n,
            vertices@.len() == i,
            forall|v: int, k: int|
                0 <= v < i && 0 <= k < 8 ==> model_vertex_word(#[trigger] vertices@[v], k)
                    == #[trigger] source_word(*mesh, v, k),
        decreases n - i,
    {
        let vertex = ModelVertex {
            position: [
                mesh.positions[i * 3],
                mesh.positions[i * 3 + 1],
                mesh.positions[i * 3 + 2],
            ],
            tex_coords: [mesh.texcoords[i * 2], mesh.texcoords[i * 2 + 1]],
            normal: [mesh.normals[i * 3], mesh.normals[i * 3 + 1], mesh.normals[i * 3 + 2]],
        };
        assert forall|k: int| 0 <= k < 8 implies model_vertex_word(vertex, k) == source_word(
            *mesh,
            i as int,
            k,
        ) by {}
        vertices.push(vertex);
        i = i + 1;
    }
    Some(vertices)
}

/// The words of `vertices`, record after record.
pub fn flatten_model_vertices(vertices: &Vec<ModelVertex>) -> (words: Vec<u32>)
    ensures
        words@ == model_vertex_words(vertices@),
{
    let mut words: Vec<u32> = Vec::new();
    let mut i: usize = 0;
    while i < vertices.len()
        invariant
            i <= vertices@.len(),
            words@ == model_vertex_words(vertices@).subrange(0, 8 * i),
        decreases vertices@.len() - i,
    {
        let v = vertices[i];
        words.push(v.position[0]);
        words.push(v.position[1]);
        words.push(v.position[2]);
        words.push(v.tex_coords[0]);
        words.push(v.tex_coords[1]);
        words.push(v.normal[0]);
        words.push(v.normal[1]);
        words.push(v.normal[2]);
        i = i + 1;
    }
    words
}

/// Material `at` is the first whose image gives no texture, and `error`
/// says why.
pub open spec fn first_texture_fault(
    materials: Seq<SourceMaterial>,
    at: usize,
    error: TextureError,
) -> bool {
    &&& at < materials.len()
    &&& texture_fault(materials[at as int]) == Some(error)
    &&& forall|k: int| 0 <= k < at ==> texture_fault(#[trigger] materials[k]) is None
}

/// Every material's image gives a texture.
pub open spec fn no_texture_fault(materials: Seq<SourceMaterial>) -> bool {
    forall|k: int| 0 <= k < materials.len() ==> texture_fault(#[trigger] materials[k]) is None
}

/// Mesh `at` is the first with malformed geometry, and `fault` says what
/// is wrong with it.
pub open spec fn first_geometry_fault(
    meshes: Seq<SourceMesh>,
    materials: nat,
    at: usize,
    fault: GeometryFault,
) -> bool {
    &&& at < meshes.len()
    &&& geometry_fault(meshes[at as int], materials) == Some(fault)
    &&& forall|k: int| 0 <= k < at ==> geometry_fault(#[trigger] meshes[k], materials) is None
}

/// No mesh has malformed geometry.
pub open spec fn no_geometry_fault(meshes: Seq<SourceMesh>, materials: nat) -> bool {
    forall|k: int| 0 <= k < meshes.len() ==> geometry_fault(#[trigger] meshes[k], materials) is None
}

/// The load of the given meshes and materials ends with the error `e`:
/// the first material whose image gives no texture, or else the first
/// mesh with malformed geometry.
pub open spec fn load_fails_with(
    meshes: Seq<SourceMesh>,
    materials: Seq<SourceMaterial>,
    e: ModelError,
) -> bool {
    match e {
        ModelError::Texture { material, error } => first_texture_fault(materials, material, error),
        ModelError::Geometry { mesh, fault } => {
            &&& no_texture_fault(materials)
            &&& first_geometry_fault(meshes, materials.len(), mesh, fault)
        },
    }
}

/// The material at `index` of a model, with its texture and its
/// resource-binding set for `layout`.
pub fn load_material(layout: &BindGroupLayout, index: usize, source: &SourceMaterial) -> (r: Result<
    Material,
    TextureError,
>)
    ensures
        texture_fault(*source) matches Some(e) ==> r == Err::<Material, TextureError>(e),
        texture_fault(*source) is None ==> {
            &&& r matches Ok(material)
            &&& material.loaded_from(*source, index, layout.id)
        },
{
    let label = match &source.label {
        Some(text) => Some(text.as_str()),
        None => None,
    };
    let diffuse_texture = match Texture::from_image(&source.image, label) {
        Ok(texture) => texture,
        Err(e) => {
            return Err(e);
        },
    };
    let bind_group = BindGroup {
        id: BindGroupId::Material(index),
        layout: layout.id,
        first: BindGroupEntry {
            binding: 0,
            resource: BindingResource::TextureView(TextureId::Diffuse(index)),
        },
        second: Some(
            BindGroupEntry {
                binding: 1,
                resource: BindingResource::Sampler(TextureId::Diffuse(index)),
            },
        ),
    };
    Ok(Material { name: source.name.clone(), diffuse_texture, bind_group })
}

/// The mesh at `index` of a model of `materials` materials, with its
/// vertex buffer of interleaved attributes and its buffer of 32-bit
/// indices.
pub fn load_mesh(index: usize, source: &SourceMesh, materials: usize) -> (r: Result<
    Mesh,
    GeometryFault,
>)
    ensures
        geometry_fault(*source, materials as nat) matches Some(fault) ==> r == Err::<
            Mesh,
            GeometryFault,
        >(fault),
        geometry_fault(*source, materials as nat) is None ==> {
            &&& r matches Ok(mesh)
            &&& mesh.loaded_from(*source, index)
            &&& mesh.material < materials
            &&& mesh.num_elements == 3 * face_count(*source)
        },
{
    let vertices = match interleave(source) {
        Some(vertices) => vertices,
        None => {
            return Err(GeometryFault::MissingAttributes);
        },
    };
    if source.indices.len() > u32::MAX as usize {
        return Err(GeometryFault::TooManyIndices);
    }
    if source.indices.len() % 3 != 0 {
        return Err(GeometryFault::NotTriangulated);
    }
    let material = match source.material_id {
        Some(id) => id,
        None => 0,
    };
    if material >= materials {
        return Err(GeometryFault::NoSuchMaterial);
    }
    let words = flatten_model_vertices(&vertices);
    assert(words@ =~= interleaved_words(*source));
    let vertex_buffer = Buffer {
        id: BufferId::MeshVertices(index),
        contents: words_to_bytes(&words),
        usage: BufferUsage::vertex(),
    };
    let index_buffer = Buffer {
        id: BufferId::MeshIndices(index),
        contents: words_to_bytes(&source.indices),
        usage: BufferUsage::index(),
    };
    Ok(
        Mesh {
            name: source.name.clone(),
            vertex_buffer,
            index_buffer,
            num_elements: source.indices.len() as u32,
            material,
        },
    )
}

impl Model {
    /// Builds a model from parsed meshes and materials.
    ///
    /// The materials are taken first, in order, and the first whose image
    /// gives no texture ends the load with that error. The meshes follow,
    /// and the first with malformed geometry ends the load with that
    /// fault. Otherwise the model has a mesh for every source mesh and a
    /// material for every source material, in the same order.
    pub fn load(
        layout: &BindGroupLayout,
        meshes: &Vec<SourceMesh>,
        materials: &Vec<SourceMaterial>,
    ) -> (r: Result<Model, ModelError>)
        ensures
            match r {
                Ok(model) => {
                    &&& no_texture_fault(materials@)
                    &&& no_geometry_fault(meshes@, materials@.len())
                    &&& model.loaded_from(meshes@, materials@, layout.id)
                    &&& model.wf()
                },
                Err(e) => load_fails_with(meshes@, materials@, e),
            },
    {
        let mut loaded_materials: Vec<Material> = Vec::new();
        let mut i: usize = 0;
        while i < materials.len()
            invariant
                i <= materials@.len(),
                loaded_materials@.len() == i,
                forall|k: int| 0 <= k < i ==> texture_fault(#[trigger] materials@[k]) is None,
                forall|k: int|
                    0 <= k < i ==> (#[trigger] loaded_materials@[k]).loaded_from(
                        materials@[k],
                        k as usize,
                        layout.id,
                    ),
            decreases materials@.len() - i,
        {
            match load_material(layout, i, &materials[i]) {
                Ok(material) => {
                    loaded_materials.push(material);
                },
                Err(error) => {
                    return Err(ModelError::Texture { material: i, error });
                },
            }
            i = i + 1;
        }
        let mut loaded_meshes: Vec<Mesh> = Vec::new();
        let mut j: usize = 0;
        while j < meshes.len()
            invariant
                j <= meshes@.len(),
                loaded_meshes@.len() == j,
                loaded_materials@.len() == materials@.len(),
                no_texture_fault(materials@),
                forall|k: int|
                    0 <= k < materials@.len() ==> (#[trigger] loaded_materials@[k]).loaded_from(
                        materials@[k],
                        k as usize,
                        layout.id,
                    ),
                forall|k: int|
                    0 <= k < j ==> geometry_fault(#[trigger] meshes@[k], materials@.len()) is None,
                forall|k: int|
                    0 <= k < j ==> (#[trigger] loaded_meshes@[k]).loaded_from(
                        meshes@[k],
                        k as usize,
                    ),
                forall|k: int|
                    0 <= k < j ==> (#[trigger] loaded_meshes@[k]).material < materials@.len(),
            decreases meshes@.len() - j,
        {
            match load_mesh(j, &meshes[j], materials.len()) {
                Ok(mesh) => {
                    loaded_meshes.push(mesh);
                },
                Err(fault) => {
                    return Err(ModelError::Geometry { mesh: j, fault });
                },
            }
            j = j + 1;
        }
        Ok(Model { meshes: loaded_meshes, materials: loaded_materials })
    }
}

/// The commands that draw one mesh with one material: the mesh's vertices
/// at slot 0, its 32-bit indices, the material's set at group 0, the
/// uniforms at group 1, the light at group 2, and one indexed draw of all
/// the mesh's indices for the given instances.
pub open spec fn mesh_draw(
    mesh: Mesh,
    material: Material,
    first_instance: u32,
    end_instance: u32,
    uniforms: BindGroupId,
    light: BindGroupId,
) -> Seq<RenderCommand> {
    seq![
        RenderCommand::SetVertexBuffer { slot: 0, buffer: mesh.vertex_buffer.id },
        RenderCommand::SetIndexBuffer { buffer: mesh.index_buffer.id, format: IndexFormat::Uint32 },
        RenderCommand::SetBindGroup { index: 0, group: material.bind_group.id },
        RenderCommand::SetBindGroup { index: 1, group: uniforms },
        RenderCommand::SetBindGroup { index: 2, group: light },
        RenderCommand::DrawIndexed {
            first_index: 0,
            end_index: mesh.num_elements,
            base_vertex: 0,
            first_instance,
            end_instance,
        },
    ]
}

/// The commands that draw the first `n` meshes of a model, each with its
/// own material, one mesh after the other.
pub open spec fn model_draw_prefix(
    model: Model,
    n: int,
    first_instance: u32,
    end_instance: u32,
    uniforms: BindGroupId,
    light: BindGroupId,
) -> Seq<RenderCommand>
    decreases n,
{
    if n <= 0 {
        Seq::empty()
    } else {
        let mesh = model.meshes@[n - 1];
        model_draw_prefix(model, n - 1, first_instance, end_instance, uniforms, light) + mesh_draw(
            mesh,
            model.materials@[mesh.material as int],
            first_instance,
            end_instance,
            uniforms,
            light,
        )
    }
}

/// The commands that draw a whole model.
pub open spec fn model_draw(
    model: Model,
    first_instance: u32,
    end_instance: u32,
    uniforms: BindGroupId,
    light: BindGroupId,
) -> Seq<RenderCommand> {
    model_draw_prefix(
        model,
        model.meshes@.len() as int,
        first_instance,
        end_instance,
        uniforms,
        light,
    )
}

/// The commands that draw one mesh as the light marker: the mesh's
/// vertices at slot 0, its 32-bit indices, the uniforms at group 0, the
/// light at group 1, and one indexed draw.
pub open spec fn light_mesh_draw(
    mesh: Mesh,
    first_instance: u32,
    end_instance: u32,
    uniforms: BindGroupId,
    light: BindGroupId,
) -> Seq<RenderCommand> {
    seq![
        RenderCommand::SetVertexBuffer { slot: 0, buffer: mesh.vertex_buffer.id },
        RenderCommand::SetIndexBuffer { buffer: mesh.index_buffer.id, format: IndexFormat::Uint32 },
        RenderCommand::SetBindGroup { index: 0, group: uniforms },
        RenderCommand::SetBindGroup { index: 1, group: light },
        RenderCommand::DrawIndexed {
            first_index: 0,
            end_index: mesh.num_elements,
            base_vertex: 0,
            first_instance,
            end_instance,
        },
    ]
}

/// The commands that draw the first `n` meshes of a model as light
/// markers.
pub open spec fn light_model_draw_prefix(
    model: Model,
    n: int,
    first_instance: u32,
    end_instance: u32,
    uniforms: BindGroupId,
    light: BindGroupId,
) -> Seq<RenderCommand>
    decreases n,
{
    if n <= 0 {
        Seq::empty()
    } else {
        light_model_draw_prefix(model, n - 1, first_instance, end_instance, uniforms, light)
            + light_mesh_draw(
            model.meshes@[n - 1],
            first_instance,
            end_instance,
            uniforms,
            light,
        )
    }
}

/// The commands that draw a whole model as light markers.
pub open spec fn light_model_draw(
    model: Model,
    first_instance: u32,
    end_instance: u32,
    uniforms: BindGroupId,
    light: BindGroupId,
) -> Seq<RenderCommand> {
    light_model_draw_prefix(
        model,
        model.meshes@.len() as int,
        first_instance,
        end_instance,
        uniforms,
        light,
    )
}

/// A loaded model has a mesh for every source mesh and a material for
/// every source material; each of its meshes names a material that the
/// model has, and draws three indices for every face of its source.
pub proof fn loaded_model_matches_source(
    model: Model,
    meshes: Seq<SourceMesh>,
    materials: Seq<SourceMaterial>,
    layout: BindGroupLayoutId,
)
    requires
        model.loaded_from(meshes, materials, layout),
        no_geometry_fault(meshes, materials.len()),
    ensures
        model.meshes@.len() == meshes.len(),
        model.materials@.len() == materials.len(),
        model.wf(),
        forall|i: int|
            0 <= i < meshes.len() ==> (#[trigger] model.meshes@[i]).num_elements == 3 * face_count(
                meshes[i],
            ),
{
}

/// Drawing a model takes six commands a mesh: command `j` of the whole is
/// command `j % 6` of the drawing of mesh `j / 6` with the material that
/// the mesh names.
pub proof fn model_draw_is_mesh_by_mesh(
    model: Model,
    first_instance: u32,
    end_instance: u32,
    uniforms: BindGroupId,
    light: BindGroupId,
    n: int,
)
    requires
        0 <= n <= model.meshes@.len(),
    ensures
        model_draw_prefix(model, n, first_instance, end_instance, uniforms, light).len() == 6 * n,
        forall|j: int|
            0 <= j < 6 * n ==> #[trigger] model_draw_prefix(
                model,
                n,
                first_instance,
                end_instance,
                uniforms,
                light,
            )[j] == mesh_draw(
                model.meshes@[j / 6],
                model.materials@[model.meshes@[j / 6].material as int],
                first_instance,
                end_instance,
                uniforms,
                light,
            )[j % 6],
    decreases n,
{
    if n > 0 {
        model_draw_is_mesh_by_mesh(model, first_instance, end_instance, uniforms, light, n - 1);
    }
}

/// Drawing a model issues exactly one indexed draw a mesh: the last of the
/// mesh's six commands draws all the indices of the mesh, from vertex 0,
/// for the given instances, and none of the other five draws.
pub proof fn model_draw_has_one_draw_per_mesh(
    model: Model,
    first_instance: u32,
    end_instance: u32,
    uniforms: BindGroupId,
    light: BindGroupId,
)
    ensures
        model_draw(model, first_instance, end_instance, uniforms, light).len() == 6
            * model.meshes@.len(),
        forall|j: int|
            0 <= j < 6 * model.meshes@.len() ==> (#[trigger] model_draw(
                model,
                first_instance,
                end_instance,
                uniforms,
                light,
            )[j] is DrawIndexed <==> j % 6 == 5),
        forall|j: int|
            0 <= j < 6 * model.meshes@.len() && j % 6 == 5 ==> #[trigger] model_draw(
                model,
                first_instance,
                end_instance,
                uniforms,
                light,
            )[j] == (RenderCommand::DrawIndexed {
                first_index: 0,
                end_index: model.meshes@[j / 6].num_elements,
                base_vertex: 0,
                first_instance,
                end_instance,
            }),
{
    model_draw_is_mesh_by_mesh(
        model,
        first_instance,
        end_instance,
        uniforms,
        light,
        model.meshes@.len() as int,
    );
}

/// Drawing of lit, textured meshes into a pass.
pub trait DrawModel {
    /// The pass as recorded so far.
    spec fn recorded(&self) -> PassView;

    /// Draws one instance of a mesh.
    fn draw_mesh(
        &mut self,
        mesh: &Mesh,
        material: &Material,
        uniforms: &BindGroup,
        light: &BindGroup,
    )
        ensures
            final(self).recorded() == old(self).recorded().with(mesh_draw(
                *mesh,
                *material,
                0,
                1,
                uniforms.id,
                light.id,
            )),
    ;

    /// Draws the given instances of a mesh.
    fn draw_mesh_instanced(
        &mut self,
        mesh: &Mesh,
        material: &Material,
        instances: core::ops::Range<u32>,
        uniforms: &BindGroup,
        light: &BindGroup,
    )
        ensures
            final(self).recorded() == old(self).recorded().with(mesh_draw(
                *mesh,
                *material,
                instances.start,
                instances.end,
                uniforms.id,
                light.id,
            )),
    ;

    /// Draws one instance of every mesh of a model.
    fn draw_model(&mut self, model: &Model, uniforms: &BindGroup, light: &BindGroup)
        requires
            model.materials_exist(),
        ensures
            final(self).recorded() == old(self).recorded().with(model_draw(
                *model,
                0,
                1,
                uniforms.id,
                light.id,
            )),
    ;

    /// Draws the given instances of every mesh of a model, each mesh with
    /// the material it names.
    fn draw_model_instanced(
        &mut self,
        model: &Model,
        instances: core::ops::Range<u32>,
        uniforms: &BindGroup,
        light: &BindGroup,
    )
        requires
            model.materials_exist(),
        ensures
            final(self).recorded() == old(self).recorded().with(model_draw(
                *model,
                instances.start,
                instances.end,
                uniforms.id,
                light.id,
            )),
    ;
}

impl DrawModel for RenderPass {
    open spec fn recorded(&self) -> PassView {
        self@
    }

    fn draw_mesh(
        &mut self,
        mesh: &Mesh,
        material: &Material,
        uniforms: &BindGroup,
        light: &BindGroup,
    )
    {
        self.draw_mesh_instanced(mesh, material, 0..1, uniforms, light);
    }

    fn draw_mesh_instanced(
        &mut self,
        mesh: &Mesh,
        material: &Material,
        instances: core::ops::Range<u32>,
        uniforms: &BindGroup,
        light: &BindGroup,
    )
    {
        self.set_vertex_buffer(0, mesh.vertex_buffer.id);
        self.set_index_buffer(mesh.index_buffer.id, IndexFormat::Uint32);
        self.set_bind_group(0, material.bind_group.id);
        self.set_bind_group(1, uniforms.id);
        self.set_bind_group(2, light.id);
        self.draw_indexed(0..mesh.num_elements, 0, instances);
    }

    fn draw_model(&mut self, model: &Model, uniforms: &BindGroup, light: &BindGroup)
    {
        self.draw_model_instanced(model, 0..1, uniforms, light);
    }

    fn draw_model_instanced(
        &mut self,
        model: &Model,
        instances: core::ops::Range<u32>,
        uniforms: &BindGroup,
        light: &BindGroup,
    )
    {
        let first = instances.start;
        let end = instances.end;
        let mut i: usize = 0;
        while i < model.meshes.len()
            invariant
                i <= model.meshes@.len(),
                model.materials_exist(),
                self.desc == old(self).desc,
                self.commands@ == old(self).commands@ + model_draw_prefix(
                    *model,
                    i as int,
                    first,
                    end,
                    uniforms.id,
                    light.id,
                ),
            decreases model.meshes@.len() - i,
        {
            let mesh = &model.meshes[i];
            let material = &model.materials[mesh.material];
            self.draw_mesh_instanced(mesh, material, first..end, uniforms, light);
            i = i + 1;
        }
    }
}

/// Drawing of meshes as markers of the light into a pass.
pub trait DrawLight {
    /// The pass as recorded so far.
    spec fn marked(&self) -> PassView;

    /// Draws one instance of a mesh.
    fn draw_light_mesh(&mut self, mesh: &Mesh, uniforms: &BindGroup, light: &BindGroup)
        ensures
            final(self).marked() == old(self).marked().with(light_mesh_draw(
                *mesh,
                0,
                1,
                uniforms.id,
                light.id,
            )),
    ;

    /// Draws the given instances of a mesh.
    fn draw_light_mesh_instanced(
        &mut self,
        mesh: &Mesh,
        instances: core::ops::Range<u32>,
        uniforms: &BindGroup,
        light: &BindGroup,
    )
        ensures
            final(self).marked() == old(self).marked().with(light_mesh_draw(
                *mesh,
                instances.start,
                instances.end,
                uniforms.id,
                light.id,
            )),
    ;

    /// Draws one instance of every mesh of a model.
    fn draw_light_model(&mut self, model: &Model, uniforms: &BindGroup, light: &BindGroup)
        ensures
            final(self).marked() == old(self).marked().with(light_model_draw(
                *model,
                0,
                1,
                uniforms.id,
                light.id,
            )),
    ;

    /// Draws the given instances of every mesh of a model.
    fn draw_light_model_instanced(
        &mut self,
        model: &Model,
        instances: core::ops::Range<u32>,
        uniforms: &BindGroup,
        light: &BindGroup,
    )
        ensures
            final(self).marked() == old(self).marked().with(light_model_draw(
                *model,
                instances.start,
                instances.end,
                uniforms.id,
                light.id,
            )),
    ;
}

impl DrawLight for RenderPass {
    open spec fn marked(&self) -> PassView {
        self@
    }

    fn draw_light_mesh(&mut self, mesh: &Mesh, uniforms: &BindGroup, light: &BindGroup)
    {
        self.draw_light_mesh_instanced(mesh, 0..1, uniforms, light);
    }

    fn draw_light_mesh_instanced(
        &mut self,
        mesh: &Mesh,
        instances: core::ops::Range<u32>,
        uniforms: &BindGroup,
        light: &BindGroup,
    )
    {
        self.set_vertex_buffer(0, mesh.vertex_buffer.id);
        self.set_index_buffer(mesh.index_buffer.id, IndexFormat::Uint32);
        self.set_bind_group(0, uniforms.id);
        self.set_bind_group(1, light.id);
        self.draw_indexed(0..mesh.num_elements, 0, instances);
    }

    fn draw_light_model(&mut self, model: &Model, uniforms: &BindGroup, light: &BindGroup)
    {
        self.draw_light_model_instanced(model, 0..1, uniforms, light);
    }

    fn draw_light_model_instanced(
        &mut self,
        model: &Model,
        instances: core::ops::Range<u32>,
        uniforms: &BindGroup,
        light: &BindGroup,
    )
    {
        let first = instances.start;
        let end = instances.end;
        let mut i: usize = 0;
        while i < model.meshes.len()
            invariant
                i <= model.meshes@.len(),
                self.desc == old(self).desc,
                self.commands@ == old(self).commands@ + light_model_draw_prefix(
                    *model,
                    i as int,
                    first,
                    end,
                    uniforms.id,
                    light.id,
                ),
            decreases model.meshes@.len() - i,
        {
            self.draw_light_mesh_instanced(&model.meshes[i], first..end, uniforms, light);
            i = i + 1;
        }
    }
}

} // verus!
