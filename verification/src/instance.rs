//! The instance table: many copies of one model on a regular grid.
//!
//! Where an instance stands is counted in whole steps of half the spacing
//! between neighbours. How long a step is, the caller knows; of the
//! spacing this module takes only whether its half is a distance of zero,
//! which decides whether an instance stands exactly at the origin.

use vstd::prelude::*;
use crate::bytes::{is_word_image, words_to_bytes};
use crate::gpu::{Buffer, BufferId, BufferUsage, InputStepMode, vertex_usage};
use crate::uniform::{Matrix4, matrix_word};
use crate::vertex::{
    VertexAttribute, VertexBufferLayout, VertexFormat, packed_layout, packed_offset,
};

verus! {

/// How an instance is turned.
#[derive(Clone, Copy, Debug, PartialEq, Eq, Structural)]
pub enum Rotation {
    /// Not at all.
    Identity,
    /// By a whole number of degrees about the axis from the origin
    /// through the instance's own position.
    AboutPosition { degrees: u32 },
}

/// Degrees by which every instance that does not stand at the origin is
/// turned about its own position.
pub const INSTANCE_TURN_DEGREES: u32 = 45;

/// One copy of the model. It stands in the horizontal plane; its distance
/// from the origin along each axis is a whole number of steps, a step being
/// half the spacing between neighbours.
#[derive(Clone, Copy, Debug, PartialEq, Eq, Structural)]
pub struct Instance {
    pub column: u32,
    pub row: u32,
    /// Steps from the origin along the first horizontal axis.
    pub x_halves: i64,
    /// Steps from the origin along the second horizontal axis.
    pub z_halves: i64,
    pub rotation: Rotation,
}

/// An instance so many steps from the origin along the two axes stands
/// exactly at the origin: it is no step away along either axis, or a step
/// is no distance at all.
pub open spec fn resolves_to_origin(x_halves: int, z_halves: int, step_is_zero: bool) -> bool {
    step_is_zero || (x_halves == 0 && z_halves == 0)
}

/// The instance in the given column and row of a grid of `grid_size`
/// columns and rows, where `step_is_zero` says whether half the spacing
/// is a distance of zero.
///
/// Column 0 lies `grid_size` steps to the negative side of the origin, and
/// each further column two steps on. Rows likewise. An instance whose
/// position is exactly the origin is not turned, as there is no axis
/// through it: that is the instance no step away, and every instance
/// where a step is no distance. Every other is turned about its own
/// position.
pub open spec fn placed(grid_size: u32, step_is_zero: bool, column: int, row: int) -> Instance {
    let x_halves = 2 * column - grid_size;
    let z_halves = 2 * row - grid_size;
    Instance {
        column: column as u32,
        row: row as u32,
        x_halves: x_halves as i64,
        z_halves: z_halves as i64,
        rotation: if resolves_to_origin(x_halves, z_halves, step_is_zero) {
            Rotation::Identity
        } else {
            Rotation::AboutPosition { degrees: INSTANCE_TURN_DEGREES }
        },
    }
}

/// The instances of a grid, row after row.
pub open spec fn grid(grid_size: u32, step_is_zero: bool) -> Seq<Instance> {
    Seq::new(
        (grid_size * grid_size) as nat,
        |k: int| placed(grid_size, step_is_zero, k % (grid_size as int), k / (grid_size as int)),
    )
}

impl Instance {
    /// The instance stands exactly at the origin.
    pub open spec fn at_origin(self, step_is_zero: bool) -> bool {
        resolves_to_origin(self.x_halves as int, self.z_halves as int, step_is_zero)
    }

    /// Whether the instance stands exactly at the origin.
    pub fn is_at_origin(&self, step_is_zero: bool) -> (b: bool)
        ensures
            b == self.at_origin(step_is_zero),
    {
        step_is_zero || (self.x_halves == 0 && self.z_halves == 0)
    }
}

/// Lays out `grid_size * grid_size` instances on a grid about the origin,
/// for a spacing of which `step_is_zero` says whether its half is a
/// distance of zero. `None` is returned exactly when the instances are
/// more than a draw call can count.
pub fn build_instances(grid_size: u32, step_is_zero: bool) -> (r: Option<Vec<Instance>>)
    ensures
        r is None <==> grid_size * grid_size > u32::MAX,
        r matches Some(instances) ==> instances@ == grid(grid_size, step_is_zero),
{
    assert(grid_size * grid_size <= 0xffff_ffff * 0xffff_ffff) by (nonlinear_arith)
        requires
            grid_size <= 0xffff_ffff,
    ;
    let total: u64 = (grid_size as u64) * (grid_size as u64);
    if total > u32::MAX as u64 {
        return None;
    }
    let mut instances: Vec<Instance> = Vec::new();
    let mut row: u32 = 0;
    while row < grid_size
        invariant
            row <= grid_size,
            grid_size * grid_size <= u32::MAX,
            instances@ == grid(grid_size, step_is_zero).subrange(0, row * grid_size),
        decreases grid_size - row,
    {
        let mut column: u32 = 0;
        proof {
            row_fits(grid_size, row);
        }
        while column < grid_size
            invariant
                column <= grid_size,
                row < grid_size,
                grid_size * grid_size <= u32::MAX,
                row * grid_size + grid_size <= grid_size * grid_size,
                instances@ == grid(grid_size, step_is_zero).subrange(0, row * grid_size + column),
            decreases grid_size - column,
        {
            let x_halves: i64 = 2 * (column as i64) - (grid_size as i64);
            let z_halves: i64 = 2 * (row as i64) - (grid_size as i64);
            let rotation = if step_is_zero || (x_halves == 0 && z_halves == 0) {
                Rotation::Identity
            } else {
                Rotation::AboutPosition { degrees: INSTANCE_TURN_DEGREES }
            };
            proof {
                cell_of(grid_size, row, column);
            }
            instances.push(Instance { column, row, x_halves, z_halves, rotation });
            column = column + 1;
        }
        row = row + 1;
        assert(row * grid_size == (row - 1) * grid_size + grid_size) by (nonlinear_arith);
    }
    Some(instances)
}

/// A row that begins inside the grid also ends inside it.
proof fn row_fits(grid_size: u32, row: u32)
    requires
        row < grid_size,
    ensures
        row * grid_size + grid_size <= grid_size * grid_size,
{
    assert(row * grid_size + grid_size == (row + 1) * grid_size) by (nonlinear_arith);
    assert((row + 1) * grid_size <= grid_size * grid_size) by (nonlinear_arith)
        requires
            row + 1 <= grid_size,
    ;
}

/// Cell `row * grid_size + column` of the grid lies in that row and
/// column.
proof fn cell_of(grid_size: u32, row: u32, column: u32)
    requires
        column < grid_size,
    ensures
        (row * grid_size + column) % (grid_size as int) == column,
        (row * grid_size + column) / (grid_size as int) == row,
{
    vstd::arithmetic::div_mod::lemma_fundamental_div_mod_converse(
        row * grid_size + column,
        grid_size as int,
        row as int,
        column as int,
    );
}

/// The corner instance of a grid, in column 0 and row 0, lies `grid_size`
/// steps to the negative side on both axes, whatever a step is.
pub proof fn corner_instance_position(grid_size: u32, step_is_zero: bool)
    requires
        0 < grid_size,
        grid_size * grid_size <= u32::MAX,
    ensures
        grid(grid_size, step_is_zero).len() == grid_size * grid_size,
        grid(grid_size, step_is_zero)[0].column == 0,
        grid(grid_size, step_is_zero)[0].row == 0,
        grid(grid_size, step_is_zero)[0].x_halves == -(grid_size as int),
        grid(grid_size, step_is_zero)[0].z_halves == -(grid_size as int),
{
    assert(grid_size * grid_size > 0) by (nonlinear_arith)
        requires
            grid_size > 0,
    ;
}

/// In every grid, an instance is left unturned if and only if its position
/// is exactly the origin, and every other instance is turned by the fixed
/// angle about its own position. Where a step is a distance, only the
/// middle cell of the grid stands at the origin; where it is none, every
/// instance does.
pub proof fn origin_instance_is_unturned(grid_size: u32, step_is_zero: bool, k: int)
    requires
        0 <= k < grid_size * grid_size,
    ensures
        grid(grid_size, step_is_zero)[k].at_origin(step_is_zero) <==> grid(
            grid_size,
            step_is_zero,
        )[k].rotation == Rotation::Identity,
        !grid(grid_size, step_is_zero)[k].at_origin(step_is_zero) ==> grid(
            grid_size,
            step_is_zero,
        )[k].rotation == (Rotation::AboutPosition { degrees: INSTANCE_TURN_DEGREES }),
        step_is_zero ==> grid(grid_size, step_is_zero)[k].rotation == Rotation::Identity,
        !step_is_zero && grid(grid_size, step_is_zero)[k].at_origin(step_is_zero) ==> 2 * grid(
            grid_size,
            step_is_zero,
        )[k].column == grid_size && 2 * grid(grid_size, step_is_zero)[k].row == grid_size,
{
    let g = grid_size as int;
    assert(g > 0) by (nonlinear_arith)
        requires
            0 <= k < g * g,
            g >= 0,
    ;
    vstd::arithmetic::div_mod::lemma_fundamental_div_mod(k, g);
    vstd::arithmetic::div_mod::lemma_mod_bound(k, g);
    assert(0 <= k / g < g) by (nonlinear_arith)
        requires
            0 <= k < g * g,
            g > 0,
            k == g * (k / g) + k % g,
            0 <= k % g < g,
    ;
}

/// The step does not move an instance within the grid: with and without a
/// step of zero the instances stand in the same cells, the same number of
/// steps from the origin.
pub proof fn step_decides_only_the_rotation(grid_size: u32, k: int)
    requires
        0 <= k < grid_size * grid_size,
    ensures
        grid(grid_size, true)[k] == (Instance {
            rotation: Rotation::Identity,
            ..grid(grid_size, false)[k]
        }),
{
}

/// The transform of one instance as the GPU reads it.
#[derive(Clone, Copy, Debug, PartialEq, Eq)]
pub struct InstanceRaw {
    pub model: Matrix4,
}

/// Words in one `InstanceRaw`.
pub const INSTANCE_WORDS: usize = 16;

/// The vertex slot at which the instance buffer is bound.
pub const INSTANCE_SLOT: u32 = 1;

/// The shader location of the first row of an instance's transform.
pub const INSTANCE_FIRST_LOCATION: u32 = 5;

/// The transforms as the words of one buffer, instance after instance.
pub open spec fn instance_words(raws: Seq<InstanceRaw>) -> Seq<u32> {
    Seq::new(16 * raws.len(), |i: int| matrix_word(raws[i / 16].model, i % 16))
}

/// The attributes of an `InstanceRaw`: its four rows of four numbers,
/// sixteen bytes apart, at four consecutive locations.
pub open spec fn instance_attributes() -> Seq<VertexAttribute> {
    seq![
        VertexAttribute { format: VertexFormat::Float32x4, offset: 0, shader_location: 5 },
        VertexAttribute { format: VertexFormat::Float32x4, offset: 16, shader_location: 6 },
        VertexAttribute { format: VertexFormat::Float32x4, offset: 32, shader_location: 7 },
        VertexAttribute { format: VertexFormat::Float32x4, offset: 48, shader_location: 8 },
    ]
}

impl InstanceRaw {
    /// The layout of the instance buffer: one record of sixty-four bytes
    /// for every instance.
    pub fn desc() -> (layout: VertexBufferLayout)
        ensures
            layout.array_stride == 64,
            layout.array_stride == 4 * INSTANCE_WORDS,
            layout.step_mode == InputStepMode::Instance,
            layout.attributes@ == instance_attributes(),
    {
        let mut formats: Vec<VertexFormat> = Vec::new();
        formats.push(VertexFormat::Float32x4);
        formats.push(VertexFormat::Float32x4);
        formats.push(VertexFormat::Float32x4);
        formats.push(VertexFormat::Float32x4);
        let layout = packed_layout(&formats, INSTANCE_FIRST_LOCATION, InputStepMode::Instance);
        proof {
            reveal_with_fuel(packed_offset, 5);
        }
        layout
    }
}

/// The instance buffer for the given transforms.
pub fn instance_buffer(raws: &Vec<InstanceRaw>) -> (buffer: Buffer)
    ensures
        buffer.id == BufferId::Instances,
        buffer.usage == vertex_usage(),
        is_word_image(buffer.contents@, instance_words(raws@)),
        buffer.contents@.len() == 64 * raws@.len(),
{
    let mut words: Vec<u32> = Vec::new();
    let mut i: usize = 0;
    while i < raws.len()
        invariant
            i <= raws@.len(),
            words@ == instance_words(raws@).subrange(0, 16 * i),
        decreases raws@.len() - i,
    {
        let m = raws[i].model;
        let mut r: usize = 0;
        while r < 4
            invariant
                r <= 4,
                i < raws@.len(),
                m == raws@[i as int].model,
                words@ == instance_words(raws@).subrange(0, 16 * i + 4 * r),
            decreases 4 - r,
        {
            let row = m[r];
            words.push(row[0]);
            words.push(row[1]);
            words.push(row[2]);
            words.push(row[3]);
            r = r + 1;
        }
        i = i + 1;
    }
    assert(words@ =~= instance_words(raws@));
    let contents = words_to_bytes(&words);
    Buffer { id: BufferId::Instances, contents, usage: BufferUsage::vertex() }
}

} // verus!
