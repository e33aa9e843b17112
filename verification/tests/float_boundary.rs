use cgmath::{Deg, InnerSpace, Matrix4, Quaternion, Rotation3, Vector3};

use render_state::gpu::{PhysicalSize, TextureFormat};
use render_state::instance::{build_instances, instance_buffer, Instance, InstanceRaw, Rotation};
use render_state::light::Light;
use render_state::state::State;
use render_state::uniform::Uniforms;

fn vector_bits(v: Vector3<f32>) -> [u32; 3] {
    [v.x.to_bits(), v.y.to_bits(), v.z.to_bits()]
}

fn vector_of(bits: [u32; 3]) -> Vector3<f32> {
    Vector3::new(f32::from_bits(bits[0]), f32::from_bits(bits[1]), f32::from_bits(bits[2]))
}

fn matrix_bits(m: Matrix4<f32>) -> [[u32; 4]; 4] {
    let rows: [[f32; 4]; 4] = m.into();
    let mut bits = [[0u32; 4]; 4];
    for i in 0..4 {
        for j in 0..4 {
            bits[i][j] = rows[i][j].to_bits();
        }
    }
    bits
}

fn position_of(instance: &Instance, spacing: f32) -> Vector3<f32> {
    let half_step = spacing / 2.0;
    Vector3::new(
        half_step * (instance.x_halves as f32),
        0.0,
        half_step * (instance.z_halves as f32),
    )
}

fn direction_of(instance: &Instance, spacing: f32) -> Vector3<f32> {
    let steps = Vector3::new(instance.x_halves as f32, 0.0, instance.z_halves as f32);
    steps.normalize() * (spacing / 2.0).signum()
}

fn rotation_of(instance: &Instance, spacing: f32) -> Quaternion<f32> {
    match instance.rotation {
        Rotation::Identity => Quaternion::from_axis_angle(Vector3::unit_z(), Deg(0.0)),
        Rotation::AboutPosition { degrees } => {
            Quaternion::from_axis_angle(direction_of(instance, spacing), Deg(degrees as f32))
        }
    }
}

fn raw_of(instance: &Instance, spacing: f32) -> InstanceRaw {
    let model = Matrix4::from_translation(position_of(instance, spacing))
        * Matrix4::from(rotation_of(instance, spacing));
    InstanceRaw { model: matrix_bits(model) }
}

fn laid_out(grid_size: u32, spacing: f32) -> Vec<Instance> {
    build_instances(grid_size, spacing / 2.0 == 0.0).unwrap()
}

#[test]
fn light_position_follows_the_angle_of_the_state() {
    let start = Vector3::new(2.0f32, 2.0, 2.0);
    let light = Light { position: vector_bits(start), color: [1.0f32.to_bits(); 3] };
    let mut state = State::new(
        PhysicalSize::new(800, 600),
        TextureFormat::Bgra8UnormSrgb,
        light,
        &vec![],
        &vec![],
        1,
        false,
    )
    .unwrap();
    for k in 1..=725u32 {
        let angle = state.next_light_angle();
        assert_eq!(angle, k % 360);
        let turn = Quaternion::from_axis_angle(Vector3::unit_y(), Deg(angle as f32));
        let turned = turn * vector_of(state.light_start);
        state.update(Uniforms::new().view_proj, vector_bits(turned));
        assert_eq!(state.light_angle, k % 360);
        assert_eq!(state.light_start, vector_bits(start));
        let expected = Quaternion::from_axis_angle(Vector3::unit_y(), Deg(k as f32)) * start;
        let now = vector_of(state.light.position);
        assert!((now - expected).magnitude() < 1e-4, "after {} updates", k);
        assert!((now.y - start.y).abs() < 1e-4);
    }
}

#[test]
fn light_is_back_where_it_started_after_a_full_turn() {
    let start = Vector3::new(2.0f32, 2.0, 2.0);
    let light = Light { position: vector_bits(start), color: [1.0f32.to_bits(); 3] };
    let mut state = State::new(
        PhysicalSize::new(800, 600),
        TextureFormat::Bgra8UnormSrgb,
        light,
        &vec![],
        &vec![],
        1,
        false,
    )
    .unwrap();
    for _ in 0..360 {
        let turn =
            Quaternion::from_axis_angle(Vector3::unit_y(), Deg(state.next_light_angle() as f32));
        state.update(Uniforms::new().view_proj, vector_bits(turn * vector_of(state.light_start)));
    }
    assert_eq!(state.light_angle, 0);
    assert!((vector_of(state.light.position) - start).magnitude() < 1e-4);
}

#[test]
fn corner_instance_has_its_closed_form_position() {
    for (grid_size, spacing) in [(10u32, 3.0f32), (4, 1.5), (7, 0.25)] {
        let instances = laid_out(grid_size, spacing);
        let raw = raw_of(&instances[0], spacing);
        let x = f32::from_bits(raw.model[3][0]);
        let y = f32::from_bits(raw.model[3][1]);
        let z = f32::from_bits(raw.model[3][2]);
        let expected = spacing * (0.0 - grid_size as f32 / 2.0);
        assert_eq!((x, y, z), (expected, 0.0, expected));
    }
}

#[test]
fn instance_at_the_origin_has_the_identity_as_transform() {
    let instances = laid_out(10, 3.0);
    let raw = raw_of(&instances[55], 3.0);
    assert_eq!(raw.model, Uniforms::new().view_proj);
    let turned = raw_of(&instances[54], 3.0);
    assert_ne!(turned.model, Uniforms::new().view_proj);
}

#[test]
fn grid_of_one_without_spacing_is_the_identity_at_the_origin() {
    let instances = laid_out(1, 0.0);
    assert_eq!(instances.len(), 1);
    assert_eq!(position_of(&instances[0], 0.0), Vector3::new(0.0, 0.0, 0.0));
    assert_eq!(instances[0].rotation, Rotation::Identity);
    assert_eq!(rotation_of(&instances[0], 0.0), Quaternion::new(1.0, 0.0, 0.0, 0.0));
    let identity = [1.0f32, 0.0, 0.0, 0.0].map(f32::to_bits);
    let raw = raw_of(&instances[0], 0.0);
    for i in 0..4 {
        for j in 0..4 {
            assert_eq!(f32::from_bits(raw.model[i][j]), if i == j { 1.0 } else { 0.0 });
        }
    }
    assert_eq!(raw.model[0], identity);
}

#[test]
fn instance_is_unturned_exactly_when_its_position_is_the_origin() {
    let tiny = f32::from_bits(1);
    let spacings = [3.0f32, 1.5, 0.25, -2.0, 0.0, -0.0, tiny, -tiny, 2.0 * tiny, 1e-30, 1e30];
    for grid_size in [1u32, 2, 3, 4, 10] {
        for spacing in spacings {
            let instances = laid_out(grid_size, spacing);
            assert_eq!(instances.len(), (grid_size * grid_size) as usize);
            for instance in instances.iter() {
                let position = position_of(instance, spacing);
                let at_origin = position == Vector3::new(0.0, 0.0, 0.0);
                assert_eq!(
                    instance.rotation == Rotation::Identity,
                    at_origin,
                    "grid {} spacing {:e} cell {} {}",
                    grid_size,
                    spacing,
                    instance.column,
                    instance.row
                );
                assert_eq!(instance.is_at_origin(spacing / 2.0 == 0.0), at_origin);
                let rotation = rotation_of(instance, spacing);
                assert!((rotation.magnitude() - 1.0).abs() < 1e-5);
                if !at_origin {
                    let axis = direction_of(instance, spacing);
                    assert!((axis.magnitude() - 1.0).abs() < 1e-6);
                    assert!(axis.cross(position).magnitude() <= 1e-6 * position.magnitude());
                    assert!(axis.dot(position) > 0.0);
                    assert_eq!(rotation, Quaternion::from_axis_angle(axis, Deg(45.0)));
                    if spacing.abs() >= 0.25 && spacing.abs() <= 3.0 {
                        assert!((axis - position.normalize()).magnitude() < 1e-6);
                    }
                }
                let raw = raw_of(instance, spacing);
                for row in raw.model.iter() {
                    for word in row.iter() {
                        assert!(f32::from_bits(*word).is_finite());
                    }
                }
            }
        }
    }
}

#[test]
fn regenerated_transforms_are_byte_identical() {
    let first: Vec<InstanceRaw> = laid_out(10, 3.0).iter().map(|i| raw_of(i, 3.0)).collect();
    let second: Vec<InstanceRaw> = laid_out(10, 3.0).iter().map(|i| raw_of(i, 3.0)).collect();
    let a = instance_buffer(&first);
    let b = instance_buffer(&second);
    assert_eq!(a.contents.len(), 100 * 64);
    assert_eq!(a.contents, b.contents);
}
