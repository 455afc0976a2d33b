use crystal_engine::game_state::GameState;
use crystal_engine::gpu::GpuBuffer;
use crystal_engine::math::{Euler, Float, Matrix4, Vector2, Vector3, Vector4};
use crystal_engine::model::{Model, ModelData, ModelDataGroup, ModelGroup};
use std::sync::Arc;
use vek::{Mat4, Vec3};

fn float(value: f32) -> Float {
    Float::from_bits(value.to_bits())
}

fn number(value: Float) -> f32 {
    f32::from_bits(value.to_bits())
}

fn columns(m: Matrix4) -> [[f32; 4]; 4] {
    let column = |c: Vector4| [number(c.x), number(c.y), number(c.z), number(c.w)];
    [column(m.x), column(m.y), column(m.z), column(m.w)]
}

#[test]
fn numbers_are_kept_by_their_bits() {
    assert_eq!(number(Float::zero()), 0.0);
    assert_eq!(number(Float::one()), 1.0);
    assert_eq!(number(float(-3.25)), -3.25);
    assert_eq!(float(2.5).to_bits(), 0x4020_0000);
    assert_eq!(number(float(2.5).neg()), -2.5);
    assert_eq!(number(float(-2.5).neg()), 2.5);
    assert_eq!(float(0.0).neg().to_bits(), (-0.0f32).to_bits());
    let v = Vector3::new(float(1.0), float(-2.0), float(0.0)).neg();
    assert_eq!((number(v.x), number(v.y)), (-1.0, 2.0));
    assert_eq!(v.z.to_bits(), (-0.0f32).to_bits());
    assert_eq!(Vector3::zero(), Vector3::new(float(0.0), float(0.0), float(0.0)));
    assert_eq!(Euler::zero(), Euler::new(float(0.0), float(0.0), float(0.0)));
    assert_eq!(Vector2::new(float(1.0), float(2.0)).y, float(2.0));
}

#[test]
fn matrices_agree_with_vek() {
    assert_eq!(columns(Matrix4::identity()), Mat4::<f32>::identity().into_col_arrays());
    assert_eq!(columns(Matrix4::zero()), Mat4::<f32>::zero().into_col_arrays());
    let position = Vector3::new(float(1.0), float(2.0), float(3.0));
    assert_eq!(
        columns(Matrix4::from_translation(position)),
        Mat4::<f32>::translation_3d(Vec3::new(1.0, 2.0, 3.0)).into_col_arrays()
    );
    assert_eq!(
        columns(Matrix4::from_scale(float(2.0))),
        Mat4::<f32>::scaling_3d(Vec3::new(2.0, 2.0, 2.0)).into_col_arrays()
    );
    assert_eq!(
        columns(Matrix4::from_translation(position)),
        [[1.0, 0.0, 0.0, 0.0], [0.0, 1.0, 0.0, 0.0], [0.0, 0.0, 1.0, 0.0], [1.0, 2.0, 3.0, 1.0]]
    );
}

#[test]
fn matrix_entries_column_by_column() {
    let f = |n: u32| float(n as f32);
    let m = Matrix4::new(
        f(0), f(1), f(2), f(3), f(4), f(5), f(6), f(7), f(8), f(9), f(10), f(11), f(12), f(13),
        f(14), f(15),
    );
    assert_eq!(
        columns(m),
        [
            [0.0, 1.0, 2.0, 3.0],
            [4.0, 5.0, 6.0, 7.0],
            [8.0, 9.0, 10.0, 11.0],
            [12.0, 13.0, 14.0, 15.0]
        ]
    );
    assert_eq!(m.position(), Vector3::new(f(0), f(1), f(2)));
    assert_eq!(Vector4::new(f(1), f(2), f(3), f(4)).w, f(4));
}

#[test]
fn world_matrix_of_a_group() {
    let mut state = GameState::new();
    let model = Arc::new(Model {
        vertex_buffer: Some(GpuBuffer { id: 1 }),
        groups: vec![ModelGroup::from_tex(None)],
        texture_future: Vec::new(),
    });
    let data = ModelData {
        position: Vector3::new(float(1.0), float(2.0), float(3.0)),
        rotation: Euler::zero(),
        scale: float(2.0),
        groups: Vec::new(),
    };
    let handle = state.add_model(model, data);
    let data = state.model_data(handle.id()).unwrap();
    assert_eq!(data.groups, vec![ModelDataGroup::default()]);
    assert_eq!(data.rotation, Euler::zero());

    let position =
        Vec3::new(number(data.position.x), number(data.position.y), number(data.position.z));
    let scale = number(data.scale);
    let base = Mat4::<f32>::translation_3d(position)
        * Mat4::<f32>::identity()
        * Mat4::<f32>::scaling_3d(Vec3::new(scale, scale, scale));
    let world = base * Mat4::from_col_arrays(columns(data.groups[0].matrix));
    let expected = Mat4::<f32>::translation_3d(Vec3::new(1.0, 2.0, 3.0))
        * Mat4::<f32>::identity()
        * Mat4::<f32>::scaling_3d(Vec3::new(2.0, 2.0, 2.0));
    assert_eq!(world, expected);
    assert_eq!(
        world.into_col_arrays(),
        [[2.0, 0.0, 0.0, 0.0], [0.0, 2.0, 0.0, 0.0], [0.0, 0.0, 2.0, 0.0], [1.0, 2.0, 3.0, 1.0]]
    );
}
