use crystal_engine::lights::{
    DirectionalLight, FixedVec, LightColor, LightState, PointLight, PointLightAttenuation, LIGHT_COUNT,
};
use crystal_engine::math::{Float, Vector3};

fn v(x: f32, y: f32, z: f32) -> Vector3 {
    Vector3::new(
        Float::from_bits(x.to_bits()),
        Float::from_bits(y.to_bits()),
        Float::from_bits(z.to_bits()),
    )
}

fn light(n: f32) -> DirectionalLight {
    DirectionalLight {
        direction: v(n, -1.0, 0.0),
        color: LightColor {
            ambient: v(0.1, 0.2, 0.3),
            diffuse: v(0.4, 0.5, 0.6),
            specular: v(0.7, 0.8, 0.9),
        },
    }
}

#[test]
fn fixed_vec_behaves_like_a_list() {
    let mut lights: FixedVec<DirectionalLight> = FixedVec::new();
    assert!(lights.is_empty());
    assert_eq!(lights.len(), 0);
    assert_eq!(lights.as_slice().len(), 0);
    lights.push(light(1.0));
    lights.push(light(2.0));
    lights.push(light(3.0));
    assert!(!lights.is_empty());
    assert_eq!(lights.len(), 3);
    assert_eq!(lights.as_slice(), &[light(1.0), light(2.0), light(3.0)]);
    assert_eq!(*lights.get(1), light(2.0));
    lights.pop();
    assert_eq!(lights.as_slice(), &[light(1.0), light(2.0)]);
    lights.set(0, light(7.0));
    assert_eq!(lights.as_slice(), &[light(7.0), light(2.0)]);
    lights.as_mut_slice()[1] = light(9.0);
    assert_eq!(lights.as_mut_slice().len(), 2);
    assert_eq!(lights.as_slice(), &[light(7.0), light(9.0)]);
    lights.pop();
    lights.pop();
    assert!(lights.is_empty());
}

#[test]
fn fixed_vec_takes_a_hundred() {
    let mut lights: FixedVec<PointLight> = FixedVec::new();
    for _ in 0..LIGHT_COUNT {
        lights.push(PointLight::default());
    }
    assert_eq!(lights.len(), 100);
    assert_eq!(lights.as_slice().len(), 100);
}

#[test]
fn lights_for_the_shaders() {
    let mut lights: FixedVec<DirectionalLight> = FixedVec::new();
    lights.push(light(1.0));
    lights.push(light(2.0));
    let (count, uniforms) = lights.to_shader_value();
    assert_eq!(count, 2);
    assert_eq!(uniforms.len(), 100);
    assert_eq!(uniforms[1].direction_x.to_bits(), 2.0f32.to_bits());
    assert_eq!(uniforms[0].direction_y.to_bits(), (-1.0f32).to_bits());
    assert_eq!(uniforms[0].color_ambient_g.to_bits(), 0.2f32.to_bits());
    assert_eq!(uniforms[0].color_diffuse_r.to_bits(), 0.4f32.to_bits());
    // the green of the diffuse color is handed over as its red
    assert_eq!(uniforms[0].color_diffuse_g.to_bits(), 0.4f32.to_bits());
    assert_eq!(uniforms[0].color_diffuse_b.to_bits(), 0.6f32.to_bits());
    assert_eq!(uniforms[0].color_specular_b.to_bits(), 0.9f32.to_bits());
    assert_eq!(uniforms[0], light(1.0).uniform());
}

#[test]
fn default_lights() {
    let state = LightState::new();
    assert!(state.directional.is_empty());
    assert!(state.point.is_empty());
    let attenuation = PointLightAttenuation::default();
    assert_eq!(f32::from_bits(attenuation.constant.to_bits()), 1.0);
    assert_eq!(f32::from_bits(attenuation.linear.to_bits()), 0.09);
    assert_eq!(f32::from_bits(attenuation.quadratic.to_bits()), 0.032);
    assert_eq!(DirectionalLight::default().direction, v(0.0, 0.0, 0.0));
    assert_eq!(LightColor::default().specular, v(0.0, 0.0, 0.0));
    assert_eq!(PointLight::default().attenuation, attenuation);
}
