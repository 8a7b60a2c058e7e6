use three_d::light::{
    AmbientLight, AnyLight, DirectionalLight, Light, Lights, LightsIterator, PointLight, SpotLight,
};
use three_d::material::Color;
use three_d::math::{vec3, Mat4};
use three_d::camera::{Camera, Viewport};
use three_d::aabb::AxisAlignedBoundingBox;
use three_d::context::Context;
use three_d::light::ShadowMap;
use three_d::texture::{DepthFormat, DepthTargetTexture2D, Wrapping};

fn white() -> Color {
    Color { r: 255, g: 255, b: 255, a: 255 }
}

fn test_camera() -> Camera {
    Camera::new(
        Viewport::new_at_origo(640, 480),
        Mat4::identity(),
        Mat4::identity(),
        AxisAlignedBoundingBox::new(vec3(-10_000, -10_000, -10_000), vec3(10_000, 10_000, 10_000)),
        100,
        100_000,
    )
}

fn full_aggregate() -> Lights {
    Lights {
        ambient: Some(AmbientLight::new(400, white())),
        directional: vec![DirectionalLight::new(1000, white(), vec3(0, -1000, 0))],
        spot: vec![SpotLight::new(1000, white(), vec3(0, 0, 0), vec3(0, -1000, 0), 500)],
        point: vec![PointLight::new(1000, white(), vec3(1000, 0, 0), 1000, 0, 0)],
    }
}

#[test]
fn fragment_shader_source_is_deterministic() {
    let lights = full_aggregate();
    let a = lights.fragment_shader_source();
    let b = lights.fragment_shader_source();
    assert_eq!(a, b);
}

#[test]
fn equal_aggregates_give_identical_source() {
    let a = full_aggregate().fragment_shader_source();
    let b = full_aggregate().fragment_shader_source();
    assert_eq!(a, b);
}

#[test]
fn empty_lights_synthesize_zero_lighting() {
    let lights = Lights::default();
    let source = lights.fragment_shader_source();
    let mut expected = String::new();
    expected.push_str("in vec3 pos;\nin vec3 nor;\nuniform vec3 eyePosition;\n");
    expected.push_str(
        "vec3 calculate_light(vec3 color, vec3 direction, vec3 surface_color, vec3 position, vec3 normal, float metallic, float roughness);\n",
    );
    expected.push_str(
        "vec3 calculate_spot(vec3 color, vec3 position, vec3 direction, float cutoff, vec3 surface_color, vec3 pos, vec3 normal, float metallic, float roughness);\n",
    );
    expected.push_str(
        "vec3 calculate_point(vec3 color, vec3 position, vec3 attenuation, vec3 surface_color, vec3 pos, vec3 normal, float metallic, float roughness);\n",
    );
    expected.push_str(
        "\nvec3 calculate_lighting(vec3 surface_color, vec3 position, vec3 normal, float metallic, float roughness, float occlusion)\n{\n    vec3 color = vec3(0.0, 0.0, 0.0);\n",
    );
    expected.push_str("    return color;\n}\n");
    assert_eq!(source, expected);
    assert!(!source.contains("calculate_lighting0"));
    assert!(!source.is_empty());
}

#[test]
fn light_indices_follow_the_fixed_order() {
    let lights = full_aggregate();
    let source = lights.fragment_shader_source();
    let ambient = source.find("ambientColor0").expect("ambient is index 0");
    let directional = source.find("directionalColor1").expect("directional is index 1");
    let spot = source.find("spotColor2").expect("spot is index 2");
    let point = source.find("pointColor3").expect("point is index 3");
    assert!(ambient < directional);
    assert!(directional < spot);
    assert!(spot < point);
}

#[test]
fn indices_are_independent_of_construction_order() {
    // The aggregate's field structure, not insertion order across kinds,
    // decides the numbering: building point lights first changes nothing.
    let mut lights = Lights::default();
    lights.point.push(PointLight::new(1000, white(), vec3(1000, 0, 0), 1000, 0, 0));
    lights.spot.push(SpotLight::new(1000, white(), vec3(0, 0, 0), vec3(0, -1000, 0), 500));
    lights.directional.push(DirectionalLight::new(1000, white(), vec3(0, -1000, 0)));
    lights.ambient = Some(AmbientLight::new(400, white()));
    let source = lights.fragment_shader_source();
    assert_eq!(source, full_aggregate().fragment_shader_source());
}

#[test]
fn iterator_walks_ambient_directional_spot_point() {
    let lights = full_aggregate();
    let mut iter = LightsIterator::new(&lights);
    assert!(matches!(iter.next(), Some(AnyLight::Ambient(_))));
    assert!(matches!(iter.next(), Some(AnyLight::Directional(_))));
    assert!(matches!(iter.next(), Some(AnyLight::Spot(_))));
    assert!(matches!(iter.next(), Some(AnyLight::Point(_))));
    assert!(iter.next().is_none());
    assert!(iter.next().is_none());
}

#[test]
fn numbered_symbols_use_decimal_indices() {
    let mut lights = Lights::default();
    for _ in 0..12 {
        lights.directional.push(DirectionalLight::new(1000, white(), vec3(0, -1000, 0)));
    }
    let source = lights.fragment_shader_source();
    assert!(source.contains("directionalColor11"));
    assert!(source.contains("color += calculate_lighting11(surface_color"));
}

#[test]
fn single_light_source_carries_its_index() {
    let light = AmbientLight::new(400, white());
    let source = light.shader_source(42);
    assert!(source.contains("ambientColor42"));
    assert!(source.contains("calculate_lighting42"));
}

#[test]
fn lights_bind_against_their_own_source() {
    let lights = full_aggregate();
    let mut context = Context::new();
    let fragment_source = lights.fragment_shader_source();
    let vertex_source = String::from("in vec3 position;\nvoid main() {}\n");
    let program = context.resolve_or_compile(&vertex_source, &fragment_source).unwrap();
    assert!(lights.use_uniforms(&program, &test_camera()).is_ok());
}

#[test]
fn lights_binding_fails_against_foreign_source() {
    let lights = full_aggregate();
    let mut context = Context::new();
    let fragment_source = String::from("void main() {}\n");
    let vertex_source = String::from("in vec3 position;\nvoid main() {}\n");
    let program = context.resolve_or_compile(&vertex_source, &fragment_source).unwrap();
    let result = lights.use_uniforms(&program, &test_camera());
    assert!(matches!(result, Err(three_d::Error::Binding { .. })));
}

#[test]
fn shadow_casting_light_emits_shadow_symbols() {
    let mut light = DirectionalLight::new(1000, white(), vec3(0, -1000, 0));
    let texture =
        DepthTargetTexture2D::new(512, 512, Wrapping::ClampToEdge, Wrapping::ClampToEdge, DepthFormat::Depth32)
            .unwrap();
    light.set_shadow_map(ShadowMap { camera: test_camera(), texture });
    let source = light.shader_source(0);
    assert!(source.contains("shadowMVP0"));
    assert!(source.contains("shadowMap0"));
    let plain = DirectionalLight::new(1000, white(), vec3(0, -1000, 0)).shader_source(0);
    assert!(!plain.contains("shadowMVP0"));
}
