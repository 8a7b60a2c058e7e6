use three_d::context::Context;
use three_d::light::Lights;
use three_d::material::{CPUMaterial, Color, Material};
use three_d::materials::{
    ColorMaterial, DepthMaterial, NormalMaterial, PhysicalMaterial, TextureMaterial, UVMaterial,
};
use three_d::rstates::{Blend, Cull, RenderStates, WriteMask};
use three_d::shading::ForwardMaterial;
use three_d::texture::{CPUTexture, Format, Texture2D};
use three_d::Error;

fn rgba_texture() -> Texture2D {
    Texture2D { width: 4, height: 4, format: Format::RGBA }
}

fn rgb_texture() -> Texture2D {
    Texture2D { width: 4, height: 4, format: Format::RGB }
}

#[test]
fn alpha_texture_selects_transparency_states() {
    let material = TextureMaterial { texture: rgba_texture() };
    let states = material.render_states(false);
    assert_eq!(
        states,
        RenderStates {
            cull: Cull::Off,
            write_mask: WriteMask { red: true, green: true, blue: true, alpha: true, depth: false },
            blend: Blend::Transparency,
        }
    );
    assert!(material.is_transparent());
}

#[test]
fn opaque_texture_selects_default_states() {
    let material = TextureMaterial { texture: rgb_texture() };
    let states = material.render_states(false);
    assert_eq!(
        states,
        RenderStates {
            cull: Cull::Off,
            write_mask: WriteMask { red: true, green: true, blue: true, alpha: true, depth: true },
            blend: Blend::Disabled,
        }
    );
    assert!(!material.is_transparent());
}

#[test]
fn transparency_hint_overrides_opaque_texture() {
    let material = TextureMaterial { texture: rgb_texture() };
    let states = material.render_states(true);
    assert_eq!(states.blend, Blend::Transparency);
    assert!(!states.write_mask.depth);
}

#[test]
fn translucent_color_material_is_transparent() {
    let mut material = ColorMaterial::default();
    material.color = Color { r: 10, g: 20, b: 30, a: 128 };
    assert!(material.is_transparent());
    let states = material.render_states(false);
    assert_eq!(states.blend, Blend::Transparency);
    let opaque = ColorMaterial::default();
    assert!(!opaque.is_transparent());
    assert_eq!(opaque.render_states(false).blend, Blend::Disabled);
}

#[test]
fn normal_material_source_depends_on_the_normal_map() {
    let plain = NormalMaterial::default();
    let lights = Lights::default();
    let bare = plain.fragment_shader_source(false, &lights);
    assert!(!bare.contains("#define USE_TEXTURE"));
    let mapped = NormalMaterial { normal_scale: 1000, normal_texture: Some(rgb_texture()) };
    let textured = mapped.fragment_shader_source(false, &lights);
    assert!(textured.contains("#define USE_TEXTURE"));
    assert!(textured.contains("normalScale"));
    assert!(textured.contains("normalTexture"));
}

#[test]
fn uv_material_never_transparent() {
    let material = UVMaterial::default();
    assert!(!material.is_transparent());
    let lights = Lights::default();
    assert!(material.fragment_shader_source(false, &lights).contains("outColor = vec4(uvs"));
}

#[test]
fn depth_material_binds_its_distance_range() {
    let material = DepthMaterial::default();
    let lights = Lights::default();
    let fs = material.fragment_shader_source(false, &lights);
    assert!(fs.contains("minDistance"));
    assert!(fs.contains("maxDistance"));
    let mut context = Context::new();
    let vs = String::from("in vec3 position;\nvoid main() {}\n");
    let program = context.resolve_or_compile(&vs, &fs).unwrap();
    assert!(material
        .use_uniforms(&program, &material_test_camera(), &lights)
        .is_ok());
}

#[test]
fn material_upload_carries_the_description_over() {
    let cpu = CPUMaterial {
        name: String::from("steel"),
        albedo: Color { r: 128, g: 128, b: 128, a: 255 },
        albedo_texture: Some(CPUTexture {
            data: vec![0u8; 16],
            width: 2,
            height: 2,
            format: Format::RGBA,
        }),
        metallic: 900,
        roughness: 250,
        metallic_roughness_texture: None,
        occlusion_strength: 1000,
        occlusion_texture: None,
        normal_scale: 1000,
        normal_texture: None,
    };
    let material = Material::new(&cpu).unwrap();
    assert_eq!(material.name, "steel");
    assert_eq!(material.metallic, 900);
    assert_eq!(material.roughness, 250);
    assert_eq!(material.albedo.x, 128 * 1000 / 255);
    assert!(material.albedo_texture.is_some());
    assert!(material.normal_texture.is_none());
}

#[test]
fn material_upload_rejects_empty_textures() {
    let cpu = CPUMaterial {
        name: String::from("broken"),
        albedo: Color { r: 255, g: 255, b: 255, a: 255 },
        albedo_texture: Some(CPUTexture { data: vec![], width: 0, height: 0, format: Format::RGBA }),
        metallic: 0,
        roughness: 1000,
        metallic_roughness_texture: None,
        occlusion_strength: 1000,
        occlusion_texture: None,
        normal_scale: 1000,
        normal_texture: None,
    };
    let result = Material::new(&cpu);
    assert!(matches!(result, Err(Error::Resource { .. })));
}

#[test]
fn physical_material_binds_against_its_own_source() {
    let physical = PhysicalMaterial::new(&default_cpu_material()).unwrap();
    let lights = Lights::default();
    let mut fs = lights.fragment_shader_source();
    fs.push_str(&physical.fragment_shader_source(false, &lights));
    let mut context = Context::new();
    let vs = String::from("in vec3 position;\nvoid main() {}\n");
    let program = context.resolve_or_compile(&vs, &fs).unwrap();
    assert!(physical
        .use_uniforms(&program, &material_test_camera(), &lights)
        .is_ok());
}

#[test]
fn physical_material_transparency_follows_albedo() {
    let mut physical = PhysicalMaterial::new(&default_cpu_material()).unwrap();
    assert!(!physical.is_transparent());
    physical.material.albedo_texture = Some(rgba_texture());
    assert!(physical.is_transparent());
}

fn default_cpu_material() -> CPUMaterial {
    CPUMaterial {
        name: String::from("default"),
        albedo: Color { r: 255, g: 255, b: 255, a: 255 },
        albedo_texture: None,
        metallic: 0,
        roughness: 1000,
        metallic_roughness_texture: None,
        occlusion_strength: 1000,
        occlusion_texture: None,
        normal_scale: 1000,
        normal_texture: None,
    }
}

fn material_test_camera() -> three_d::camera::Camera {
    three_d::camera::Camera::new(
        three_d::camera::Viewport::new_at_origo(640, 480),
        three_d::math::Mat4::identity(),
        three_d::math::Mat4::identity(),
        three_d::aabb::AxisAlignedBoundingBox::new(
            three_d::math::vec3(-10_000, -10_000, -10_000),
            three_d::math::vec3(10_000, 10_000, 10_000),
        ),
        100,
        100_000,
    )
}
