use three_d::aabb::AxisAlignedBoundingBox;
use three_d::camera::{Camera, Viewport};
use three_d::context::Context;
use three_d::light::Lights;
use three_d::material::Color;
use three_d::materials::ColorMaterial;
use three_d::math::{vec3, Mat3, Mat4};
use three_d::mesh::CPUMesh;
use three_d::model::Model;
use three_d::object::{Drawable, Glue, Shadable2D};
use three_d::rstates::Blend;
use three_d::texture::{Format, Texture2D};
use three_d::Error;

fn model_camera() -> Camera {
    Camera::new(
        Viewport::new_at_origo(640, 480),
        Mat4::identity(),
        Mat4::identity(),
        AxisAlignedBoundingBox::new(vec3(-1000, -1000, -1000), vec3(1000, 1000, 1000)),
        100,
        100_000,
    )
}

fn triangle_mesh() -> CPUMesh {
    CPUMesh {
        name: String::from("tri"),
        positions: vec![vec3(0, 0, 0), vec3(100, 0, 0), vec3(0, 100, 0)],
        normals: None,
        uvs: None,
        colors: None,
        indices: None,
    }
}

fn colored_mesh(alpha: u8) -> CPUMesh {
    CPUMesh {
        name: String::from("tri"),
        positions: vec![vec3(0, 0, 0), vec3(100, 0, 0), vec3(0, 100, 0)],
        normals: None,
        uvs: None,
        colors: Some(vec![
            Color { r: 255, g: 0, b: 0, a: 255 },
            Color { r: 0, g: 255, b: 0, a: alpha },
            Color { r: 0, g: 0, b: 255, a: 255 },
        ]),
        indices: None,
    }
}

#[test]
fn empty_mesh_is_a_resource_error() {
    let empty = CPUMesh {
        name: String::from("empty"),
        positions: vec![],
        normals: None,
        uvs: None,
        colors: None,
        indices: None,
    };
    assert!(matches!(Model::new(&empty), Err(Error::Resource { .. })));
}

#[test]
fn model_bounding_box_is_tight() {
    let model = Model::new(&triangle_mesh()).unwrap();
    let aabb = model.aabb();
    assert_eq!(aabb.min, vec3(0, 0, 0));
    assert_eq!(aabb.max, vec3(100, 100, 0));
}

#[test]
fn planar_transformation_embeds_into_three_dimensions() {
    let mut model = Model::new(&triangle_mesh()).unwrap();
    let planar = Mat3 {
        m00: 1, m01: 2, m02: 3,
        m10: 4, m11: 5, m12: 6,
        m20: 7, m21: 8, m22: 9,
    };
    model.set_transformation_2d(planar);
    let t = model.transformation();
    assert_eq!((t.m00, t.m01, t.m02, t.m03), (1, 2, 0, 3));
    assert_eq!((t.m10, t.m11, t.m12, t.m13), (4, 5, 0, 6));
    assert_eq!((t.m20, t.m21, t.m22, t.m23), (0, 0, 1000, 0));
    assert_eq!((t.m30, t.m31, t.m32, t.m33), (7, 8, 0, 9));
}

#[test]
fn set_transformation_replaces_the_transform() {
    let mut model = Model::new(&triangle_mesh()).unwrap();
    let mut t = Mat4::identity();
    t.m03 = 1234;
    model.set_transformation(t);
    assert_eq!(model.transformation().m03, 1234);
}

#[test]
fn render_with_texture_follows_texture_transparency() {
    let model = Model::new(&triangle_mesh()).unwrap();
    let camera = model_camera();
    let mut context = Context::new();
    let alpha = Texture2D { width: 2, height: 2, format: Format::RGBA };
    model.render_with_texture(&alpha, &camera, &mut context).unwrap();
    assert_eq!(context.draws.len(), 1);
    assert_eq!(context.draws[0].states.blend, Blend::Transparency);
    let opaque = Texture2D { width: 2, height: 2, format: Format::RGB };
    model.render_with_texture(&opaque, &camera, &mut context).unwrap();
    assert_eq!(context.draws.len(), 2);
    assert_eq!(context.draws[1].states.blend, Blend::Disabled);
}

#[test]
fn render_helpers_draw_once() {
    let model = Model::new(&triangle_mesh()).unwrap();
    let camera = model_camera();
    let mut context = Context::new();
    model.render_uvs(&camera, &mut context).unwrap();
    model.render_normals(&camera, &mut context).unwrap();
    model.render_depth(&camera, &mut context).unwrap();
    model.render_color(&camera, &mut context).unwrap();
    model.render_with_color(Color { r: 9, g: 9, b: 9, a: 255 }, &camera, &mut context).unwrap();
    assert_eq!(context.draws.len(), 5);
    // The depth helper writes depth only.
    assert!(context.draws[2].states.write_mask.depth);
    assert!(!context.draws[2].states.write_mask.red);
}

#[test]
fn depth_to_red_writes_red_and_depth_only() {
    let model = Model::new(&triangle_mesh()).unwrap();
    let camera = model_camera();
    let mut context = Context::new();
    model.render_depth_to_red(&camera, 50_000, &mut context).unwrap();
    assert_eq!(context.draws.len(), 1);
    let mask = context.draws[0].states.write_mask;
    assert!(mask.red && mask.depth);
    assert!(!mask.green && !mask.blue && !mask.alpha);
}

#[test]
fn vertex_color_alpha_turns_the_draw_transparent() {
    let transparent = Model::new(&colored_mesh(100)).unwrap();
    let camera = model_camera();
    let mut context = Context::new();
    transparent.render_color(&camera, &mut context).unwrap();
    assert_eq!(context.draws[0].states.blend, Blend::Transparency);
    let opaque = Model::new(&colored_mesh(255)).unwrap();
    opaque.render_color(&camera, &mut context).unwrap();
    assert_eq!(context.draws[1].states.blend, Blend::Disabled);
}

#[test]
fn glue_renders_its_geometry_with_its_material() {
    let object = Glue {
        geometry: Model::new(&triangle_mesh()).unwrap(),
        material: ColorMaterial::default(),
    };
    let camera = model_camera();
    let mut context = Context::new();
    let lights = Lights::default();
    object.render(&camera, &lights, &mut context).unwrap();
    assert_eq!(context.draws.len(), 1);
    assert_eq!(context.draws[0].aabb, object.geometry.aabb());
    assert!(!object.is_transparent());
}

#[test]
fn model_renders_into_a_plain_viewport() {
    let model = Model::new(&triangle_mesh()).unwrap();
    let mut context = Context::new();
    let viewport = Viewport::new_at_origo(320, 200);
    let material = ColorMaterial::default();
    Shadable2D::render_forward(&model, &material, viewport, &mut context).unwrap();
    assert_eq!(context.draws.len(), 1);
    assert_eq!(context.draws[0].viewport, viewport);
}
