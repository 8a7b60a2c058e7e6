use three_d::aabb::AxisAlignedBoundingBox;
use three_d::camera::{Camera, Viewport};
use three_d::context::Context;
use three_d::forward_pipeline::ForwardPipeline;
use three_d::light::Lights;
use three_d::material::Color;
use three_d::materials::ColorMaterial;
use three_d::math::{vec3, Mat4, Vec3};
use three_d::mesh::CPUMesh;
use three_d::model::Model;
use three_d::object::Glue;
use three_d::rstates::{Blend, WriteMask};
use three_d::texture::DepthFormat;

fn cpu_mesh_at(center: Vec3) -> CPUMesh {
    CPUMesh {
        name: String::from("box"),
        positions: vec![
            vec3(center.x - 100, center.y - 100, center.z - 100),
            vec3(center.x + 100, center.y + 100, center.z + 100),
            vec3(center.x + 100, center.y - 100, center.z - 100),
        ],
        normals: None,
        uvs: None,
        colors: None,
        indices: None,
    }
}

fn scene_camera() -> Camera {
    Camera::new(
        Viewport::new_at_origo(640, 480),
        Mat4::identity(),
        Mat4::identity(),
        AxisAlignedBoundingBox::new(vec3(-1000, -1000, -1000), vec3(1000, 1000, 1000)),
        100,
        100_000,
    )
}

fn opaque_material() -> ColorMaterial {
    ColorMaterial::default()
}

fn transparent_material() -> ColorMaterial {
    let mut material = ColorMaterial::default();
    material.color = Color { r: 255, g: 255, b: 255, a: 100 };
    material
}

fn glue_at(center: Vec3, material: ColorMaterial) -> Glue<Model, ColorMaterial> {
    Glue { geometry: Model::new(&cpu_mesh_at(center)).unwrap(), material }
}

#[test]
fn depth_pass_skips_transparent_objects() {
    let mut context = Context::new();
    let pipeline = ForwardPipeline::new(&context).unwrap();
    let camera = scene_camera();
    let objects = vec![
        glue_at(vec3(0, 0, 0), opaque_material()),
        glue_at(vec3(500, 0, 0), transparent_material()),
        glue_at(vec3(-500, 0, 0), opaque_material()),
    ];
    pipeline.depth_pass(&camera, &objects, &mut context).unwrap();
    assert_eq!(context.draws.len(), 2);
    let first = &context.draws[0];
    let second = &context.draws[1];
    assert_eq!(first.aabb, objects[0].geometry.aabb());
    assert_eq!(second.aabb, objects[2].geometry.aabb());
    for draw in &context.draws {
        assert_eq!(
            draw.states.write_mask,
            WriteMask { red: false, green: false, blue: false, alpha: false, depth: true }
        );
        assert_eq!(draw.states.blend, Blend::Disabled);
    }
}

#[test]
fn render_pass_culls_objects_outside_the_frustum() {
    let mut context = Context::new();
    let pipeline = ForwardPipeline::new(&context).unwrap();
    let camera = scene_camera();
    let objects = vec![
        glue_at(vec3(0, 0, 0), opaque_material()),
        glue_at(vec3(5000, 0, 0), opaque_material()),
    ];
    let lights = Lights::default();
    pipeline.render_pass(&camera, &objects, &lights, &mut context).unwrap();
    assert_eq!(context.draws.len(), 1);
    assert_eq!(context.draws[0].aabb, objects[0].geometry.aabb());
}

#[test]
fn render_pass_keeps_the_callers_order() {
    let mut context = Context::new();
    let pipeline = ForwardPipeline::new(&context).unwrap();
    let camera = scene_camera();
    let objects = vec![
        glue_at(vec3(200, 0, 0), opaque_material()),
        glue_at(vec3(-200, 0, 0), opaque_material()),
        glue_at(vec3(0, 200, 0), opaque_material()),
    ];
    let lights = Lights::default();
    pipeline.render_pass(&camera, &objects, &lights, &mut context).unwrap();
    assert_eq!(context.draws.len(), 3);
    for (k, object) in objects.iter().enumerate() {
        assert_eq!(context.draws[k].aabb, object.geometry.aabb());
        assert_eq!(context.draws[k].viewport, camera.viewport());
    }
}

#[test]
fn boundary_touching_objects_are_rendered() {
    let mut context = Context::new();
    let pipeline = ForwardPipeline::new(&context).unwrap();
    let camera = scene_camera();
    // The object's box touches the frustum exactly at x = 1000.
    let objects = vec![glue_at(vec3(1100, 0, 0), opaque_material())];
    let lights = Lights::default();
    pipeline.render_pass(&camera, &objects, &lights, &mut context).unwrap();
    assert_eq!(context.draws.len(), 1);
}

#[test]
fn depth_pass_texture_matches_the_viewport() {
    let mut context = Context::new();
    let pipeline = ForwardPipeline::new(&context).unwrap();
    let camera = scene_camera();
    let objects = vec![glue_at(vec3(0, 0, 0), opaque_material())];
    let texture = pipeline.depth_pass_texture(&camera, &objects, &mut context).unwrap();
    assert_eq!(texture.width, 640);
    assert_eq!(texture.height, 480);
    assert_eq!(texture.format, DepthFormat::Depth32);
    assert_eq!(context.draws.len(), 1);
}

#[test]
fn identical_draws_share_one_cached_program() {
    let mut context = Context::new();
    let pipeline = ForwardPipeline::new(&context).unwrap();
    let camera = scene_camera();
    let objects = vec![
        glue_at(vec3(0, 0, 0), opaque_material()),
        glue_at(vec3(200, 0, 0), opaque_material()),
    ];
    let lights = Lights::default();
    pipeline.render_pass(&camera, &objects, &lights, &mut context).unwrap();
    assert_eq!(context.draws.len(), 2);
    assert_eq!(context.programs.len(), 1);
    assert_eq!(context.draws[0].program_id, context.draws[1].program_id);
}
