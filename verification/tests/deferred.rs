use three_d::aabb::AxisAlignedBoundingBox;
use three_d::camera::{Camera, Viewport};
use three_d::context::Context;
use three_d::deferred_pipeline::{DeferredPipeline, GeometryBuffer};
use three_d::light::{AmbientLight, Lights};
use three_d::material::{CPUMaterial, Color};
use three_d::materials::{ColorMaterial, PhysicalMaterial};
use three_d::math::{vec3, Mat4, Vec3};
use three_d::mesh::CPUMesh;
use three_d::model::Model;
use three_d::object::Glue;
use three_d::Error;

fn deferred_camera() -> Camera {
    Camera::new(
        Viewport::new_at_origo(320, 240),
        Mat4::identity(),
        Mat4::identity(),
        AxisAlignedBoundingBox::new(vec3(-1000, -1000, -1000), vec3(1000, 1000, 1000)),
        100,
        100_000,
    )
}

fn deferred_mesh(center: Vec3) -> CPUMesh {
    CPUMesh {
        name: String::from("box"),
        positions: vec![
            vec3(center.x - 100, center.y - 100, center.z - 100),
            vec3(center.x + 100, center.y + 100, center.z + 100),
            vec3(center.x + 100, center.y - 100, center.z - 100),
        ],
        normals: None,
        uvs: None,
        colors: None,
        indices: None,
    }
}

fn deferred_material() -> PhysicalMaterial {
    PhysicalMaterial::new(&CPUMaterial {
        name: String::from("default"),
        albedo: Color { r: 255, g: 255, b: 255, a: 255 },
        albedo_texture: None,
        metallic: 0,
        roughness: 1000,
        metallic_roughness_texture: None,
        occlusion_strength: 1000,
        occlusion_texture: None,
        normal_scale: 1000,
        normal_texture: None,
    })
    .unwrap()
}

#[test]
fn light_pass_without_geometry_pass_is_a_typed_error() {
    let mut context = Context::new();
    let pipeline = DeferredPipeline::new(&context).unwrap();
    let camera = deferred_camera();
    let lights = Lights::default();
    let result = pipeline.light_pass(&camera, &lights, &mut context);
    assert!(matches!(result, Err(Error::LightPassRendertargetNotAvailable { .. })));
    assert_eq!(context.draws.len(), 0);
    assert_eq!(context.programs.len(), 0);
}

#[test]
fn light_pass_after_geometry_pass_succeeds() {
    let mut context = Context::new();
    let mut pipeline = DeferredPipeline::new(&context).unwrap();
    let camera = deferred_camera();
    let objects = vec![Glue {
        geometry: Model::new(&deferred_mesh(vec3(0, 0, 0))).unwrap(),
        material: ColorMaterial::default(),
    }];
    let material = deferred_material();
    pipeline.geometry_pass(&camera, &objects, &material, &mut context).unwrap();
    assert_eq!(
        pipeline.geometry_pass_texture,
        Some(GeometryBuffer { width: 320, height: 240 })
    );
    assert_eq!(context.draws.len(), 1);
    let mut lights = Lights::default();
    lights.ambient = Some(AmbientLight::new(400, Color { r: 255, g: 255, b: 255, a: 255 }));
    pipeline.light_pass(&camera, &lights, &mut context).unwrap();
    assert_eq!(context.draws.len(), 2);
}

#[test]
fn geometry_pass_records_the_visible_objects() {
    let mut context = Context::new();
    let mut pipeline = DeferredPipeline::new(&context).unwrap();
    let camera = deferred_camera();
    let objects = vec![
        Glue {
            geometry: Model::new(&deferred_mesh(vec3(0, 0, 0))).unwrap(),
            material: ColorMaterial::default(),
        },
        Glue {
            geometry: Model::new(&deferred_mesh(vec3(9000, 0, 0))).unwrap(),
            material: ColorMaterial::default(),
        },
    ];
    let material = deferred_material();
    pipeline.geometry_pass(&camera, &objects, &material, &mut context).unwrap();
    assert_eq!(context.draws.len(), 1);
    assert_eq!(context.draws[0].aabb, objects[0].geometry.aabb());
    assert_eq!(context.draws[0].viewport, camera.viewport());
}
