use three_d::aabb::AxisAlignedBoundingBox;
use three_d::camera::{Camera, Viewport};
use three_d::math::{vec3, Mat4};
use three_d::mesh::CPUMesh;
use three_d::model::Model;
use three_d::object::{Cullable, Cullable2D};

fn boxed(min: (i64, i64, i64), max: (i64, i64, i64)) -> AxisAlignedBoundingBox {
    AxisAlignedBoundingBox::new(vec3(min.0, min.1, min.2), vec3(max.0, max.1, max.2))
}

#[test]
fn overlapping_boxes_intersect() {
    let a = boxed((0, 0, 0), (10, 10, 10));
    let b = boxed((5, 5, 5), (15, 15, 15));
    assert!(a.intersects(&b));
    assert!(b.intersects(&a));
}

#[test]
fn separated_boxes_do_not_intersect() {
    let a = boxed((0, 0, 0), (10, 10, 10));
    let b = boxed((11, 0, 0), (20, 10, 10));
    assert!(!a.intersects(&b));
    let c = boxed((0, 0, 11), (10, 10, 20));
    assert!(!a.intersects(&c));
}

#[test]
fn boundary_touching_boxes_intersect() {
    let a = boxed((0, 0, 0), (10, 10, 10));
    let b = boxed((10, 0, 0), (20, 10, 10));
    assert!(a.intersects(&b));
    let corner = boxed((10, 10, 10), (20, 20, 20));
    assert!(a.intersects(&corner));
}

#[test]
fn contained_box_intersects() {
    let outer = boxed((0, 0, 0), (100, 100, 100));
    let inner = boxed((40, 40, 40), (60, 60, 60));
    assert!(outer.intersects(&inner));
    assert!(inner.intersects(&outer));
}

#[test]
fn bounding_box_of_positions_is_tight() {
    let positions = vec![vec3(-5, 2, 7), vec3(3, -4, 1), vec3(0, 9, -2)];
    let aabb = AxisAlignedBoundingBox::new_with_positions(&positions);
    assert_eq!(aabb.min, vec3(-5, -4, -2));
    assert_eq!(aabb.max, vec3(3, 9, 7));
}

#[test]
fn model_culling_follows_the_frustum() {
    let mesh = CPUMesh {
        name: String::from("tri"),
        positions: vec![vec3(0, 0, 0), vec3(100, 0, 0), vec3(0, 100, 0)],
        normals: None,
        uvs: None,
        colors: None,
        indices: None,
    };
    let model = Model::new(&mesh).unwrap();
    let near = Camera::new(
        Viewport::new_at_origo(640, 480),
        Mat4::identity(),
        Mat4::identity(),
        boxed((-50, -50, -50), (50, 50, 50)),
        100,
        100_000,
    );
    assert!(Cullable::in_frustum(&model, &near));
    let far = Camera::new(
        Viewport::new_at_origo(640, 480),
        Mat4::identity(),
        Mat4::identity(),
        boxed((500, 500, 500), (600, 600, 600)),
        100,
        100_000,
    );
    assert!(!Cullable::in_frustum(&model, &far));
}

#[test]
fn model_culling_2d_follows_the_viewport() {
    let mesh = CPUMesh {
        name: String::from("tri"),
        positions: vec![vec3(0, 0, 0), vec3(100, 0, 0), vec3(0, 100, 0)],
        normals: None,
        uvs: None,
        colors: None,
        indices: None,
    };
    let model = Model::new(&mesh).unwrap();
    assert!(Cullable2D::in_frustum(&model, Viewport::new_at_origo(640, 480)));
    assert!(!Cullable2D::in_frustum(
        &model,
        Viewport { x: 200, y: 200, width: 100, height: 100 }
    ));
}
