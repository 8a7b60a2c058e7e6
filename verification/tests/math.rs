use three_d::aabb::AxisAlignedBoundingBox;
use three_d::camera::{Camera, Viewport};
use three_d::light::{compute_up_direction, shadow_matrix};
use three_d::material::Color;
use three_d::math::{vec3, Mat4};
use three_d::strings::decimal_string;

#[test]
fn dot_and_cross_products_are_exact() {
    let a = vec3(1, 2, 3);
    let b = vec3(4, 5, 6);
    assert_eq!(a.dot(&b), 4 + 10 + 18);
    let c = a.cross(&b);
    assert_eq!(c, vec3(2 * 6 - 3 * 5, 3 * 4 - 1 * 6, 1 * 5 - 2 * 4));
}

#[test]
fn matrix_product_against_identity() {
    let id = Mat4::identity();
    let m = Mat4 {
        m00: 1, m01: 2, m02: 3, m03: 4,
        m10: 5, m11: 6, m12: 7, m13: 8,
        m20: 9, m21: 10, m22: 11, m23: 12,
        m30: 13, m31: 14, m32: 15, m33: 16,
    };
    // The identity carries the fixed-point scale, so the product scales
    // each entry by 1000.
    let p = m.mul(&id);
    assert_eq!(p.m00, 1000);
    assert_eq!(p.m12, 7000);
    assert_eq!(p.m33, 16000);
}

#[test]
fn shadow_matrix_composes_bias_projection_view() {
    let camera = Camera::new(
        Viewport::new_at_origo(640, 480),
        Mat4::identity(),
        Mat4::identity(),
        AxisAlignedBoundingBox::new(vec3(-1000, -1000, -1000), vec3(1000, 1000, 1000)),
        100,
        100_000,
    );
    let m = shadow_matrix(&camera);
    // bias * identity * identity, with the scale of each identity factor.
    assert_eq!(m.m00, 500 * 1000 * 1000);
    assert_eq!(m.m03, 500 * 1000 * 1000);
    assert_eq!(m.m11, 500 * 1000 * 1000);
    assert_eq!(m.m33, 1000 * 1000 * 1000);
    assert_eq!(m.m01, 0);
    assert_eq!(m.m30, 0);
}

#[test]
fn up_direction_avoids_a_degenerate_basis() {
    // Nearly parallel to the world X axis: the up vector derives from Y.
    let along_x = compute_up_direction(vec3(1000, 0, 0));
    assert_eq!(along_x, vec3(0, 0, -1000));
    let negative_x = compute_up_direction(vec3(-950, 0, 0));
    assert_eq!(negative_x, vec3(0, 0, 950));
    // Any other direction derives the up vector from X.
    let along_z = compute_up_direction(vec3(0, 0, 1000));
    assert_eq!(along_z, vec3(0, -1000, 0));
    let diagonal = compute_up_direction(vec3(600, 600, 520));
    assert_eq!(diagonal, vec3(0, -520, 600));
}

#[test]
fn decimal_rendering_is_exact() {
    assert_eq!(decimal_string(0), "0");
    assert_eq!(decimal_string(7), "7");
    assert_eq!(decimal_string(42), "42");
    assert_eq!(decimal_string(1_234_567), "1234567");
}

#[test]
fn color_channels_scale_to_unit_fractions() {
    let white = Color { r: 255, g: 255, b: 255, a: 255 };
    let v = white.to_vec4();
    assert_eq!((v.x, v.y, v.z, v.w), (1000, 1000, 1000, 1000));
    let half = Color { r: 128, g: 0, b: 255, a: 51 };
    let h = half.to_vec4();
    assert_eq!(h.x, 128 * 1000 / 255);
    assert_eq!(h.y, 0);
    assert_eq!(h.z, 1000);
    assert_eq!(h.w, 200);
    assert!(half.is_transparent());
    assert!(!white.is_transparent());
}
