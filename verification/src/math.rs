//! Fixed-point vector and matrix values.  Every scalar is an `i64` holding
//! a real value scaled by [`SCALE`]: the integer 1000 stands for the real
//! value one.  Products of two scaled values therefore carry the square of
//! the scale; the contracts state the exact integer arithmetic performed.

use vstd::prelude::*;

verus! {

/// The fixed-point scale: the integer that stands for the real value one.
pub const SCALE: i64 = 1000;

/// A three-component vector.
#[derive(PartialEq, Eq, Structural, Clone, Copy, Debug)]
pub struct Vec3 {
    pub x: i64,
    pub y: i64,
    pub z: i64,
}

/// A four-component vector.
#[derive(PartialEq, Eq, Structural, Clone, Copy, Debug)]
pub struct Vec4 {
    pub x: i64,
    pub y: i64,
    pub z: i64,
    pub w: i64,
}

/// Shorthand constructor for [`Vec3`].
pub fn vec3(x: i64, y: i64, z: i64) -> (r: Vec3)
    ensures
        r == (Vec3 { x, y, z }),
{
    Vec3 { x, y, z }
}

/// Shorthand constructor for [`Vec4`].
pub fn vec4(x: i64, y: i64, z: i64, w: i64) -> (r: Vec4)
    ensures
        r == (Vec4 { x, y, z, w }),
{
    Vec4 { x, y, z, w }
}

/// All three components of `v` lie within `[-bound, bound]`.
pub open spec fn vec3_bounded(v: Vec3, bound: int) -> bool {
    &&& -bound <= v.x <= bound
    &&& -bound <= v.y <= bound
    &&& -bound <= v.z <= bound
}

/// The product of two values bounded in magnitude is bounded by the
/// product of the bounds.
proof fn lemma_mul_abs_bound(a: int, b: int, ba: int, bb: int)
    by (nonlinear_arith)
    requires
        -ba <= a <= ba,
        -bb <= b <= bb,
        0 <= ba,
        0 <= bb,
    ensures
        -(ba * bb) <= a * b <= ba * bb,
{
}

impl Vec3 {
    /// The dot product of two vectors, as exact integer arithmetic.
    pub fn dot(&self, other: &Vec3) -> (r: i64)
        requires
            vec3_bounded(*self, 1_000_000_000),
            vec3_bounded(*other, 1_000_000_000),
        ensures
            r == self.x * other.x + self.y * other.y + self.z * other.z,
    {
        proof {
            lemma_mul_abs_bound(self.x as int, other.x as int, 1_000_000_000, 1_000_000_000);
            lemma_mul_abs_bound(self.y as int, other.y as int, 1_000_000_000, 1_000_000_000);
            lemma_mul_abs_bound(self.z as int, other.z as int, 1_000_000_000, 1_000_000_000);
        }
        self.x * other.x + self.y * other.y + self.z * other.z
    }

    /// The cross product of two vectors, as exact integer arithmetic.
    pub fn cross(&self, other: &Vec3) -> (r: Vec3)
        requires
            vec3_bounded(*self, 1_000_000_000),
            vec3_bounded(*other, 1_000_000_000),
        ensures
            r.x == self.y * other.z - self.z * other.y,
            r.y == self.z * other.x - self.x * other.z,
            r.z == self.x * other.y - self.y * other.x,
    {
        proof {
            lemma_mul_abs_bound(self.x as int, other.x as int, 1_000_000_000, 1_000_000_000);
            lemma_mul_abs_bound(self.x as int, other.y as int, 1_000_000_000, 1_000_000_000);
            lemma_mul_abs_bound(self.x as int, other.z as int, 1_000_000_000, 1_000_000_000);
            lemma_mul_abs_bound(self.y as int, other.x as int, 1_000_000_000, 1_000_000_000);
            lemma_mul_abs_bound(self.y as int, other.y as int, 1_000_000_000, 1_000_000_000);
            lemma_mul_abs_bound(self.y as int, other.z as int, 1_000_000_000, 1_000_000_000);
            lemma_mul_abs_bound(self.z as int, other.x as int, 1_000_000_000, 1_000_000_000);
            lemma_mul_abs_bound(self.z as int, other.y as int, 1_000_000_000, 1_000_000_000);
            lemma_mul_abs_bound(self.z as int, other.z as int, 1_000_000_000, 1_000_000_000);
        }
        Vec3 {
            x: self.y * other.z - self.z * other.y,
            y: self.z * other.x - self.x * other.z,
            z: self.x * other.y - self.y * other.x,
        }
    }

    /// The absolute value of the x component; used for near-parallel tests
    /// against the world X axis.
    pub fn abs_x(&self) -> (r: i64)
        requires
            self.x > i64::MIN,
        ensures
            r == if self.x >= 0 { self.x as int } else { -(self.x as int) },
    {
        if self.x >= 0 {
            self.x
        } else {
            -self.x
        }
    }
}

/// A four-term sum of products: one entry of a matrix product.  The
/// bounds keep the whole sum within `i64`.
fn dot4(a0: i64, a1: i64, a2: i64, a3: i64, b0: i64, b1: i64, b2: i64, b3: i64) -> (r: i64)
    requires
        -4_000_000_000_000 <= a0 <= 4_000_000_000_000,
        -4_000_000_000_000 <= a1 <= 4_000_000_000_000,
        -4_000_000_000_000 <= a2 <= 4_000_000_000_000,
        -4_000_000_000_000 <= a3 <= 4_000_000_000_000,
        -500_000 <= b0 <= 500_000,
        -500_000 <= b1 <= 500_000,
        -500_000 <= b2 <= 500_000,
        -500_000 <= b3 <= 500_000,
    ensures
        r == a0 * b0 + a1 * b1 + a2 * b2 + a3 * b3,
{
    proof {
        lemma_mul_abs_bound(a0 as int, b0 as int, 4_000_000_000_000, 500_000);
        lemma_mul_abs_bound(a1 as int, b1 as int, 4_000_000_000_000, 500_000);
        lemma_mul_abs_bound(a2 as int, b2 as int, 4_000_000_000_000, 500_000);
        lemma_mul_abs_bound(a3 as int, b3 as int, 4_000_000_000_000, 500_000);
    }
    a0 * b0 + a1 * b1 + a2 * b2 + a3 * b3
}

/// A 3 by 3 matrix in row-major naming: `mRC` is row R, column C.
#[derive(PartialEq, Eq, Structural, Clone, Copy, Debug)]
pub struct Mat3 {
    pub m00: i64,
    pub m01: i64,
    pub m02: i64,
    pub m10: i64,
    pub m11: i64,
    pub m12: i64,
    pub m20: i64,
    pub m21: i64,
    pub m22: i64,
}

/// A 4 by 4 matrix in row-major naming: `mRC` is row R, column C.
#[derive(PartialEq, Eq, Structural, Clone, Copy, Debug)]
pub struct Mat4 {
    pub m00: i64,
    pub m01: i64,
    pub m02: i64,
    pub m03: i64,
    pub m10: i64,
    pub m11: i64,
    pub m12: i64,
    pub m13: i64,
    pub m20: i64,
    pub m21: i64,
    pub m22: i64,
    pub m23: i64,
    pub m30: i64,
    pub m31: i64,
    pub m32: i64,
    pub m33: i64,
}

/// All sixteen entries of `m` lie within `[-bound, bound]`.
pub open spec fn mat4_bounded(m: Mat4, bound: int) -> bool {
    &&& -bound <= m.m00 <= bound
    &&& -bound <= m.m01 <= bound
    &&& -bound <= m.m02 <= bound
    &&& -bound <= m.m03 <= bound
    &&& -bound <= m.m10 <= bound
    &&& -bound <= m.m11 <= bound
    &&& -bound <= m.m12 <= bound
    &&& -bound <= m.m13 <= bound
    &&& -bound <= m.m20 <= bound
    &&& -bound <= m.m21 <= bound
    &&& -bound <= m.m22 <= bound
    &&& -bound <= m.m23 <= bound
    &&& -bound <= m.m30 <= bound
    &&& -bound <= m.m31 <= bound
    &&& -bound <= m.m32 <= bound
    &&& -bound <= m.m33 <= bound
}

/// The entry-wise integer matrix product, clipped to `i64`; under the
/// bounds of [`Mat4::mul`] no entry is ever clipped.
pub open spec fn mat4_mul_spec(a: Mat4, b: Mat4) -> Mat4 {
    Mat4 {
        m00: (a.m00 * b.m00 + a.m01 * b.m10 + a.m02 * b.m20 + a.m03 * b.m30) as i64,
        m01: (a.m00 * b.m01 + a.m01 * b.m11 + a.m02 * b.m21 + a.m03 * b.m31) as i64,
        m02: (a.m00 * b.m02 + a.m01 * b.m12 + a.m02 * b.m22 + a.m03 * b.m32) as i64,
        m03: (a.m00 * b.m03 + a.m01 * b.m13 + a.m02 * b.m23 + a.m03 * b.m33) as i64,
        m10: (a.m10 * b.m00 + a.m11 * b.m10 + a.m12 * b.m20 + a.m13 * b.m30) as i64,
        m11: (a.m10 * b.m01 + a.m11 * b.m11 + a.m12 * b.m21 + a.m13 * b.m31) as i64,
        m12: (a.m10 * b.m02 + a.m11 * b.m12 + a.m12 * b.m22 + a.m13 * b.m32) as i64,
        m13: (a.m10 * b.m03 + a.m11 * b.m13 + a.m12 * b.m23 + a.m13 * b.m33) as i64,
        m20: (a.m20 * b.m00 + a.m21 * b.m10 + a.m22 * b.m20 + a.m23 * b.m30) as i64,
        m21: (a.m20 * b.m01 + a.m21 * b.m11 + a.m22 * b.m21 + a.m23 * b.m31) as i64,
        m22: (a.m20 * b.m02 + a.m21 * b.m12 + a.m22 * b.m22 + a.m23 * b.m32) as i64,
        m23: (a.m20 * b.m03 + a.m21 * b.m13 + a.m22 * b.m23 + a.m23 * b.m33) as i64,
        m30: (a.m30 * b.m00 + a.m31 * b.m10 + a.m32 * b.m20 + a.m33 * b.m30) as i64,
        m31: (a.m30 * b.m01 + a.m31 * b.m11 + a.m32 * b.m21 + a.m33 * b.m31) as i64,
        m32: (a.m30 * b.m02 + a.m31 * b.m12 + a.m32 * b.m22 + a.m33 * b.m32) as i64,
        m33: (a.m30 * b.m03 + a.m31 * b.m13 + a.m32 * b.m23 + a.m33 * b.m33) as i64,
    }
}

impl Mat4 {
    /// The identity matrix at the fixed-point scale.
    pub fn identity() -> (r: Mat4)
        ensures
            r.m00 == SCALE && r.m11 == SCALE && r.m22 == SCALE && r.m33 == SCALE,
            r.m01 == 0 && r.m02 == 0 && r.m03 == 0,
            r.m10 == 0 && r.m12 == 0 && r.m13 == 0,
            r.m20 == 0 && r.m21 == 0 && r.m23 == 0,
            r.m30 == 0 && r.m31 == 0 && r.m32 == 0,
            mat4_bounded(r, SCALE as int),
    {
        Mat4 {
            m00: SCALE, m01: 0, m02: 0, m03: 0,
            m10: 0, m11: SCALE, m12: 0, m13: 0,
            m20: 0, m21: 0, m22: SCALE, m23: 0,
            m30: 0, m31: 0, m32: 0, m33: SCALE,
        }
    }

    /// The exact integer matrix product `self * other`.  The bounds keep
    /// every four-term sum of products within `i64`.
    pub fn mul(&self, other: &Mat4) -> (r: Mat4)
        requires
            mat4_bounded(*self, 4_000_000_000_000),
            mat4_bounded(*other, 500_000),
        ensures
            r.m00 == self.m00 * other.m00 + self.m01 * other.m10 + self.m02 * other.m20 + self.m03 * other.m30,
            r.m01 == self.m00 * other.m01 + self.m01 * other.m11 + self.m02 * other.m21 + self.m03 * other.m31,
            r.m02 == self.m00 * other.m02 + self.m01 * other.m12 + self.m02 * other.m22 + self.m03 * other.m32,
            r.m03 == self.m00 * other.m03 + self.m01 * other.m13 + self.m02 * other.m23 + self.m03 * other.m33,
            r.m10 == self.m10 * other.m00 + self.m11 * other.m10 + self.m12 * other.m20 + self.m13 * other.m30,
            r.m11 == self.m10 * other.m01 + self.m11 * other.m11 + self.m12 * other.m21 + self.m13 * other.m31,
            r.m12 == self.m10 * other.m02 + self.m11 * other.m12 + self.m12 * other.m22 + self.m13 * other.m32,
            r.m13 == self.m10 * other.m03 + self.m11 * other.m13 + self.m12 * other.m23 + self.m13 * other.m33,
            r.m20 == self.m20 * other.m00 + self.m21 * other.m10 + self.m22 * other.m20 + self.m23 * other.m30,
            r.m21 == self.m20 * other.m01 + self.m21 * other.m11 + self.m22 * other.m21 + self.m23 * other.m31,
            r.m22 == self.m20 * other.m02 + self.m21 * other.m12 + self.m22 * other.m22 + self.m23 * other.m32,
            r.m23 == self.m20 * other.m03 + self.m21 * other.m13 + self.m22 * other.m23 + self.m23 * other.m33,
            r.m30 == self.m30 * other.m00 + self.m31 * other.m10 + self.m32 * other.m20 + self.m33 * other.m30,
            r.m31 == self.m30 * other.m01 + self.m31 * other.m11 + self.m32 * other.m21 + self.m33 * other.m31,
            r.m32 == self.m30 * other.m02 + self.m31 * other.m12 + self.m32 * other.m22 + self.m33 * other.m32,
            r.m33 == self.m30 * other.m03 + self.m31 * other.m13 + self.m32 * other.m23 + self.m33 * other.m33,
            r == mat4_mul_spec(*self, *other),
    {
        Mat4 {
            m00: dot4(self.m00, self.m01, self.m02, self.m03, other.m00, other.m10, other.m20, other.m30),
            m01: dot4(self.m00, self.m01, self.m02, self.m03, other.m01, other.m11, other.m21, other.m31),
            m02: dot4(self.m00, self.m01, self.m02, self.m03, other.m02, other.m12, other.m22, other.m32),
            m03: dot4(self.m00, self.m01, self.m02, self.m03, other.m03, other.m13, other.m23, other.m33),
            m10: dot4(self.m10, self.m11, self.m12, self.m13, other.m00, other.m10, other.m20, other.m30),
            m11: dot4(self.m10, self.m11, self.m12, self.m13, other.m01, other.m11, other.m21, other.m31),
            m12: dot4(self.m10, self.m11, self.m12, self.m13, other.m02, other.m12, other.m22, other.m32),
            m13: dot4(self.m10, self.m11, self.m12, self.m13, other.m03, other.m13, other.m23, other.m33),
            m20: dot4(self.m20, self.m21, self.m22, self.m23, other.m00, other.m10, other.m20, other.m30),
            m21: dot4(self.m20, self.m21, self.m22, self.m23, other.m01, other.m11, other.m21, other.m31),
            m22: dot4(self.m20, self.m21, self.m22, self.m23, other.m02, other.m12, other.m22, other.m32),
            m23: dot4(self.m20, self.m21, self.m22, self.m23, other.m03, other.m13, other.m23, other.m33),
            m30: dot4(self.m30, self.m31, self.m32, self.m33, other.m00, other.m10, other.m20, other.m30),
            m31: dot4(self.m30, self.m31, self.m32, self.m33, other.m01, other.m11, other.m21, other.m31),
            m32: dot4(self.m30, self.m31, self.m32, self.m33, other.m02, other.m12, other.m22, other.m32),
            m33: dot4(self.m30, self.m31, self.m32, self.m33, other.m03, other.m13, other.m23, other.m33),
        }
    }
}

} // verus!
