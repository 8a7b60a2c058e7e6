//! The camera and its viewport.  The camera is an out-of-scope
//! collaborator of the engine core: it supplies a projection matrix, a view
//! matrix and the visible volume (the frustum, carried here as its
//! axis-aligned bound, the minimal volume a cull test needs).

use vstd::prelude::*;

use crate::aabb::aabb_intersects;
use crate::aabb::AxisAlignedBoundingBox;
use crate::math::Mat4;

verus! {

/// The rectangle of the render target a draw writes to.
#[derive(PartialEq, Eq, Structural, Clone, Copy, Debug)]
pub struct Viewport {
    pub x: i32,
    pub y: i32,
    pub width: u32,
    pub height: u32,
}

impl Viewport {
    /// A viewport anchored at the origin.
    pub fn new_at_origo(width: u32, height: u32) -> (r: Viewport)
        ensures
            r == (Viewport { x: 0, y: 0, width, height }),
    {
        Viewport { x: 0, y: 0, width, height }
    }
}

/// A camera: the projection and view transforms, the viewport drawn to,
/// and the axis-aligned bound of the visible volume used for culling.
#[derive(PartialEq, Eq, Structural, Clone, Copy, Debug)]
pub struct Camera {
    pub viewport: Viewport,
    pub projection: Mat4,
    pub view: Mat4,
    pub frustum: AxisAlignedBoundingBox,
    pub z_near: i64,
    pub z_far: i64,
}

impl Camera {
    /// Construct a camera from its transforms and visible volume.
    pub fn new(
        viewport: Viewport,
        projection: Mat4,
        view: Mat4,
        frustum: AxisAlignedBoundingBox,
        z_near: i64,
        z_far: i64,
    ) -> (r: Camera)
        ensures
            r == (Camera { viewport, projection, view, frustum, z_near, z_far }),
    {
        Camera { viewport, projection, view, frustum, z_near, z_far }
    }

    /// The projection matrix.
    pub fn projection(&self) -> (r: Mat4)
        ensures
            r == self.projection,
    {
        self.projection
    }

    /// The view matrix.
    pub fn view(&self) -> (r: Mat4)
        ensures
            r == self.view,
    {
        self.view
    }

    /// The viewport drawn to.
    pub fn viewport(&self) -> (r: Viewport)
        ensures
            r == self.viewport,
    {
        self.viewport
    }

    /// The near clipping distance.
    pub fn z_near(&self) -> (r: i64)
        ensures
            r == self.z_near,
    {
        self.z_near
    }

    /// An axis-aligned box is visible exactly when it intersects the
    /// camera's visible volume; a box touching the boundary counts as
    /// visible.
    pub fn in_frustum(&self, aabb: &AxisAlignedBoundingBox) -> (r: bool)
        ensures
            r == aabb_intersects(self.frustum, *aabb),
    {
        self.frustum.intersects(aabb)
    }
}

} // verus!
