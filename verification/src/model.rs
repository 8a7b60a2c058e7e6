//! A triangle-mesh model: the standard render-capable shape.  A model
//! owns an uploaded mesh and implements the full capability set, plus the
//! classic one-call render helpers that pair the mesh with a stock
//! material.

use vstd::prelude::*;

use crate::aabb::aabb_intersects;
use crate::aabb::AxisAlignedBoundingBox;
use crate::camera::Camera;
use crate::camera::Viewport;
use crate::context::Context;
use crate::light::lights_seq;
use crate::light::AnyLight;
use crate::light::Lights;
use crate::material::Color;
use crate::materials::ColorMaterial;
use crate::materials::DepthMaterial;
use crate::materials::NormalMaterial;
use crate::materials::PhysicalMaterial;
use crate::materials::TextureMaterial;
use crate::materials::UVMaterial;
use crate::math::Mat3;
use crate::math::Mat4;
use crate::mesh::CPUMesh;
use crate::mesh::Mesh;
use crate::object::deferred_render_post;
use crate::object::forward_render_post;
use crate::object::Cullable;
use crate::object::Cullable2D;
use crate::object::Geometry;
use crate::object::Geometry2D;
use crate::object::Shadable;
use crate::object::Shadable2D;
use crate::rstates::Blend;
use crate::rstates::Cull;
use crate::rstates::RenderStates;
use crate::rstates::WriteMask;
use crate::shading::DeferredMaterial;
use crate::shading::ForwardMaterial;
use crate::texture::Texture2D;
use crate::Error;

verus! {

/// A triangle mesh which can be rendered with one of the standard render
/// functions.
#[derive(PartialEq, Eq, Structural, Clone, Copy, Debug)]
pub struct Model {
    pub mesh: Mesh,
    pub cull: Cull,
}

impl Model {
    /// Upload a CPU mesh into a renderable model; fails exactly when the
    /// mesh has no positions.
    pub fn new(cpu_mesh: &CPUMesh) -> (r: Result<Model, Error>)
        ensures
            r is Ok <==> cpu_mesh.positions@.len() > 0,
            r matches Ok(m) ==> {
                &&& crate::mesh::aabb_of_points(cpu_mesh.positions@, m.mesh.aabb)
                &&& m.mesh.has_colors == cpu_mesh.colors is Some
                &&& m.cull == Cull::Off
            },
            r matches Err(e) ==> e.is_resource(),
    {
        match Mesh::new(cpu_mesh) {
            Ok(mesh) => Ok(Model { mesh, cull: Cull::Off }),
            Err(e) => Err(e),
        }
    }

    /// The local to world transformation applied to this geometry.
    pub fn transformation(&self) -> (r: Mat4)
        ensures
            r == self.mesh.transformation,
    {
        self.mesh.transformation()
    }

    /// Set the local to world transformation applied to this geometry.
    pub fn set_transformation(&mut self, transformation: Mat4)
        ensures
            final(self).mesh.transformation == transformation,
            final(self).mesh.aabb == old(self).mesh.aabb,
            final(self).mesh.has_colors == old(self).mesh.has_colors,
            final(self).mesh.colors_transparent == old(self).mesh.colors_transparent,
            final(self).mesh.has_uvs == old(self).mesh.has_uvs,
            final(self).mesh.has_normals == old(self).mesh.has_normals,
            final(self).cull == old(self).cull,
    {
        self.mesh.set_transformation(transformation);
    }

    /// Set a planar transformation, embedded into three dimensions: the
    /// plane's homogeneous row and column move to the outermost slots and
    /// the depth axis stays untouched.
    pub fn set_transformation_2d(&mut self, transformation: Mat3)
        ensures
            final(self).mesh.transformation == (Mat4 {
                m00: transformation.m00,
                m01: transformation.m01,
                m02: 0,
                m03: transformation.m02,
                m10: transformation.m10,
                m11: transformation.m11,
                m12: 0,
                m13: transformation.m12,
                m20: 0,
                m21: 0,
                m22: 1000,
                m23: 0,
                m30: transformation.m20,
                m31: transformation.m21,
                m32: 0,
                m33: transformation.m22,
            }),
            final(self).mesh.aabb == old(self).mesh.aabb,
            final(self).cull == old(self).cull,
            final(self).mesh.has_colors == old(self).mesh.has_colors,
            final(self).mesh.colors_transparent == old(self).mesh.colors_transparent,
    {
        self.set_transformation(
            Mat4 {
                m00: transformation.m00,
                m01: transformation.m01,
                m02: 0,
                m03: transformation.m02,
                m10: transformation.m10,
                m11: transformation.m11,
                m12: 0,
                m13: transformation.m12,
                m20: 0,
                m21: 0,
                m22: 1000,
                m23: 0,
                m30: transformation.m20,
                m31: transformation.m21,
                m32: 0,
                m33: transformation.m22,
            },
        );
    }

    /// Render the mesh with a color per vertex, with no lights.
    pub fn render_color(&self, camera: &Camera, context: &mut Context) -> (r: Result<(), Error>)
        requires
            old(context).wf(),
        ensures
            ({
                let m = ColorMaterial {
                    color: Color { r: 255, g: 255, b: 255, a: 255 },
                    render_states: RenderStates {
                        cull: self.cull,
                        write_mask: WriteMask {
                            red: true,
                            green: true,
                            blue: true,
                            alpha: true,
                            depth: true,
                        },
                        blend: Blend::Disabled,
                    },
                    transparent_render_states: RenderStates {
                        cull: self.cull,
                        write_mask: WriteMask {
                            red: true,
                            green: true,
                            blue: true,
                            alpha: true,
                            depth: false,
                        },
                        blend: Blend::Transparency,
                    },
                };
                forward_render_post(
                    m,
                    self.mesh.aabb,
                    self.mesh.has_colors,
                    self.mesh.colors_transparent,
                    *camera,
                    Seq::<AnyLight>::empty(),
                    *old(context),
                    *final(context),
                    r,
                )
            }),
    {
        let mut mat = ColorMaterial::default();
        mat.render_states.cull = self.cull;
        mat.transparent_render_states.cull = self.cull;
        let lights = Lights::default();
        proof {
            assert(lights_seq(lights) =~= Seq::<AnyLight>::empty());
        }
        Shadable::render_forward(self, &mat, camera, &lights, context)
    }

    /// Render the mesh with the given color, with no lights.
    pub fn render_with_color(&self, color: Color, camera: &Camera, context: &mut Context) -> (r:
        Result<(), Error>)
        requires
            old(context).wf(),
        ensures
            ({
                let m = ColorMaterial {
                    color,
                    render_states: RenderStates {
                        cull: self.cull,
                        write_mask: WriteMask {
                            red: true,
                            green: true,
                            blue: true,
                            alpha: true,
                            depth: true,
                        },
                        blend: Blend::Disabled,
                    },
                    transparent_render_states: RenderStates {
                        cull: self.cull,
                        write_mask: WriteMask {
                            red: true,
                            green: true,
                            blue: true,
                            alpha: true,
                            depth: false,
                        },
                        blend: Blend::Transparency,
                    },
                };
                forward_render_post(
                    m,
                    self.mesh.aabb,
                    self.mesh.has_colors,
                    self.mesh.colors_transparent,
                    *camera,
                    Seq::<AnyLight>::empty(),
                    *old(context),
                    *final(context),
                    r,
                )
            }),
    {
        let mut mat = ColorMaterial::default();
        mat.color = color;
        mat.render_states.cull = self.cull;
        mat.transparent_render_states.cull = self.cull;
        let lights = Lights::default();
        proof {
            assert(lights_seq(lights) =~= Seq::<AnyLight>::empty());
        }
        Shadable::render_forward(self, &mat, camera, &lights, context)
    }

    /// Render the uv coordinates of the mesh in red and green for debug
    /// purposes.
    pub fn render_uvs(&self, camera: &Camera, context: &mut Context) -> (r: Result<(), Error>)
        requires
            old(context).wf(),
        ensures
            ({
                let m = UVMaterial {
                    render_states: RenderStates {
                        cull: self.cull,
                        write_mask: WriteMask {
                            red: true,
                            green: true,
                            blue: true,
                            alpha: true,
                            depth: true,
                        },
                        blend: Blend::Disabled,
                    },
                };
                forward_render_post(
                    m,
                    self.mesh.aabb,
                    self.mesh.has_colors,
                    self.mesh.colors_transparent,
                    *camera,
                    Seq::<AnyLight>::empty(),
                    *old(context),
                    *final(context),
                    r,
                )
            }),
    {
        let mut mat = UVMaterial::default();
        mat.render_states.cull = self.cull;
        let lights = Lights::default();
        proof {
            assert(lights_seq(lights) =~= Seq::<AnyLight>::empty());
        }
        Shadable::render_forward(self, &mat, camera, &lights, context)
    }

    /// Render the normals of the mesh for debug purposes.
    pub fn render_normals(&self, camera: &Camera, context: &mut Context) -> (r: Result<(), Error>)
        requires
            old(context).wf(),
        ensures
            ({
                let m = NormalMaterial { normal_scale: 1000, normal_texture: None };
                forward_render_post(
                    m,
                    self.mesh.aabb,
                    self.mesh.has_colors,
                    self.mesh.colors_transparent,
                    *camera,
                    Seq::<AnyLight>::empty(),
                    *old(context),
                    *final(context),
                    r,
                )
            }),
    {
        let mat = NormalMaterial::default();
        let lights = Lights::default();
        proof {
            assert(lights_seq(lights) =~= Seq::<AnyLight>::empty());
        }
        Shadable::render_forward(self, &mat, camera, &lights, context)
    }

    /// Render the mesh with the given texture; transparent exactly when
    /// the texture's format carries an alpha channel.
    pub fn render_with_texture(&self, texture: &Texture2D, camera: &Camera, context: &mut Context)
        -> (r: Result<(), Error>)
        requires
            old(context).wf(),
        ensures
            forward_render_post(
                TextureMaterial { texture: *texture },
                self.mesh.aabb,
                self.mesh.has_colors,
                self.mesh.colors_transparent,
                *camera,
                Seq::<AnyLight>::empty(),
                *old(context),
                *final(context),
                r,
            ),
    {
        let mat = TextureMaterial { texture: *texture };
        let lights = Lights::default();
        proof {
            assert(lights_seq(lights) =~= Seq::<AnyLight>::empty());
        }
        Shadable::render_forward(self, &mat, camera, &lights, context)
    }

    /// Render the depth, scaled so that `max_depth` maps to one, into the
    /// red channel of the current color target; used for picking.
    pub fn render_depth_to_red(&self, camera: &Camera, max_depth: i64, context: &mut Context) -> (r:
        Result<(), Error>)
        requires
            old(context).wf(),
        ensures
            ({
                let m = DepthMaterial {
                    min_distance: camera.z_near,
                    max_distance: max_depth,
                    render_states: RenderStates {
                        cull: self.cull,
                        write_mask: WriteMask {
                            red: true,
                            green: false,
                            blue: false,
                            alpha: false,
                            depth: true,
                        },
                        blend: Blend::Disabled,
                    },
                };
                forward_render_post(
                    m,
                    self.mesh.aabb,
                    self.mesh.has_colors,
                    self.mesh.colors_transparent,
                    *camera,
                    Seq::<AnyLight>::empty(),
                    *old(context),
                    *final(context),
                    r,
                )
            }),
    {
        let mut mat = DepthMaterial::default();
        mat.max_distance = max_depth;
        mat.min_distance = camera.z_near();
        mat.render_states = RenderStates {
            cull: self.cull,
            write_mask: WriteMask { red: true, green: false, blue: false, alpha: false, depth: true },
            blend: Blend::Disabled,
        };
        let lights = Lights::default();
        proof {
            assert(lights_seq(lights) =~= Seq::<AnyLight>::empty());
        }
        Shadable::render_forward(self, &mat, camera, &lights, context)
    }

    /// Render only the depth into the current depth target, for shadow
    /// maps and depth pre-passes.
    pub fn render_depth(&self, camera: &Camera, context: &mut Context) -> (r: Result<(), Error>)
        requires
            old(context).wf(),
        ensures
            ({
                let m = DepthMaterial {
                    min_distance: 0,
                    max_distance: 1000,
                    render_states: RenderStates {
                        cull: self.cull,
                        write_mask: WriteMask {
                            red: false,
                            green: false,
                            blue: false,
                            alpha: false,
                            depth: true,
                        },
                        blend: Blend::Disabled,
                    },
                };
                forward_render_post(
                    m,
                    self.mesh.aabb,
                    self.mesh.has_colors,
                    self.mesh.colors_transparent,
                    *camera,
                    Seq::<AnyLight>::empty(),
                    *old(context),
                    *final(context),
                    r,
                )
            }),
    {
        let mut mat = DepthMaterial::default();
        mat.render_states = RenderStates {
            cull: self.cull,
            write_mask: WriteMask::depth_only(),
            blend: Blend::Disabled,
        };
        let lights = Lights::default();
        proof {
            assert(lights_seq(lights) =~= Seq::<AnyLight>::empty());
        }
        Shadable::render_forward(self, &mat, camera, &lights, context)
    }

    /// Render the geometry and surface material parameters of the model,
    /// as one step of a deferred geometry pass.
    pub fn geometry_pass(
        &self,
        camera: &Camera,
        viewport: Viewport,
        material: &PhysicalMaterial,
        context: &mut Context,
    ) -> (r: Result<(), Error>)
        requires
            old(context).wf(),
        ensures
            deferred_render_post(
                *material,
                self.mesh.aabb,
                self.mesh.has_colors,
                self.cull,
                viewport,
                *old(context),
                *final(context),
                r,
            ),
    {
        self.render_deferred(material, camera, viewport, context)
    }

    /// The bounding box of the model.
    pub fn aabb(&self) -> (r: AxisAlignedBoundingBox)
        ensures
            r == self.mesh.aabb,
    {
        self.mesh.aabb()
    }
}

impl Cullable for Model {
    open spec fn vis_spec(&self, camera: Camera) -> bool {
        aabb_intersects(camera.frustum, self.mesh.aabb)
    }

    fn in_frustum(&self, camera: &Camera) -> (r: bool) {
        camera.in_frustum(&self.mesh.aabb())
    }
}

impl Shadable for Model {
    open spec fn shape_aabb(&self) -> AxisAlignedBoundingBox {
        self.mesh.aabb
    }

    open spec fn use_vertex_colors(&self) -> bool {
        self.mesh.has_colors
    }

    open spec fn transparent_hint(&self) -> bool {
        self.mesh.colors_transparent
    }

    open spec fn cull_spec(&self) -> Cull {
        self.cull
    }

    fn render_forward<M: ForwardMaterial>(
        &self,
        material: &M,
        camera: &Camera,
        lights: &Lights,
        context: &mut Context,
    ) -> (r: Result<(), Error>) {
        let render_states = material.render_states(self.mesh.colors_transparent);
        let mut fragment_source = lights.fragment_shader_source();
        let material_source = material.fragment_shader_source(self.mesh.has_colors, lights);
        fragment_source.append(material_source.as_str());
        let vertex_source = Mesh::vertex_shader_source(&fragment_source);
        proof {
            crate::light::lemma_lights_source_of_nonempty(lights_seq(*lights));
        }
        let program = match context.resolve_or_compile(&vertex_source, &fragment_source) {
            Ok(p) => p,
            Err(e) => {
                proof {
                    assert(false);
                }
                return Err(e);
            },
        };
        match material.use_uniforms(&program, camera, lights) {
            Ok(u) => u,
            Err(e) => {
                return Err(e);
            },
        };
        match lights.use_uniforms(&program, camera) {
            Ok(u) => u,
            Err(e) => {
                return Err(e);
            },
        };
        self.mesh.render(render_states, &program, camera.viewport(), context);
        Ok(())
    }

    fn render_deferred<M: DeferredMaterial>(
        &self,
        material: &M,
        camera: &Camera,
        viewport: Viewport,
        context: &mut Context,
    ) -> (r: Result<(), Error>) {
        let states = material.render_states_deferred();
        let render_states = RenderStates {
            cull: self.cull,
            write_mask: states.write_mask,
            blend: states.blend,
        };
        let fragment_source = material.fragment_shader_source_deferred(self.mesh.has_colors);
        let vertex_source = Mesh::vertex_shader_source(&fragment_source);
        let program = match context.resolve_or_compile(&vertex_source, &fragment_source) {
            Ok(p) => p,
            Err(e) => {
                proof {
                    assert(false);
                }
                return Err(e);
            },
        };
        match material.use_uniforms_deferred(&program) {
            Ok(u) => u,
            Err(e) => {
                return Err(e);
            },
        };
        self.mesh.render(render_states, &program, viewport, context);
        Ok(())
    }
}

impl Geometry for Model {
    fn aabb(&self) -> (r: AxisAlignedBoundingBox) {
        self.mesh.aabb()
    }
}

impl Cullable2D for Model {
    open spec fn vis2d_spec(&self, viewport: Viewport) -> bool {
        &&& self.mesh.aabb.min.x <= viewport.x + viewport.width
        &&& viewport.x <= self.mesh.aabb.max.x
        &&& self.mesh.aabb.min.y <= viewport.y + viewport.height
        &&& viewport.y <= self.mesh.aabb.max.y
    }

    fn in_frustum(&self, viewport: Viewport) -> (r: bool) {
        self.mesh.aabb.min.x <= viewport.x as i64 + viewport.width as i64 && (viewport.x as i64)
            <= self.mesh.aabb.max.x && self.mesh.aabb.min.y <= viewport.y as i64
            + viewport.height as i64 && (viewport.y as i64) <= self.mesh.aabb.max.y
    }
}

impl Shadable2D for Model {
    open spec fn shape2d_aabb(&self) -> AxisAlignedBoundingBox {
        self.mesh.aabb
    }

    open spec fn use_vertex_colors2d(&self) -> bool {
        self.mesh.has_colors
    }

    open spec fn transparent_hint2d(&self) -> bool {
        self.mesh.colors_transparent
    }

    fn render_forward<M: ForwardMaterial>(
        &self,
        material: &M,
        viewport: Viewport,
        context: &mut Context,
    ) -> (r: Result<(), Error>) {
        let lights = Lights::default();
        proof {
            assert(lights_seq(lights) =~= Seq::<AnyLight>::empty());
        }
        let render_states = material.render_states(self.mesh.colors_transparent);
        let mut fragment_source = lights.fragment_shader_source();
        let material_source = material.fragment_shader_source(self.mesh.has_colors, &lights);
        fragment_source.append(material_source.as_str());
        let vertex_source = Mesh::vertex_shader_source(&fragment_source);
        proof {
            crate::light::lemma_lights_source_of_nonempty(lights_seq(lights));
        }
        let program = match context.resolve_or_compile(&vertex_source, &fragment_source) {
            Ok(p) => p,
            Err(e) => {
                proof {
                    assert(false);
                }
                return Err(e);
            },
        };
        let screen_camera = Camera::new(
            viewport,
            Mat4::identity(),
            Mat4::identity(),
            self.mesh.aabb,
            0,
            1000,
        );
        match material.use_uniforms(&program, &screen_camera, &lights) {
            Ok(u) => u,
            Err(e) => {
                return Err(e);
            },
        };
        self.mesh.render(render_states, &program, viewport, context);
        Ok(())
    }
}

impl Geometry2D for Model {

}

} // verus!
