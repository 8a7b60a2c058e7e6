//! The deferred render pipeline: a geometry pass renders each visible
//! object's surface parameters into a multi-target geometry buffer; a
//! later light pass consumes that buffer together with the light
//! aggregate to produce the final lit color.  The light pass strictly
//! requires a prior geometry pass: without one it fails with a typed
//! error, never silently.

use vstd::prelude::*;
use vstd::string::*;

use crate::aabb::AxisAlignedBoundingBox;
use crate::camera::Camera;
use crate::context::cache_extends;
use crate::context::resolved_id;
use crate::context::Context;
use crate::context::DrawCall;
use crate::light::lights_seq;
use crate::light::lights_source_of;
use crate::light::lights_uniforms_of;
use crate::light::lights_wf;
use crate::light::Lights;
use crate::math::Vec3;
use crate::mesh::vertex_source_spec;
use crate::mesh::Mesh;
use crate::object::filtered;
use crate::object::lemma_filtered_index;
use crate::object::lemma_filtered_snoc;
use crate::object::lemma_filtered_take_prefix;
use crate::object::Object;
use crate::rstates::default_render_states;
use crate::rstates::RenderStates;
use crate::shading::DeferredMaterial;
use crate::Error;

verus! {

/// The populated multi-target geometry buffer of one frame.
#[derive(PartialEq, Eq, Structural, Clone, Copy, Debug)]
pub struct GeometryBuffer {
    pub width: u32,
    pub height: u32,
}

/// The fragment block of the light pass: it reads the geometry buffer
/// and evaluates the synthesized lighting function per pixel.
pub open spec fn deferred_light_src() -> Seq<char> {
    "uniform sampler2D gbufferAlbedo;\nuniform sampler2D gbufferNormal;\nuniform sampler2D gbufferParameters;\nin vec2 uvs;\nlayout (location = 0) out vec4 outColor;\nvoid main()\n{\n    vec3 albedo = texture(gbufferAlbedo, uvs).rgb;\n    vec3 normal = texture(gbufferNormal, uvs).rgb;\n    vec4 parameters = texture(gbufferParameters, uvs);\n    outColor = vec4(calculate_lighting(albedo, pos, normal, parameters.x, parameters.y, 1.0), 1.0);\n}\n"@
}

/// The bound recorded for the light pass's full-screen draw: a
/// degenerate box at the origin, since the draw covers the whole target.
pub open spec fn screen_quad_aabb() -> AxisAlignedBoundingBox {
    AxisAlignedBoundingBox { min: Vec3 { x: 0, y: 0, z: 0 }, max: Vec3 { x: 0, y: 0, z: 0 } }
}

/// Deferred render pipeline: geometry pass first, light pass second.
pub struct DeferredPipeline {
    pub geometry_pass_texture: Option<GeometryBuffer>,
}

impl DeferredPipeline {
    /// Constructor: a fresh pipeline has no populated geometry buffer.
    pub fn new(_context: &Context) -> (r: Result<DeferredPipeline, Error>)
        ensures
            r matches Ok(p) && p.geometry_pass_texture is None,
    {
        Ok(DeferredPipeline { geometry_pass_texture: None })
    }

    /// Render the visible objects' surface parameters into the geometry
    /// buffer; on success the buffer is populated for the current frame.
    pub fn geometry_pass<T: Object, M: DeferredMaterial>(
        &mut self,
        camera: &Camera,
        objects: &Vec<T>,
        material: &M,
        context: &mut Context,
    ) -> (r: Result<(), Error>)
        requires
            old(context).wf(),
        ensures
            final(context).wf(),
            cache_extends(old(context).programs@, final(context).programs@),
            ({
                let vis = filtered(objects@, |o: T| o.vis_spec(*camera));
                let appended = final(context).draws@.len() - old(context).draws@.len();
                &&& final(context).draws@.subrange(0, old(context).draws@.len() as int) == old(
                    context,
                ).draws@
                &&& appended <= vis.len()
                &&& forall|k: int|
                    0 <= k < appended ==> (#[trigger] final(context).draws@[old(
                        context,
                    ).draws@.len() + k]).aabb == vis[k].shape_aabb() && final(context).draws@[old(
                        context,
                    ).draws@.len() + k].viewport == camera.viewport
                &&& ((r is Ok) <==> (forall|k: int|
                    0 <= k < vis.len() ==> material.uniforms_deferred_ok(
                        material.source_deferred_spec((#[trigger] vis[k]).use_vertex_colors()),
                    )))
                &&& (r is Ok ==> appended == vis.len())
                &&& (r matches Err(e) ==> e.is_binding())
            }),
            r is Ok ==> final(self).geometry_pass_texture == Some(
                GeometryBuffer { width: camera.viewport.width, height: camera.viewport.height },
            ),
            r is Err ==> *final(self) == *old(self),
    {
        let ghost old_len = old(context).draws@.len() as int;
        let ghost p = (|o: T| o.vis_spec(*camera));
        let mut j: usize = 0;
        proof {
            assert(objects@.take(0) =~= Seq::<T>::empty());
            crate::context::lemma_cache_extends_refl(context.programs@);
            assert(context.draws@.subrange(0, old_len) =~= old(context).draws@);
        }
        while j < objects.len()
            invariant
                old(context).wf(),
                p == (|o: T| o.vis_spec(*camera)),
                0 <= j <= objects@.len(),
                old_len == old(context).draws@.len() as int,
                *self == *old(self),
                context.wf(),
                cache_extends(old(context).programs@, context.programs@),
                context.draws@.subrange(0, old_len) == old(context).draws@,
                context.draws@.len() == old_len + filtered(objects@.take(j as int), p).len(),
                forall|k: int|
                    0 <= k < filtered(objects@.take(j as int), p).len()
                        ==> (#[trigger] context.draws@[old_len + k]).aabb == filtered(
                        objects@.take(j as int),
                        p,
                    )[k].shape_aabb() && context.draws@[old_len + k].viewport == camera.viewport,
                forall|k: int|
                    0 <= k < filtered(objects@.take(j as int), p).len()
                        ==> material.uniforms_deferred_ok(
                        material.source_deferred_spec(
                            (#[trigger] filtered(objects@.take(j as int), p)[k]).use_vertex_colors(),
                        ),
                    ),
            decreases objects@.len() - j,
        {
            let object = &objects[j];
            proof {
                assert(objects@.take(j as int + 1) =~= objects@.take(j as int).push(
                    objects@[j as int],
                ));
                lemma_filtered_snoc(objects@.take(j as int), objects@[j as int], p);
            }
            if object.in_frustum(camera) {
                let ghost pre = *context;
                let render_result = object.render_deferred(
                    material,
                    camera,
                    camera.viewport(),
                    context,
                );
                proof {
                    crate::context::lemma_cache_extends_trans(
                        old(context).programs@,
                        pre.programs@,
                        context.programs@,
                    );
                }
                match render_result {
                    Ok(u) => u,
                    Err(e) => {
                        proof {
                            lemma_filtered_index(objects@, j as int, p);
                            lemma_filtered_take_prefix(objects@, j as int, p);
                        }
                        return Err(e);
                    },
                };
                proof {
                    assert(context.draws@.subrange(0, old_len) =~= pre.draws@.subrange(
                        0,
                        old_len,
                    ));
                    assert forall|k: int|
                        0 <= k < filtered(objects@.take(j as int + 1), p).len() implies (
                    #[trigger] context.draws@[old_len + k]).aabb == filtered(
                        objects@.take(j as int + 1),
                        p,
                    )[k].shape_aabb() && context.draws@[old_len + k].viewport
                        == camera.viewport by {
                        if k < filtered(objects@.take(j as int), p).len() {
                            assert(context.draws@[old_len + k] == pre.draws@[old_len + k]);
                        } else {
                            assert(context.draws@[old_len + k] == context.draws@.last());
                        }
                    }
                }
            }
            j = j + 1;
        }
        proof {
            assert(objects@.take(j as int) =~= objects@);
            lemma_filtered_take_prefix(objects@, objects@.len() as int, p);
        }
        self.geometry_pass_texture = Some(
            GeometryBuffer { width: camera.viewport().width, height: camera.viewport().height },
        );
        Ok(())
    }

    /// Produce the final lit color from the geometry buffer and the light
    /// aggregate.  Invoked before any geometry pass has populated the
    /// buffer, it fails with a typed render-target error and touches
    /// nothing.
    pub fn light_pass(&self, camera: &Camera, lights: &Lights, context: &mut Context) -> (r:
        Result<(), Error>)
        requires
            old(context).wf(),
            lights_wf(*lights),
            lights_seq(*lights).len() <= u32::MAX,
        ensures
            final(context).wf(),
            cache_extends(old(context).programs@, final(context).programs@),
            self.geometry_pass_texture is None ==> (r matches Err(e)
                && e.is_rendertarget_not_available()) && *final(context) == *old(context),
            self.geometry_pass_texture is Some ==> ({
                let ls = lights_seq(*lights);
                let fs = lights_source_of(ls) + deferred_light_src();
                &&& ((r is Ok) <==> lights_uniforms_of(ls, fs))
                &&& (r is Ok ==> final(context).draws@ == old(context).draws@.push(
                    DrawCall {
                        aabb: screen_quad_aabb(),
                        program_id: resolved_id(old(context).programs@, vertex_source_spec(), fs),
                        states: default_render_states(),
                        viewport: camera.viewport,
                    },
                ))
                &&& (r is Err ==> final(context).draws@ == old(context).draws@)
                &&& (r matches Err(e) ==> e.is_binding())
            }),
    {
        if self.geometry_pass_texture.is_none() {
            proof {
                crate::context::lemma_cache_extends_refl(context.programs@);
            }
            return Err(
                Error::LightPassRendertargetNotAvailable {
                    message: String::from_str("light pass invoked before a geometry pass"),
                },
            );
        }
        let mut fragment_source = lights.fragment_shader_source();
        fragment_source.append(
            "uniform sampler2D gbufferAlbedo;\nuniform sampler2D gbufferNormal;\nuniform sampler2D gbufferParameters;\nin vec2 uvs;\nlayout (location = 0) out vec4 outColor;\nvoid main()\n{\n    vec3 albedo = texture(gbufferAlbedo, uvs).rgb;\n    vec3 normal = texture(gbufferNormal, uvs).rgb;\n    vec4 parameters = texture(gbufferParameters, uvs);\n    outColor = vec4(calculate_lighting(albedo, pos, normal, parameters.x, parameters.y, 1.0), 1.0);\n}\n",
        );
        let vertex_source = Mesh::vertex_shader_source(&fragment_source);
        proof {
            crate::light::lemma_lights_source_of_nonempty(lights_seq(*lights));
        }
        let program = match context.resolve_or_compile(&vertex_source, &fragment_source) {
            Ok(p) => p,
            Err(e) => {
                proof {
                    assert(false);
                }
                return Err(e);
            },
        };
        match lights.use_uniforms(&program, camera) {
            Ok(u) => u,
            Err(e) => {
                return Err(e);
            },
        };
        context.submit_draw(
            DrawCall {
                aabb: AxisAlignedBoundingBox {
                    min: Vec3 { x: 0, y: 0, z: 0 },
                    max: Vec3 { x: 0, y: 0, z: 0 },
                },
                program_id: program.id,
                states: RenderStates::opaque(),
                viewport: camera.viewport(),
            },
        );
        Ok(())
    }
}

} // verus!
