//! The forward render pipeline: it draws visible objects directly to the
//! current render target, in the caller's order.  A separate depth pass
//! draws only the opaque, visible objects with a depth-only write mask,
//! for shadow maps and depth pre-passes.

use vstd::prelude::*;

use crate::camera::Camera;
use crate::context::cache_extends;
use crate::context::Context;
use crate::light::lights_seq;
use crate::light::lights_source_of;
use crate::light::lights_wf;
use crate::light::AnyLight;
use crate::light::Lights;
use crate::materials::depth_source_spec;
use crate::materials::DepthMaterial;
use crate::object::filtered;
use crate::object::lemma_filtered_index;
use crate::object::lemma_filtered_snoc;
use crate::object::lemma_filtered_take_prefix;
use crate::object::Object;
use crate::rstates::Blend;
use crate::rstates::Cull;
use crate::rstates::RenderStates;
use crate::rstates::WriteMask;
use crate::texture::DepthFormat;
use crate::texture::DepthTargetTexture2D;
use crate::texture::Wrapping;
use crate::Error;

verus! {

/// The render state of every depth-pass draw: depth writes only.
pub open spec fn depth_pass_states() -> RenderStates {
    RenderStates {
        cull: Cull::Off,
        write_mask: WriteMask { red: false, green: false, blue: false, alpha: false, depth: true },
        blend: Blend::Disabled,
    }
}

/// The fragment source of every depth-pass draw: the empty aggregate's
/// lighting block and the depth material's block.
pub open spec fn depth_pass_source() -> Seq<char> {
    lights_source_of(Seq::<AnyLight>::empty()) + depth_source_spec()
}

/// Forward render pipeline which can render objects.  Forward rendering
/// draws directly to the given render target and is therefore the same
/// as rendering each object directly.
pub struct ForwardPipeline {

}

impl ForwardPipeline {
    /// Constructor.
    pub fn new(_context: &Context) -> (r: Result<ForwardPipeline, Error>)
        ensures
            r is Ok,
    {
        Ok(ForwardPipeline {  })
    }

    /// Render the objects with the given set of lights, skipping objects
    /// outside the camera frustum, in the caller's order; the caller owns
    /// depth and transparency ordering.
    pub fn render_pass<T: Object>(
        &self,
        camera: &Camera,
        objects: &Vec<T>,
        lights: &Lights,
        context: &mut Context,
    ) -> (r: Result<(), Error>)
        requires
            old(context).wf(),
            lights_wf(*lights),
            lights_seq(*lights).len() <= u32::MAX,
        ensures
            final(context).wf(),
            cache_extends(old(context).programs@, final(context).programs@),
            ({
                let vis = filtered(objects@, |o: T| o.vis_spec(*camera));
                let appended = final(context).draws@.len() - old(context).draws@.len();
                &&& final(context).draws@.subrange(0, old(context).draws@.len() as int) == old(
                    context,
                ).draws@
                &&& appended <= vis.len()
                &&& forall|k: int|
                    0 <= k < appended ==> (#[trigger] final(context).draws@[old(
                        context,
                    ).draws@.len() + k]).aabb == vis[k].drawable_aabb() && final(context).draws@[old(
                        context,
                    ).draws@.len() + k].viewport == camera.viewport
                &&& ((r is Ok) <==> (forall|k: int|
                    0 <= k < vis.len() ==> (#[trigger] vis[k]).render_ok_spec(lights_seq(*lights))))
                &&& (r is Ok ==> appended == vis.len())
                &&& (r matches Err(e) ==> e.is_binding())
            }),
    {
        let ghost old_len = old(context).draws@.len() as int;
        let ghost p = (|o: T| o.vis_spec(*camera));
        let mut j: usize = 0;
        proof {
            assert(objects@.take(0) =~= Seq::<T>::empty());
            crate::context::lemma_cache_extends_refl(context.programs@);
            assert(context.draws@.subrange(0, old_len) =~= old(context).draws@);
        }
        while j < objects.len()
            invariant
                old(context).wf(),
                lights_wf(*lights),
                lights_seq(*lights).len() <= u32::MAX,
                p == (|o: T| o.vis_spec(*camera)),
                0 <= j <= objects@.len(),
                old_len == old(context).draws@.len() as int,
                context.wf(),
                cache_extends(old(context).programs@, context.programs@),
                context.draws@.subrange(0, old_len) == old(context).draws@,
                context.draws@.len() == old_len + filtered(objects@.take(j as int), p).len(),
                forall|k: int|
                    0 <= k < filtered(objects@.take(j as int), p).len()
                        ==> (#[trigger] context.draws@[old_len + k]).aabb == filtered(
                        objects@.take(j as int),
                        p,
                    )[k].drawable_aabb() && context.draws@[old_len + k].viewport
                        == camera.viewport,
                forall|k: int|
                    0 <= k < filtered(objects@.take(j as int), p).len() ==> (#[trigger] filtered(
                        objects@.take(j as int),
                        p,
                    )[k]).render_ok_spec(lights_seq(*lights)),
            decreases objects@.len() - j,
        {
            let object = &objects[j];
            proof {
                assert(objects@.take(j as int + 1) =~= objects@.take(j as int).push(
                    objects@[j as int],
                ));
                lemma_filtered_snoc(objects@.take(j as int), objects@[j as int], p);
            }
            if object.in_frustum(camera) {
                let ghost pre = *context;
                let render_result = object.render(camera, lights, context);
                proof {
                    crate::context::lemma_cache_extends_trans(
                        old(context).programs@,
                        pre.programs@,
                        context.programs@,
                    );
                }
                match render_result {
                    Ok(u) => u,
                    Err(e) => {
                        proof {
                            lemma_filtered_index(objects@, j as int, p);
                            lemma_filtered_take_prefix(objects@, j as int, p);
                            assert(!filtered(objects@, p)[filtered(
                                objects@.take(j as int),
                                p,
                            ).len() as int].render_ok_spec(lights_seq(*lights)));
                        }
                        return Err(e);
                    },
                };
                proof {
                    assert(context.draws@.subrange(0, old_len) =~= pre.draws@.subrange(
                        0,
                        old_len,
                    ));
                    assert forall|k: int|
                        0 <= k < filtered(objects@.take(j as int + 1), p).len() implies (
                    #[trigger] context.draws@[old_len + k]).aabb == filtered(
                        objects@.take(j as int + 1),
                        p,
                    )[k].drawable_aabb() && context.draws@[old_len + k].viewport
                        == camera.viewport by {
                        if k < filtered(objects@.take(j as int), p).len() {
                            assert(context.draws@[old_len + k] == pre.draws@[old_len + k]);
                        } else {
                            assert(context.draws@[old_len + k] == context.draws@.last());
                        }
                    }
                }
            }
            j = j + 1;
        }
        proof {
            assert(objects@.take(j as int) =~= objects@);
            lemma_filtered_take_prefix(objects@, objects@.len() as int, p);
        }
        Ok(())
    }

    /// Render only the depth of the opaque objects inside the camera
    /// frustum, with a depth-only write mask: transparent objects leave
    /// no trace in the depth buffer.
    pub fn depth_pass<T: Object>(
        &self,
        camera: &Camera,
        objects: &Vec<T>,
        context: &mut Context,
    ) -> (r: Result<(), Error>)
        requires
            old(context).wf(),
        ensures
            final(context).wf(),
            cache_extends(old(context).programs@, final(context).programs@),
            ({
                let vis = filtered(
                    objects@,
                    |o: T| o.vis_spec(*camera) && !o.transparent_spec(),
                );
                let appended = final(context).draws@.len() - old(context).draws@.len();
                &&& final(context).draws@.subrange(0, old(context).draws@.len() as int) == old(
                    context,
                ).draws@
                &&& appended <= vis.len()
                &&& forall|k: int|
                    0 <= k < appended ==> (#[trigger] final(context).draws@[old(
                        context,
                    ).draws@.len() + k]).aabb == vis[k].shape_aabb() && final(context).draws@[old(
                        context,
                    ).draws@.len() + k].states == depth_pass_states() && final(context).draws@[old(
                        context,
                    ).draws@.len() + k].viewport == camera.viewport
                &&& ((r is Ok) <==> (vis.len() == 0 || (crate::context::fs_defines(
                    depth_pass_source(),
                    "minDistance"@,
                ) && crate::context::fs_defines(depth_pass_source(), "maxDistance"@))))
                &&& (r is Ok ==> appended == vis.len())
                &&& (r matches Err(e) ==> e.is_binding())
            }),
    {
        let depth_material = DepthMaterial {
            min_distance: 0,
            max_distance: 1000,
            render_states: RenderStates {
                cull: Cull::Off,
                write_mask: WriteMask::depth_only(),
                blend: Blend::Disabled,
            },
        };
        let lights = Lights::default();
        proof {
            assert(lights_seq(lights) =~= Seq::<AnyLight>::empty());
        }
        let ghost old_len = old(context).draws@.len() as int;
        let ghost p = (|o: T| o.vis_spec(*camera) && !o.transparent_spec());
        let mut j: usize = 0;
        proof {
            assert(objects@.take(0) =~= Seq::<T>::empty());
            crate::context::lemma_cache_extends_refl(context.programs@);
            assert(context.draws@.subrange(0, old_len) =~= old(context).draws@);
        }
        while j < objects.len()
            invariant
                old(context).wf(),
                lights_seq(lights).len() == 0,
                lights_seq(lights) == Seq::<AnyLight>::empty(),
                p == (|o: T| o.vis_spec(*camera) && !o.transparent_spec()),
                depth_material == (DepthMaterial {
                    min_distance: 0,
                    max_distance: 1000,
                    render_states: depth_pass_states(),
                }),
                0 <= j <= objects@.len(),
                old_len == old(context).draws@.len() as int,
                context.wf(),
                cache_extends(old(context).programs@, context.programs@),
                context.draws@.subrange(0, old_len) == old(context).draws@,
                context.draws@.len() == old_len + filtered(objects@.take(j as int), p).len(),
                forall|k: int|
                    0 <= k < filtered(objects@.take(j as int), p).len()
                        ==> (#[trigger] context.draws@[old_len + k]).aabb == filtered(
                        objects@.take(j as int),
                        p,
                    )[k].shape_aabb() && context.draws@[old_len + k].states == depth_pass_states()
                        && context.draws@[old_len + k].viewport == camera.viewport,
                filtered(objects@.take(j as int), p).len() > 0 ==> crate::context::fs_defines(
                    depth_pass_source(),
                    "minDistance"@,
                ) && crate::context::fs_defines(depth_pass_source(), "maxDistance"@),
            decreases objects@.len() - j,
        {
            let object = &objects[j];
            proof {
                assert(objects@.take(j as int + 1) =~= objects@.take(j as int).push(
                    objects@[j as int],
                ));
                lemma_filtered_snoc(objects@.take(j as int), objects@[j as int], p);
            }
            let transparent = object.is_transparent();
            let visible = object.in_frustum(camera);
            if !transparent && visible {
                let ghost pre = *context;
                let render_result = object.render_forward(&depth_material, camera, &lights, context);
                proof {
                    crate::context::lemma_cache_extends_trans(
                        old(context).programs@,
                        pre.programs@,
                        context.programs@,
                    );
                }
                match render_result {
                    Ok(u) => u,
                    Err(e) => {
                        proof {
                            lemma_filtered_index(objects@, j as int, p);
                            lemma_filtered_take_prefix(objects@, j as int, p);
                        }
                        return Err(e);
                    },
                };
                proof {
                    assert(context.draws@.subrange(0, old_len) =~= pre.draws@.subrange(
                        0,
                        old_len,
                    ));
                    assert forall|k: int|
                        0 <= k < filtered(objects@.take(j as int + 1), p).len() implies (
                    #[trigger] context.draws@[old_len + k]).aabb == filtered(
                        objects@.take(j as int + 1),
                        p,
                    )[k].shape_aabb() && context.draws@[old_len + k].states == depth_pass_states()
                        && context.draws@[old_len + k].viewport == camera.viewport by {
                        if k < filtered(objects@.take(j as int), p).len() {
                            assert(context.draws@[old_len + k] == pre.draws@[old_len + k]);
                        } else {
                            assert(context.draws@[old_len + k] == context.draws@.last());
                        }
                    }
                }
            }
            j = j + 1;
        }
        proof {
            assert(objects@.take(j as int) =~= objects@);
            lemma_filtered_take_prefix(objects@, objects@.len() as int, p);
        }
        Ok(())
    }

    /// Allocate a depth target of the camera's viewport size, clear it to
    /// the far plane, run the depth pass into it and hand the texture
    /// back.
    pub fn depth_pass_texture<T: Object>(
        &self,
        camera: &Camera,
        objects: &Vec<T>,
        context: &mut Context,
    ) -> (r: Result<DepthTargetTexture2D, Error>)
        requires
            old(context).wf(),
        ensures
            final(context).wf(),
            cache_extends(old(context).programs@, final(context).programs@),
            !(camera.viewport.width > 0 && camera.viewport.height > 0) ==> (r matches Err(e)
                && e.is_resource()) && *final(context) == *old(context),
            ({
                let vis = filtered(
                    objects@,
                    |o: T| o.vis_spec(*camera) && !o.transparent_spec(),
                );
                let appended = final(context).draws@.len() - old(context).draws@.len();
                camera.viewport.width > 0 && camera.viewport.height > 0 ==> {
                    &&& final(context).draws@.subrange(0, old(context).draws@.len() as int) == old(
                        context,
                    ).draws@
                    &&& appended <= vis.len()
                    &&& forall|k: int|
                        0 <= k < appended ==> (#[trigger] final(context).draws@[old(
                            context,
                        ).draws@.len() + k]).states == depth_pass_states()
                            && final(context).draws@[old(context).draws@.len() + k].aabb
                            == vis[k].shape_aabb()
                    &&& ((r is Ok) <==> (vis.len() == 0 || (crate::context::fs_defines(
                        depth_pass_source(),
                        "minDistance"@,
                    ) && crate::context::fs_defines(depth_pass_source(), "maxDistance"@))))
                    &&& (r is Ok ==> appended == vis.len())
                    &&& (r matches Ok(t) ==> t.width == camera.viewport.width && t.height
                        == camera.viewport.height && t.format == DepthFormat::Depth32)
                }
            }),
    {
        let depth_texture = match DepthTargetTexture2D::new(
            camera.viewport().width,
            camera.viewport().height,
            Wrapping::ClampToEdge,
            Wrapping::ClampToEdge,
            DepthFormat::Depth32,
        ) {
            Ok(t) => t,
            Err(e) => {
                proof {
                    crate::context::lemma_cache_extends_refl(context.programs@);
                    assert(context.draws@.subrange(0, old(context).draws@.len() as int) =~= old(
                        context,
                    ).draws@);
                }
                return Err(e);
            },
        };
        match self.depth_pass(camera, objects, context) {
            Ok(u) => u,
            Err(e) => {
                return Err(e);
            },
        };
        Ok(depth_texture)
    }
}

} // verus!
