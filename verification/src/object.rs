//! The render-capability interfaces.  An object is culled, shaded and
//! drawn through the smallest orthogonal interfaces - [`Cullable`],
//! [`Shadable`], [`Drawable`] - composed into [`Geometry`] and
//! [`Object`], so pipelines treat heterogeneous drawable kinds uniformly
//! while each kind implements only what it can support.  [`Glue`] binds
//! one geometry to one material into a drawable object.

use vstd::prelude::*;

use crate::aabb::AxisAlignedBoundingBox;
use crate::camera::Camera;
use crate::camera::Viewport;
use crate::context::cache_extends;
use crate::context::resolved_id;
use crate::context::Context;
use crate::context::DrawCall;
use crate::light::lights_seq;
use crate::light::lights_source_of;
use crate::light::lights_uniforms_of;
use crate::light::lights_wf;
use crate::light::AnyLight;
use crate::light::Lights;
use crate::mesh::vertex_source_spec;
use crate::rstates::Cull;
use crate::rstates::RenderStates;
use crate::shading::DeferredMaterial;
use crate::shading::ForwardMaterial;
use crate::Error;

verus! {

/// The elements of `os` satisfying `p`, in order.
pub open spec fn filtered<T>(os: Seq<T>, p: spec_fn(T) -> bool) -> Seq<T>
    decreases os.len(),
{
    if os.len() == 0 {
        Seq::<T>::empty()
    } else if p(os[0]) {
        seq![os[0]] + filtered(os.skip(1), p)
    } else {
        filtered(os.skip(1), p)
    }
}

/// Filtering distributes over appending one element.
pub proof fn lemma_filtered_snoc<T>(os: Seq<T>, x: T, p: spec_fn(T) -> bool)
    ensures
        filtered(os.push(x), p) == (if p(x) {
            filtered(os, p).push(x)
        } else {
            filtered(os, p)
        }),
    decreases os.len(),
{
    if os.len() == 0 {
        assert(os.push(x)[0] == x);
        assert(os.push(x).skip(1) =~= Seq::<T>::empty());
        assert(filtered(Seq::<T>::empty(), p) == Seq::<T>::empty());
        if p(x) {
            assert(filtered(os.push(x), p) =~= filtered(os, p).push(x));
        } else {
            assert(filtered(os.push(x), p) =~= filtered(os, p));
        }
    } else {
        assert(os.push(x)[0] == os[0]);
        assert(os.push(x).skip(1) =~= os.skip(1).push(x));
        lemma_filtered_snoc(os.skip(1), x, p);
        if p(x) {
            assert(filtered(os.push(x), p) =~= filtered(os, p).push(x));
        } else {
            assert(filtered(os.push(x), p) =~= filtered(os, p));
        }
    }
}

/// A filtered prefix is a prefix of the filtered whole.
pub proof fn lemma_filtered_take_prefix<T>(os: Seq<T>, j: int, p: spec_fn(T) -> bool)
    requires
        0 <= j <= os.len(),
    ensures
        filtered(os.take(j), p).is_prefix_of(filtered(os, p)),
    decreases os.len() - j,
{
    if j == os.len() {
        assert(os.take(j) =~= os);
        assert(filtered(os, p).is_prefix_of(filtered(os, p)));
    } else {
        lemma_filtered_take_prefix(os, j + 1, p);
        assert(os.take(j + 1) =~= os.take(j).push(os[j]));
        lemma_filtered_snoc(os.take(j), os[j], p);
        assert(filtered(os.take(j), p).is_prefix_of(filtered(os.take(j + 1), p)));
    }
}

/// An element passing the filter stands in the filtered whole, right
/// after the filtered elements that precede it.
pub proof fn lemma_filtered_index<T>(os: Seq<T>, j: int, p: spec_fn(T) -> bool)
    requires
        0 <= j < os.len(),
        p(os[j]),
    ensures
        filtered(os.take(j), p).len() < filtered(os, p).len(),
        filtered(os, p)[filtered(os.take(j), p).len() as int] == os[j],
{
    lemma_filtered_take_prefix(os, j + 1, p);
    assert(os.take(j + 1) =~= os.take(j).push(os[j]));
    lemma_filtered_snoc(os.take(j), os[j], p);
    let k = filtered(os.take(j), p).len() as int;
    assert(filtered(os.take(j + 1), p)[k] == os[j]);
    assert(filtered(os, p)[k] == filtered(os.take(j + 1), p)[k]);
}

/// What a successful or failed forward render of one shape means: the
/// cache may only grow; the draw succeeds exactly when every uniform the
/// material and the lights bind occurs in the assembled fragment source;
/// on success exactly one draw call is appended, carrying the shape's
/// bound, the resolved program, the material's render state and the
/// camera's viewport; on failure nothing is drawn and the error is a
/// binding error.
pub open spec fn forward_render_post<M: ForwardMaterial>(
    material: M,
    aabb: AxisAlignedBoundingBox,
    use_vertex_colors: bool,
    transparent_hint: bool,
    camera: Camera,
    ls: Seq<AnyLight>,
    old_ctx: Context,
    new_ctx: Context,
    r: Result<(), Error>,
) -> bool {
    let fs = lights_source_of(ls) + material.source_spec(use_vertex_colors, ls);
    &&& new_ctx.wf()
    &&& cache_extends(old_ctx.programs@, new_ctx.programs@)
    &&& ((r is Ok) <==> (material.uniforms_ok(fs) && lights_uniforms_of(ls, fs)))
    &&& (r is Ok ==> new_ctx.draws@ == old_ctx.draws@.push(
        DrawCall {
            aabb,
            program_id: resolved_id(old_ctx.programs@, vertex_source_spec(), fs),
            states: material.states_spec(transparent_hint),
            viewport: camera.viewport,
        },
    ))
    &&& (r is Err ==> new_ctx.draws@ == old_ctx.draws@)
    &&& (r matches Err(e) ==> e.is_binding())
}

/// The deferred counterpart of [`forward_render_post`]: no lights take
/// part, and the draw's cull mode is the shape's own.
pub open spec fn deferred_render_post<M: DeferredMaterial>(
    material: M,
    aabb: AxisAlignedBoundingBox,
    use_vertex_colors: bool,
    cull: Cull,
    viewport: Viewport,
    old_ctx: Context,
    new_ctx: Context,
    r: Result<(), Error>,
) -> bool {
    let fs = material.source_deferred_spec(use_vertex_colors);
    &&& new_ctx.wf()
    &&& cache_extends(old_ctx.programs@, new_ctx.programs@)
    &&& ((r is Ok) <==> material.uniforms_deferred_ok(fs))
    &&& (r is Ok ==> new_ctx.draws@ == old_ctx.draws@.push(
        DrawCall {
            aabb,
            program_id: resolved_id(old_ctx.programs@, vertex_source_spec(), fs),
            states: RenderStates {
                cull,
                write_mask: material.states_deferred_spec().write_mask,
                blend: material.states_deferred_spec().blend,
            },
            viewport,
        },
    ))
    &&& (r is Err ==> new_ctx.draws@ == old_ctx.draws@)
    &&& (r matches Err(e) ==> e.is_binding())
}

/// A shape that can be culled against a camera frustum.
pub trait Cullable {
    /// Whether the shape's bound intersects the camera's visible volume.
    spec fn vis_spec(&self, camera: Camera) -> bool;

    /// Pipelines use this to skip invisible shapes before spending a
    /// draw call; a bound touching the frustum counts as visible.
    fn in_frustum(&self, camera: &Camera) -> (r: bool)
        ensures
            r == self.vis_spec(*camera),
    ;
}

/// A shape that can be shaded with a given material, in a forward or a
/// deferred pass.
pub trait Shadable {
    /// The shape's bounding box, as recorded in its draw calls.
    spec fn shape_aabb(&self) -> AxisAlignedBoundingBox;

    /// Whether the shape carries per-vertex colors.
    spec fn use_vertex_colors(&self) -> bool;

    /// Whether the shape's vertex colors carry transparency; handed to
    /// the material's render-state selection.
    spec fn transparent_hint(&self) -> bool;

    /// The shape's cull mode, applied in the deferred geometry pass.
    spec fn cull_spec(&self) -> Cull;

    /// Assemble the lights' and the material's shader source, resolve the
    /// program through the cache, bind material then light uniforms, and
    /// issue the draw with the material's render state.
    fn render_forward<M: ForwardMaterial>(
        &self,
        material: &M,
        camera: &Camera,
        lights: &Lights,
        context: &mut Context,
    ) -> (r: Result<(), Error>)
        requires
            old(context).wf(),
            lights_wf(*lights),
            lights_seq(*lights).len() <= u32::MAX,
        ensures
            ({
                let ls = lights_seq(*lights);
                let fs = lights_source_of(ls) + material.source_spec(self.use_vertex_colors(), ls);
                &&& final(context).wf()
                &&& cache_extends(old(context).programs@, final(context).programs@)
                &&& ((r is Ok) <==> (material.uniforms_ok(fs) && lights_uniforms_of(ls, fs)))
                &&& (r is Ok ==> final(context).draws@ == old(context).draws@.push(
                    DrawCall {
                        aabb: self.shape_aabb(),
                        program_id: resolved_id(old(context).programs@, vertex_source_spec(), fs),
                        states: material.states_spec(self.transparent_hint()),
                        viewport: camera.viewport,
                    },
                ))
                &&& (r is Err ==> final(context).draws@ == old(context).draws@)
                &&& (r matches Err(e) ==> e.is_binding())
            }),
    ;

    /// Render the geometry and surface material parameters of the shape
    /// into a multi-target buffer; used by a deferred geometry pass.
    fn render_deferred<M: DeferredMaterial>(
        &self,
        material: &M,
        camera: &Camera,
        viewport: Viewport,
        context: &mut Context,
    ) -> (r: Result<(), Error>)
        requires
            old(context).wf(),
        ensures
            ({
                let fs = material.source_deferred_spec(self.use_vertex_colors());
                &&& final(context).wf()
                &&& cache_extends(old(context).programs@, final(context).programs@)
                &&& ((r is Ok) <==> material.uniforms_deferred_ok(fs))
                &&& (r is Ok ==> final(context).draws@ == old(context).draws@.push(
                    DrawCall {
                        aabb: self.shape_aabb(),
                        program_id: resolved_id(old(context).programs@, vertex_source_spec(), fs),
                        states: RenderStates {
                            cull: self.cull_spec(),
                            write_mask: material.states_deferred_spec().write_mask,
                            blend: material.states_deferred_spec().blend,
                        },
                        viewport,
                    },
                ))
                &&& (r is Err ==> final(context).draws@ == old(context).draws@)
                &&& (r matches Err(e) ==> e.is_binding())
            }),
    ;
}

/// A shadable, cullable shape with a bounding box.
pub trait Geometry: Shadable + Cullable {
    /// The axis-aligned bounding box used for culling.
    fn aabb(&self) -> (r: AxisAlignedBoundingBox)
        ensures
            r == self.shape_aabb(),
    ;
}

/// An externally drawable entity: it renders itself with its own, baked
/// in material.
pub trait Drawable {
    /// The bound its draw calls carry.
    spec fn drawable_aabb(&self) -> AxisAlignedBoundingBox;

    /// Whether the entity draws transparent; transparent entities are
    /// skipped by depth passes and drawn after opaque ones.
    spec fn transparent_spec(&self) -> bool;

    /// Whether a render against the lights `ls` succeeds; independent of
    /// the cache state.
    spec fn render_ok_spec(&self, ls: Seq<AnyLight>) -> bool;

    /// Render the entity: on success exactly one draw call is appended,
    /// carrying the entity's bound and the camera's viewport.
    fn render(&self, camera: &Camera, lights: &Lights, context: &mut Context) -> (r: Result<
        (),
        Error,
    >)
        requires
            old(context).wf(),
            lights_wf(*lights),
            lights_seq(*lights).len() <= u32::MAX,
        ensures
            final(context).wf(),
            cache_extends(old(context).programs@, final(context).programs@),
            (r is Ok) == self.render_ok_spec(lights_seq(*lights)),
            r is Ok ==> final(context).draws@.len() == old(context).draws@.len() + 1
                && final(context).draws@.drop_last() == old(context).draws@
                && final(context).draws@.last().aabb == self.drawable_aabb()
                && final(context).draws@.last().viewport == camera.viewport,
            r is Err ==> final(context).draws@ == old(context).draws@,
            r matches Err(e) ==> e.is_binding(),
    ;

    /// Whether the entity draws transparent.
    fn is_transparent(&self) -> (r: bool)
        ensures
            r == self.transparent_spec(),
    ;
}

/// A drawable geometry: what a pipeline renders.
pub trait Object: Drawable + Geometry {

}

/// Binds one geometry to one material into a drawable object.
pub struct Glue<G: Geometry, F: ForwardMaterial> {
    pub geometry: G,
    pub material: F,
}

impl<G: Geometry, F: ForwardMaterial> Drawable for Glue<G, F> {
    open spec fn drawable_aabb(&self) -> AxisAlignedBoundingBox {
        self.geometry.shape_aabb()
    }

    open spec fn transparent_spec(&self) -> bool {
        self.material.transparent_spec()
    }

    open spec fn render_ok_spec(&self, ls: Seq<AnyLight>) -> bool {
        let fs = lights_source_of(ls) + self.material.source_spec(
            self.geometry.use_vertex_colors(),
            ls,
        );
        self.material.uniforms_ok(fs) && lights_uniforms_of(ls, fs)
    }

    fn render(&self, camera: &Camera, lights: &Lights, context: &mut Context) -> (r: Result<
        (),
        Error,
    >) {
        let r = self.geometry.render_forward(&self.material, camera, lights, context);
        proof {
            if r is Ok {
                assert(context.draws@.drop_last() =~= old(context).draws@);
            }
        }
        r
    }

    fn is_transparent(&self) -> (r: bool) {
        self.material.is_transparent()
    }
}

impl<G: Geometry, F: ForwardMaterial> Cullable for Glue<G, F> {
    open spec fn vis_spec(&self, camera: Camera) -> bool {
        self.geometry.vis_spec(camera)
    }

    fn in_frustum(&self, camera: &Camera) -> (r: bool) {
        self.geometry.in_frustum(camera)
    }
}

impl<G: Geometry, F: ForwardMaterial> Shadable for Glue<G, F> {
    open spec fn shape_aabb(&self) -> AxisAlignedBoundingBox {
        self.geometry.shape_aabb()
    }

    open spec fn use_vertex_colors(&self) -> bool {
        self.geometry.use_vertex_colors()
    }

    open spec fn transparent_hint(&self) -> bool {
        self.geometry.transparent_hint()
    }

    open spec fn cull_spec(&self) -> Cull {
        self.geometry.cull_spec()
    }

    fn render_forward<M: ForwardMaterial>(
        &self,
        material: &M,
        camera: &Camera,
        lights: &Lights,
        context: &mut Context,
    ) -> (r: Result<(), Error>) {
        self.geometry.render_forward(material, camera, lights, context)
    }

    fn render_deferred<M: DeferredMaterial>(
        &self,
        material: &M,
        camera: &Camera,
        viewport: Viewport,
        context: &mut Context,
    ) -> (r: Result<(), Error>) {
        self.geometry.render_deferred(material, camera, viewport, context)
    }
}

impl<G: Geometry, F: ForwardMaterial> Geometry for Glue<G, F> {
    fn aabb(&self) -> (r: AxisAlignedBoundingBox) {
        self.geometry.aabb()
    }
}

impl<G: Geometry, F: ForwardMaterial> Object for Glue<G, F> {

}

/// A flat shape that can be culled against a viewport rectangle.
pub trait Cullable2D {
    /// Whether the shape's bound overlaps the viewport rectangle.
    spec fn vis2d_spec(&self, viewport: Viewport) -> bool;

    /// Pipelines use this to skip shapes outside the viewport.
    fn in_frustum(&self, viewport: Viewport) -> (r: bool)
        ensures
            r == self.vis2d_spec(viewport),
    ;
}

/// A flat shape shaded with a material, without lights.
pub trait Shadable2D {
    /// The shape's bounding box.
    spec fn shape2d_aabb(&self) -> AxisAlignedBoundingBox;

    /// Whether the shape carries per-vertex colors.
    spec fn use_vertex_colors2d(&self) -> bool;

    /// Whether those colors carry transparency.
    spec fn transparent_hint2d(&self) -> bool;

    /// Render the shape into the viewport with no lights at all: the
    /// assembled source carries the empty aggregate's zero-contribution
    /// lighting.
    fn render_forward<M: ForwardMaterial>(
        &self,
        material: &M,
        viewport: Viewport,
        context: &mut Context,
    ) -> (r: Result<(), Error>)
        requires
            old(context).wf(),
        ensures
            ({
                let fs = lights_source_of(Seq::<AnyLight>::empty()) + material.source_spec(
                    self.use_vertex_colors2d(),
                    Seq::<AnyLight>::empty(),
                );
                &&& final(context).wf()
                &&& cache_extends(old(context).programs@, final(context).programs@)
                &&& ((r is Ok) <==> material.uniforms_ok(fs))
                &&& (r is Ok ==> final(context).draws@ == old(context).draws@.push(
                    DrawCall {
                        aabb: self.shape2d_aabb(),
                        program_id: resolved_id(old(context).programs@, vertex_source_spec(), fs),
                        states: material.states_spec(self.transparent_hint2d()),
                        viewport,
                    },
                ))
                &&& (r is Err ==> final(context).draws@ == old(context).draws@)
                &&& (r matches Err(e) ==> e.is_binding())
            }),
    ;
}

/// A shadable, cullable flat shape.
pub trait Geometry2D: Shadable2D + Cullable2D {

}

} // verus!
