//! The material capability interfaces: a forward material shades an
//! object directly against the final target, a deferred material writes
//! surface parameters into a geometry buffer for a later light pass.
//! Both turn a material's visual parameters into a fragment-shader source
//! block and uniform bindings.

use vstd::prelude::*;

use crate::camera::Camera;
use crate::context::Program;
use crate::light::AnyLight;
use crate::light::Lights;
use crate::light::lights_seq;
use crate::rstates::RenderStates;
use crate::Error;

verus! {

/// A material rendered in a forward pass, against the active lights.
pub trait ForwardMaterial {
    /// The fragment-shader block this material emits; a pure function of
    /// the material's value, the vertex-color flag and the lights.
    spec fn source_spec(&self, use_vertex_colors: bool, lights: Seq<AnyLight>) -> Seq<char>;

    /// All uniform names the material binds occur in the fragment source
    /// `fs`.
    spec fn uniforms_ok(&self, fs: Seq<char>) -> bool;

    /// The render state the material selects, given the caller's
    /// transparency hint.
    spec fn states_spec(&self, transparent_hint: bool) -> RenderStates;

    /// Whether the material itself is transparent.
    spec fn transparent_spec(&self) -> bool;

    /// Emit this material's fragment-shader block.  The block is never
    /// empty, so the assembled shader always compiles.
    fn fragment_shader_source(&self, use_vertex_colors: bool, lights: &Lights) -> (r: String)
        ensures
            r@ == self.source_spec(use_vertex_colors, lights_seq(*lights)),
            r@.len() > 0,
    ;

    /// Bind this material's scalar, vector and texture uniforms; a
    /// missing slot is a binding error.
    fn use_uniforms(&self, program: &Program, camera: &Camera, lights: &Lights) -> (r: Result<
        (),
        Error,
    >)
        ensures
            r is Ok <==> self.uniforms_ok(program.fragment_source@),
            r matches Err(e) ==> e.is_binding(),
    ;

    /// The render state for a draw with this material.  A transparent
    /// material selects color-only writes with blending; an opaque one
    /// the default state.
    fn render_states(&self, transparent_hint: bool) -> (r: RenderStates)
        ensures
            r == self.states_spec(transparent_hint),
    ;

    /// Whether the material is transparent.
    fn is_transparent(&self) -> (r: bool)
        ensures
            r == self.transparent_spec(),
    ;
}

/// A material rendered in a deferred geometry pass: it writes surface
/// parameters to a multi-target buffer; lighting is irrelevant at this
/// stage by construction.
pub trait DeferredMaterial {
    /// The geometry-pass fragment block; a pure function of the
    /// material's value and the vertex-color flag.
    spec fn source_deferred_spec(&self, use_vertex_colors: bool) -> Seq<char>;

    /// All uniform names the geometry pass binds occur in `fs`.
    spec fn uniforms_deferred_ok(&self, fs: Seq<char>) -> bool;

    /// The render state of the geometry pass.
    spec fn states_deferred_spec(&self) -> RenderStates;

    /// Emit the geometry-pass fragment block; never empty.
    fn fragment_shader_source_deferred(&self, use_vertex_colors: bool) -> (r: String)
        ensures
            r@ == self.source_deferred_spec(use_vertex_colors),
            r@.len() > 0,
    ;

    /// Bind the geometry-pass uniforms; a missing slot is a binding
    /// error.
    fn use_uniforms_deferred(&self, program: &Program) -> (r: Result<(), Error>)
        ensures
            r is Ok <==> self.uniforms_deferred_ok(program.fragment_source@),
            r matches Err(e) ==> e.is_binding(),
    ;

    /// The render state the geometry pass uses.
    fn render_states_deferred(&self) -> (r: RenderStates)
        ensures
            r == self.states_deferred_spec(),
    ;
}

/// Shader-source generation is deterministic: structurally identical
/// materials and light aggregates always yield the same source block, so
/// the program cache key never varies between frames.
pub proof fn lemma_fragment_source_deterministic<M: ForwardMaterial>(
    m1: &M,
    m2: &M,
    use_vertex_colors: bool,
    l1: &Lights,
    l2: &Lights,
)
    requires
        m1 == m2,
        lights_seq(*l1) == lights_seq(*l2),
    ensures
        m1.source_spec(use_vertex_colors, lights_seq(*l1)) == m2.source_spec(
            use_vertex_colors,
            lights_seq(*l2),
        ),
        crate::light::lights_source_spec(*l1) == crate::light::lights_source_spec(*l2),
{
}

} // verus!
