//! Core of a real-time rendering engine: the render object model and
//! pipeline system.  Scene descriptions (meshes, materials, lights, a
//! camera) are turned into draw calls against a graphics context, while
//! shader source assembly, render-state selection and program caching are
//! hidden behind a small set of composable capability interfaces.
//!
//! The graphics device itself is out of scope: the [`context::Context`]
//! models the device-facing state (the program cache and the issued draw
//! calls) as plain data, so that every rule of the engine - which objects
//! are culled, which shader source is assembled, which render state a draw
//! uses, when a pass may run - is stated in contracts and proved.
//!
//! Scalar quantities (colors, matrix entries, directions) are fixed-point
//! integers with a scale of 1000, so that one thousand stands for the real
//! value one.

use vstd::prelude::*;

pub mod aabb;
pub mod camera;
pub mod context;
pub mod texture;
pub mod deferred_pipeline;
pub mod forward_pipeline;
pub mod light;
pub mod material;
pub mod materials;
pub mod math;
pub mod mesh;
pub mod model;
pub mod object;
pub mod rstates;
pub mod shading;
pub mod strings;

verus! {

/// The error taxonomy of the engine.  Every failure that would otherwise
/// produce visibly wrong output surfaces as one of these typed values; none
/// of them is retried internally.
#[derive(Debug)]
pub enum Error {
    /// Shader or program compilation failed; fatal to the attempted draw
    /// only, never to the engine.
    Compile { message: String },
    /// A uniform or texture name was not found in the compiled program: a
    /// material/shader-source mismatch.
    Binding { message: String },
    /// Texture or buffer allocation failed in the underlying context.
    Resource { message: String },
    /// The deferred light pass was invoked before any geometry pass had
    /// populated the geometry buffer.
    LightPassRendertargetNotAvailable { message: String },
}

impl Error {
    /// The error class, for callers that match on the kind of failure.
    pub open spec fn is_compile(&self) -> bool {
        self is Compile
    }

    pub open spec fn is_binding(&self) -> bool {
        self is Binding
    }

    pub open spec fn is_resource(&self) -> bool {
        self is Resource
    }

    pub open spec fn is_rendertarget_not_available(&self) -> bool {
        self is LightPassRendertargetNotAvailable
    }
}

} // verus!
