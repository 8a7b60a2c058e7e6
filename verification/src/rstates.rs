//! Render states: cull mode, write mask and blend mode for a draw call.
//! A render state is a pure value, recomputed per draw from the active
//! material's transparency status.

use vstd::prelude::*;

verus! {

/// Which side of a triangle is culled before rasterization.
#[derive(PartialEq, Eq, Structural, Clone, Copy, Debug)]
pub enum Cull {
    Off,
    Back,
    Front,
    FrontAndBack,
}

impl Cull {
    /// The default cull mode: no triangle is culled.
    pub fn default_mode() -> (r: Cull)
        ensures
            r == Cull::Off,
    {
        Cull::Off
    }
}

/// Which output channels a draw call may write.
#[derive(PartialEq, Eq, Structural, Clone, Copy, Debug)]
pub struct WriteMask {
    pub red: bool,
    pub green: bool,
    pub blue: bool,
    pub alpha: bool,
    pub depth: bool,
}

impl WriteMask {
    /// Writes every color channel and the depth channel: the mask of an
    /// opaque draw.
    pub fn color_and_depth() -> (r: WriteMask)
        ensures
            r == (WriteMask { red: true, green: true, blue: true, alpha: true, depth: true }),
    {
        WriteMask { red: true, green: true, blue: true, alpha: true, depth: true }
    }

    /// Writes the color channels only, never depth: the mask of a
    /// transparent draw.
    pub fn color_only() -> (r: WriteMask)
        ensures
            r == (WriteMask { red: true, green: true, blue: true, alpha: true, depth: false }),
    {
        WriteMask { red: true, green: true, blue: true, alpha: true, depth: false }
    }

    /// Writes the depth channel only: the mask of a depth pre-pass or
    /// shadow-map draw.
    pub fn depth_only() -> (r: WriteMask)
        ensures
            r == (WriteMask { red: false, green: false, blue: false, alpha: false, depth: true }),
    {
        WriteMask { red: false, green: false, blue: false, alpha: false, depth: true }
    }
}

/// How a fragment's color is combined with the color already in the target.
#[derive(PartialEq, Eq, Structural, Clone, Copy, Debug)]
pub enum Blend {
    /// The fragment replaces the target color: the opaque default.
    Disabled,
    /// Source-alpha blending for transparent draws.
    Transparency,
    /// Additive blending.
    Add,
}

/// The full render state of one draw call.
#[derive(PartialEq, Eq, Structural, Clone, Copy, Debug)]
pub struct RenderStates {
    pub cull: Cull,
    pub write_mask: WriteMask,
    pub blend: Blend,
}

/// The render state every opaque draw uses unless a material overrides it:
/// no culling, color and depth written, blending disabled.
pub open spec fn default_render_states() -> RenderStates {
    RenderStates {
        cull: Cull::Off,
        write_mask: WriteMask { red: true, green: true, blue: true, alpha: true, depth: true },
        blend: Blend::Disabled,
    }
}

/// The render state every transparent draw uses: color-only write mask and
/// source-alpha blending, so that a transparent surface never occludes what
/// is behind it in the depth buffer.
pub open spec fn transparency_render_states() -> RenderStates {
    RenderStates {
        cull: Cull::Off,
        write_mask: WriteMask { red: true, green: true, blue: true, alpha: true, depth: false },
        blend: Blend::Transparency,
    }
}

impl RenderStates {
    /// The opaque default state as an executable value.
    pub fn opaque() -> (r: RenderStates)
        ensures
            r == default_render_states(),
    {
        RenderStates { cull: Cull::Off, write_mask: WriteMask::color_and_depth(), blend: Blend::Disabled }
    }

    /// The transparent state as an executable value.
    pub fn transparent() -> (r: RenderStates)
        ensures
            r == transparency_render_states(),
    {
        RenderStates { cull: Cull::Off, write_mask: WriteMask::color_only(), blend: Blend::Transparency }
    }
}

impl Default for RenderStates {
    /// The default render state is the opaque one.
    fn default() -> (r: RenderStates)
        ensures
            r == default_render_states(),
    {
        RenderStates::opaque()
    }
}

} // verus!
