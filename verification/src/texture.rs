//! CPU- and GPU-side texture values.  A GPU texture is write-once,
//! read-many: it is created from CPU pixel data and never mutated, so it
//! may be shared read-only across many materials.  Transparency of a
//! texture is a property of its pixel format alone: a format with an alpha
//! channel is transparent.

use vstd::prelude::*;
use vstd::string::*;

use crate::Error;

verus! {

/// The channel layout of a texture's pixels.
#[derive(PartialEq, Eq, Structural, Clone, Copy, Debug)]
pub enum Format {
    R,
    RG,
    RGB,
    RGBA,
}

/// How texture coordinates outside the unit range are treated.
#[derive(PartialEq, Eq, Structural, Clone, Copy, Debug)]
pub enum Wrapping {
    ClampToEdge,
    MirroredRepeat,
    Repeat,
}

/// The precision of a depth render target.
#[derive(PartialEq, Eq, Structural, Clone, Copy, Debug)]
pub enum DepthFormat {
    Depth16,
    Depth24,
    Depth32,
}

/// CPU-side pixel data, as produced by a loader; plain data with no
/// behavior and no GPU resource attached.
pub struct CPUTexture {
    pub data: Vec<u8>,
    pub width: u32,
    pub height: u32,
    pub format: Format,
}

/// A GPU color texture, created once from CPU pixel data.
#[derive(PartialEq, Eq, Structural, Clone, Copy, Debug)]
pub struct Texture2D {
    pub width: u32,
    pub height: u32,
    pub format: Format,
}

impl Texture2D {
    /// Upload CPU pixel data to the GPU.  Allocation fails, with a
    /// resource error, exactly when the texture has no pixels.
    pub fn new(cpu_texture: &CPUTexture) -> (r: Result<Texture2D, Error>)
        ensures
            r is Ok <==> cpu_texture.width > 0 && cpu_texture.height > 0,
            r matches Ok(t) ==> t == (Texture2D {
                width: cpu_texture.width,
                height: cpu_texture.height,
                format: cpu_texture.format,
            }),
            r matches Err(e) ==> e.is_resource(),
    {
        if cpu_texture.width > 0 && cpu_texture.height > 0 {
            Ok(
                Texture2D {
                    width: cpu_texture.width,
                    height: cpu_texture.height,
                    format: cpu_texture.format,
                },
            )
        } else {
            Err(Error::Resource { message: String::from_str("texture allocation with zero extent") })
        }
    }

    /// A texture is transparent exactly when its format carries an alpha
    /// channel.
    pub fn is_transparent(&self) -> (r: bool)
        ensures
            r == (self.format == Format::RGBA),
    {
        match self.format {
            Format::RGBA => true,
            _ => false,
        }
    }
}

/// A GPU depth render target, used for shadow maps and depth pre-passes.
#[derive(PartialEq, Eq, Structural, Clone, Copy, Debug)]
pub struct DepthTargetTexture2D {
    pub width: u32,
    pub height: u32,
    pub format: DepthFormat,
}

impl DepthTargetTexture2D {
    /// Allocate a depth target.  Allocation fails, with a resource error,
    /// exactly when the target has zero extent.
    pub fn new(
        width: u32,
        height: u32,
        _wrap_s: Wrapping,
        _wrap_t: Wrapping,
        format: DepthFormat,
    ) -> (r: Result<DepthTargetTexture2D, Error>)
        ensures
            r is Ok <==> width > 0 && height > 0,
            r matches Ok(t) ==> t == (DepthTargetTexture2D { width, height, format }),
            r matches Err(e) ==> e.is_resource(),
    {
        if width > 0 && height > 0 {
            Ok(DepthTargetTexture2D { width, height, format })
        } else {
            Err(
                Error::Resource {
                    message: String::from_str("depth target allocation with zero extent"),
                },
            )
        }
    }
}

} // verus!
