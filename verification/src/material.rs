//! CPU- and GPU-side materials.  The CPU side is an immutable description
//! produced by loaders; the GPU side is created by an explicit upload step
//! and holds uploaded textures.  The two are distinct types connected only
//! by [`Material::new`].

use vstd::prelude::*;
use vstd::string::*;

use crate::context::fs_defines;
use crate::context::Program;
use crate::math::Vec4;
use crate::texture::CPUTexture;
use crate::texture::Texture2D;
use crate::Error;

verus! {

/// An sRGBA color with byte channels.
#[derive(PartialEq, Eq, Structural, Clone, Copy, Debug)]
pub struct Color {
    pub r: u8,
    pub g: u8,
    pub b: u8,
    pub a: u8,
}

/// The fixed-point fraction `c / 255` of a byte channel.
pub open spec fn channel_to_scaled(c: u8) -> int {
    c * 1000 / 255
}

impl Color {
    /// Opaque white.
    pub fn white() -> (r: Color)
        ensures
            r == (Color { r: 255, g: 255, b: 255, a: 255 }),
    {
        Color { r: 255, g: 255, b: 255, a: 255 }
    }

    /// Construct a color from its four channels.
    pub fn new(r: u8, g: u8, b: u8, a: u8) -> (c: Color)
        ensures
            c == (Color { r, g, b, a }),
    {
        Color { r, g, b, a }
    }

    /// The color as a fixed-point vector with unit channels.
    pub fn to_vec4(&self) -> (v: Vec4)
        ensures
            v.x == channel_to_scaled(self.r),
            v.y == channel_to_scaled(self.g),
            v.z == channel_to_scaled(self.b),
            v.w == channel_to_scaled(self.a),
    {
        Vec4 {
            x: self.r as i64 * 1000 / 255,
            y: self.g as i64 * 1000 / 255,
            z: self.b as i64 * 1000 / 255,
            w: self.a as i64 * 1000 / 255,
        }
    }

    /// A color is transparent when its alpha channel is below full.
    pub fn is_transparent(&self) -> (r: bool)
        ensures
            r == (self.a < 255),
    {
        self.a < 255
    }
}

/// A CPU-side material description.  Textures are assumed to be in sRGB
/// with or without an alpha channel; scalar factors are fixed-point unit
/// fractions.
pub struct CPUMaterial {
    /// Name, used for matching geometry and material.
    pub name: String,
    /// Albedo base color, also called diffuse color.
    pub albedo: Color,
    /// Texture with albedo base colors.
    pub albedo_texture: Option<CPUTexture>,
    /// How metallic the material is, in `[0, 1000]`.
    pub metallic: i64,
    /// How rough the material surface is, in `[0, 1000]`.
    pub roughness: i64,
    /// Texture containing the metallic and roughness parameters.
    pub metallic_roughness_texture: Option<CPUTexture>,
    pub occlusion_strength: i64,
    pub occlusion_texture: Option<CPUTexture>,
    pub normal_scale: i64,
    pub normal_texture: Option<CPUTexture>,
}

impl Default for CPUMaterial {
    /// A plain white, fully rough, non-metallic material without textures.
    fn default() -> (r: CPUMaterial)
        ensures
            r.name@ == "default"@,
            r.albedo == (Color { r: 255, g: 255, b: 255, a: 255 }),
            r.albedo_texture is None,
            r.metallic == 0,
            r.roughness == 1000,
            r.metallic_roughness_texture is None,
            r.occlusion_strength == 1000,
            r.occlusion_texture is None,
            r.normal_scale == 1000,
            r.normal_texture is None,
    {
        CPUMaterial {
            name: String::from_str("default"),
            albedo: Color::white(),
            albedo_texture: None,
            metallic: 0,
            roughness: 1000,
            metallic_roughness_texture: None,
            occlusion_strength: 1000,
            occlusion_texture: None,
            normal_scale: 1000,
            normal_texture: None,
        }
    }
}

/// The optional CPU texture can be uploaded: it is absent, or it has a
/// non-zero extent.
pub open spec fn uploadable(t: &Option<CPUTexture>) -> bool {
    t matches Some(c) ==> c.width > 0 && c.height > 0
}

/// Upload an optional CPU texture; absence stays absence.
fn upload_optional(t: &Option<CPUTexture>) -> (r: Result<Option<Texture2D>, Error>)
    ensures
        r is Ok <==> uploadable(t),
        r matches Ok(g) ==> (g is Some <==> t is Some),
        t matches Some(ct) ==> (r matches Ok(g) ==> g == Some(
            Texture2D { width: ct.width, height: ct.height, format: ct.format },
        )),
        r matches Err(e) ==> e.is_resource(),
{
    match t {
        Some(cpu_texture) => {
            match Texture2D::new(cpu_texture) {
                Ok(g) => Ok(Some(g)),
                Err(e) => Err(e),
            }
        },
        None => Ok(None),
    }
}

/// A GPU-side material used for shading an object.  Texture fields hold
/// uploaded, write-once GPU textures; the value is immutable after upload.
pub struct Material {
    /// Name, used for matching geometry and material.
    pub name: String,
    /// Albedo base color as a fixed-point unit vector.
    pub albedo: Vec4,
    pub albedo_texture: Option<Texture2D>,
    pub metallic: i64,
    pub roughness: i64,
    pub metallic_roughness_texture: Option<Texture2D>,
    pub occlusion_strength: i64,
    pub occlusion_texture: Option<Texture2D>,
    pub normal_scale: i64,
    pub normal_texture: Option<Texture2D>,
}

impl Material {
    /// The uniform and texture slots this material binds are all present
    /// in the fragment source `fs`.
    pub open spec fn bind_spec(&self, fs: Seq<char>) -> bool {
        &&& fs_defines(fs, "metallic"@)
        &&& fs_defines(fs, "roughness"@)
        &&& fs_defines(fs, "albedo"@)
        &&& self.albedo_texture is Some ==> fs_defines(fs, "albedoTexture"@)
        &&& self.metallic_roughness_texture is Some ==> fs_defines(fs, "metallicRoughnessTexture"@)
        &&& self.occlusion_texture is Some ==> fs_defines(fs, "occlusionStrength"@) && fs_defines(
            fs,
            "occlusionTexture"@,
        )
        &&& self.normal_texture is Some ==> fs_defines(fs, "normalScale"@) && fs_defines(
            fs,
            "normalTexture"@,
        )
    }

    /// Upload a CPU material: each present texture is uploaded, scalar
    /// factors and the name are carried over unchanged.  The upload
    /// succeeds exactly when every present texture has pixels.
    pub fn new(cpu_material: &CPUMaterial) -> (r: Result<Material, Error>)
        ensures
            r is Ok <==> uploadable(&cpu_material.albedo_texture) && uploadable(
                &cpu_material.metallic_roughness_texture,
            ) && uploadable(&cpu_material.occlusion_texture) && uploadable(
                &cpu_material.normal_texture,
            ),
            r matches Ok(m) ==> {
                &&& m.name@ == cpu_material.name@
                &&& m.albedo.x == channel_to_scaled(cpu_material.albedo.r)
                &&& m.albedo.y == channel_to_scaled(cpu_material.albedo.g)
                &&& m.albedo.z == channel_to_scaled(cpu_material.albedo.b)
                &&& m.albedo.w == channel_to_scaled(cpu_material.albedo.a)
                &&& m.metallic == cpu_material.metallic
                &&& m.roughness == cpu_material.roughness
                &&& m.occlusion_strength == cpu_material.occlusion_strength
                &&& m.normal_scale == cpu_material.normal_scale
                &&& (m.albedo_texture is Some <==> cpu_material.albedo_texture is Some)
                &&& (m.metallic_roughness_texture is Some
                    <==> cpu_material.metallic_roughness_texture is Some)
                &&& (m.occlusion_texture is Some <==> cpu_material.occlusion_texture is Some)
                &&& (m.normal_texture is Some <==> cpu_material.normal_texture is Some)
            },
            r matches Err(e) ==> e.is_resource(),
    {
        let albedo_texture = match upload_optional(&cpu_material.albedo_texture) {
            Ok(t) => t,
            Err(e) => {
                return Err(e);
            },
        };
        let metallic_roughness_texture = match upload_optional(
            &cpu_material.metallic_roughness_texture,
        ) {
            Ok(t) => t,
            Err(e) => {
                return Err(e);
            },
        };
        let occlusion_texture = match upload_optional(&cpu_material.occlusion_texture) {
            Ok(t) => t,
            Err(e) => {
                return Err(e);
            },
        };
        let normal_texture = match upload_optional(&cpu_material.normal_texture) {
            Ok(t) => t,
            Err(e) => {
                return Err(e);
            },
        };
        Ok(
            Material {
                name: cpu_material.name.clone(),
                albedo: cpu_material.albedo.to_vec4(),
                albedo_texture,
                metallic: cpu_material.metallic,
                roughness: cpu_material.roughness,
                metallic_roughness_texture,
                occlusion_strength: cpu_material.occlusion_strength,
                occlusion_texture,
                normal_scale: cpu_material.normal_scale,
                normal_texture,
            },
        )
    }

    /// Bind the material's scalars and textures into a compiled program;
    /// a missing slot is a binding error.
    pub fn bind(&self, program: &Program) -> (r: Result<(), Error>)
        ensures
            r is Ok <==> self.bind_spec(program.fragment_source@),
            r matches Err(e) ==> e.is_binding(),
    {
        match program.use_uniform_float("metallic", &self.metallic) {
            Ok(u) => u,
            Err(e) => {
                return Err(e);
            },
        };
        match program.use_uniform_float("roughness", &self.roughness) {
            Ok(u) => u,
            Err(e) => {
                return Err(e);
            },
        };
        match program.use_uniform_vec4("albedo", &self.albedo) {
            Ok(u) => u,
            Err(e) => {
                return Err(e);
            },
        };
        if let Some(texture) = &self.albedo_texture {
            match program.use_texture("albedoTexture", texture) {
                Ok(u) => u,
                Err(e) => {
                    return Err(e);
                },
            };
        }
        if let Some(texture) = &self.metallic_roughness_texture {
            match program.use_texture("metallicRoughnessTexture", texture) {
                Ok(u) => u,
                Err(e) => {
                    return Err(e);
                },
            };
        }
        if let Some(texture) = &self.occlusion_texture {
            match program.use_uniform_float("occlusionStrength", &self.occlusion_strength) {
                Ok(u) => u,
                Err(e) => {
                    return Err(e);
                },
            };
            match program.use_texture("occlusionTexture", texture) {
                Ok(u) => u,
                Err(e) => {
                    return Err(e);
                },
            };
        }
        if let Some(texture) = &self.normal_texture {
            match program.use_uniform_float("normalScale", &self.normal_scale) {
                Ok(u) => u,
                Err(e) => {
                    return Err(e);
                },
            };
            match program.use_texture("normalTexture", texture) {
                Ok(u) => u,
                Err(e) => {
                    return Err(e);
                },
            };
        }
        Ok(())
    }
}

impl Default for Material {
    /// The upload of the default CPU material: plain white, fully rough.
    fn default() -> (r: Material)
        ensures
            r.name@ == "default"@,
            r.albedo == (Vec4 { x: 1000, y: 1000, z: 1000, w: 1000 }),
            r.albedo_texture is None,
            r.metallic == 0,
            r.roughness == 1000,
            r.metallic_roughness_texture is None,
            r.occlusion_strength == 1000,
            r.occlusion_texture is None,
            r.normal_scale == 1000,
            r.normal_texture is None,
    {
        Material {
            name: String::from_str("default"),
            albedo: Vec4 { x: 1000, y: 1000, z: 1000, w: 1000 },
            albedo_texture: None,
            metallic: 0,
            roughness: 1000,
            metallic_roughness_texture: None,
            occlusion_strength: 1000,
            occlusion_texture: None,
            normal_scale: 1000,
            normal_texture: None,
        }
    }
}

} // verus!
