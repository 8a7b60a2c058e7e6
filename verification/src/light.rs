//! The light subsystem: ambient, directional, spot and point lights, and
//! the index-stable aggregate that synthesizes one fragment-shader
//! lighting function from all of them.
//!
//! Index assignment is stable within a render call: the ambient light, if
//! present, is always index 0; then come the directional lights, the spot
//! lights and the point lights, each group in its own order.  The indices
//! number the per-light shader symbols, so identical aggregates always
//! produce byte-identical shader source.

use vstd::prelude::*;
use vstd::string::*;

use crate::camera::Camera;
use crate::context::fs_defines;
use crate::context::Program;
use crate::material::Color;
use crate::math::mat4_bounded;
use crate::math::mat4_mul_spec;
use crate::math::Mat4;
use crate::math::Vec3;
use crate::strings::decimal_seq;
use crate::strings::decimal_string;
use crate::texture::DepthTargetTexture2D;
use crate::Error;

verus! {

/// A shadow map owned by a directional or spot light: the light's own
/// view of the scene and the depth texture rendered from it.
#[derive(PartialEq, Eq, Structural, Clone, Copy, Debug)]
pub struct ShadowMap {
    pub camera: Camera,
    pub texture: DepthTargetTexture2D,
}

/// The shadow camera's matrices are small enough for exact shadow-matrix
/// arithmetic.
pub open spec fn shadow_map_wf(s: ShadowMap) -> bool {
    mat4_bounded(s.camera.projection, 500_000) && mat4_bounded(s.camera.view, 500_000)
}

/// The bias matrix of a shadow transform: it maps clip space into texture
/// space (halving and recentering each axis).
pub open spec fn bias_matrix() -> Mat4 {
    Mat4 {
        m00: 500, m01: 0, m02: 0, m03: 500,
        m10: 0, m11: 500, m12: 0, m13: 500,
        m20: 0, m21: 0, m22: 500, m23: 500,
        m30: 0, m31: 0, m32: 0, m33: 1000,
    }
}

/// The shadow transform a light binds: bias, projection and view of the
/// light's own camera, composed in that order.
pub open spec fn shadow_matrix_spec(camera: Camera) -> Mat4 {
    mat4_mul_spec(mat4_mul_spec(bias_matrix(), camera.projection), camera.view)
}

/// The shadow matrix, derived from the light's view frustum: bias times
/// the camera's projection times its view.
pub fn shadow_matrix(camera: &Camera) -> (r: Mat4)
    requires
        mat4_bounded(camera.projection, 500_000),
        mat4_bounded(camera.view, 500_000),
    ensures
        r == shadow_matrix_spec(*camera),
{
    let bias = Mat4 {
        m00: 500, m01: 0, m02: 0, m03: 500,
        m10: 0, m11: 500, m12: 0, m13: 500,
        m20: 0, m21: 0, m22: 500, m23: 500,
        m30: 0, m31: 0, m32: 0, m33: 1000,
    };
    let bp = bias.mul(&camera.projection);
    bp.mul(&camera.view)
}

/// The up vector for a light-space view basis, as an unnormalized cross
/// product.  When the light direction is nearly parallel to the world X
/// axis (the magnitude of the unit-scaled x component exceeds 0.9), the
/// up vector is derived from the world Y axis instead, so the basis never
/// degenerates.
pub fn compute_up_direction(direction: Vec3) -> (r: Vec3)
    requires
        crate::math::vec3_bounded(direction, 1_000_000),
    ensures
        direction.x > 900 || direction.x < -900 ==> r == (Vec3 {
            x: direction.z,
            y: 0,
            z: -direction.x as int as i64,
        }),
        -900 <= direction.x <= 900 ==> r == (Vec3 {
            x: 0,
            y: -direction.z as int as i64,
            z: direction.y,
        }),
{
    let nearly_parallel = direction.x > 900 || direction.x < -900;
    if nearly_parallel {
        let up = Vec3 { x: 0, y: 1, z: 0 };
        up.cross(&direction)
    } else {
        let right = Vec3 { x: 1, y: 0, z: 0 };
        right.cross(&direction)
    }
}

/// A light: it contributes one numbered lighting function to the fragment
/// shader and binds its uniforms under the same numbered names.
pub trait Light {
    /// The shader source this light emits under index `i`; a pure
    /// function of the light's value and the index.
    spec fn source_spec(&self, i: nat) -> Seq<char>;

    /// All uniform names the light binds under index `i` occur in the
    /// fragment source `fs`.
    spec fn uniforms_spec(&self, fs: Seq<char>, i: nat) -> bool;

    /// The light's internal invariant (bounded shadow-camera matrices).
    spec fn light_wf(&self) -> bool;

    /// Emit this light's numbered lighting-contribution function.
    fn shader_source(&self, i: u32) -> (r: String)
        ensures
            r@ == self.source_spec(i as nat),
    ;

    /// Bind this light's uniforms under its numbered symbol names; a
    /// missing slot is a binding error.
    fn use_uniforms(&self, program: &Program, camera: &Camera, i: u32) -> (r: Result<(), Error>)
        requires
            self.light_wf(),
        ensures
            r is Ok <==> self.uniforms_spec(program.fragment_source@, i as nat),
            r matches Err(e) ==> e.is_binding(),
    ;
}

/// A light shining equally from every direction.
#[derive(PartialEq, Eq, Structural, Clone, Copy, Debug)]
pub struct AmbientLight {
    pub intensity: i64,
    pub color: Color,
}

impl AmbientLight {
    /// Construct an ambient light.
    pub fn new(intensity: i64, color: Color) -> (r: AmbientLight)
        ensures
            r == (AmbientLight { intensity, color }),
    {
        AmbientLight { intensity, color }
    }
}

impl Light for AmbientLight {
    open spec fn source_spec(&self, i: nat) -> Seq<char> {
        "\nuniform vec3 ambientColor"@ + decimal_seq(i)
            + ";\nvec3 calculate_lighting"@ + decimal_seq(i)
            + "(vec3 surface_color, vec3 position, vec3 normal, float metallic, float roughness, float occlusion)\n{\n    return occlusion * surface_color * ambientColor"@
            + decimal_seq(i) + ";\n}\n"@
    }

    open spec fn uniforms_spec(&self, fs: Seq<char>, i: nat) -> bool {
        fs_defines(fs, "ambientColor"@ + decimal_seq(i))
    }

    open spec fn light_wf(&self) -> bool {
        true
    }

    fn shader_source(&self, i: u32) -> (r: String) {
        let index = decimal_string(i as u64);
        let mut s = String::from_str("\nuniform vec3 ambientColor");
        s.append(index.as_str());
        s.append(";\nvec3 calculate_lighting");
        s.append(index.as_str());
        s.append(
            "(vec3 surface_color, vec3 position, vec3 normal, float metallic, float roughness, float occlusion)\n{\n    return occlusion * surface_color * ambientColor",
        );
        s.append(index.as_str());
        s.append(";\n}\n");
        s
    }

    fn use_uniforms(&self, program: &Program, _camera: &Camera, i: u32) -> (r: Result<(), Error>) {
        let mut name = String::from_str("ambientColor");
        let index = decimal_string(i as u64);
        name.append(index.as_str());
        program.use_uniform(name.as_str())
    }
}

/// A light shining from one direction everywhere, optionally casting
/// shadows through its own shadow map.
#[derive(PartialEq, Eq, Structural, Clone, Copy, Debug)]
pub struct DirectionalLight {
    pub intensity: i64,
    pub color: Color,
    pub direction: Vec3,
    pub shadow: Option<ShadowMap>,
}

impl DirectionalLight {
    /// Construct a directional light without a shadow map.
    pub fn new(intensity: i64, color: Color, direction: Vec3) -> (r: DirectionalLight)
        ensures
            r == (DirectionalLight { intensity, color, direction, shadow: None }),
    {
        DirectionalLight { intensity, color, direction, shadow: None }
    }

    /// Attach a shadow map rendered from the light's own camera.
    pub fn set_shadow_map(&mut self, shadow_map: ShadowMap)
        requires
            shadow_map_wf(shadow_map),
        ensures
            *final(self) == (DirectionalLight { shadow: Some(shadow_map), ..*old(self) }),
    {
        self.shadow = Some(shadow_map);
    }
}

impl Light for DirectionalLight {
    open spec fn source_spec(&self, i: nat) -> Seq<char> {
        "\nuniform vec3 directionalColor"@ + decimal_seq(i)
            + ";\nuniform vec3 directionalDirection"@ + decimal_seq(i) + ";\n"@ + (
        if self.shadow is Some {
            "uniform sampler2D shadowMap"@ + decimal_seq(i) + ";\nuniform mat4 shadowMVP"@
                + decimal_seq(i) + ";\n"@
        } else {
            Seq::<char>::empty()
        }) + "vec3 calculate_lighting"@ + decimal_seq(i)
            + "(vec3 surface_color, vec3 position, vec3 normal, float metallic, float roughness, float occlusion)\n{\n    return calculate_light(directionalColor"@
            + decimal_seq(i) + ", -directionalDirection"@ + decimal_seq(i)
            + ", surface_color, position, normal, metallic, roughness);\n}\n"@
    }

    open spec fn uniforms_spec(&self, fs: Seq<char>, i: nat) -> bool {
        &&& fs_defines(fs, "directionalColor"@ + decimal_seq(i))
        &&& fs_defines(fs, "directionalDirection"@ + decimal_seq(i))
        &&& self.shadow is Some ==> fs_defines(fs, "shadowMVP"@ + decimal_seq(i)) && fs_defines(
            fs,
            "shadowMap"@ + decimal_seq(i),
        )
    }

    open spec fn light_wf(&self) -> bool {
        self.shadow matches Some(s) ==> shadow_map_wf(s)
    }

    fn shader_source(&self, i: u32) -> (r: String) {
        let index = decimal_string(i as u64);
        let mut s = String::from_str("\nuniform vec3 directionalColor");
        s.append(index.as_str());
        s.append(";\nuniform vec3 directionalDirection");
        s.append(index.as_str());
        s.append(";\n");
        if self.shadow.is_some() {
            s.append("uniform sampler2D shadowMap");
            s.append(index.as_str());
            s.append(";\nuniform mat4 shadowMVP");
            s.append(index.as_str());
            s.append(";\n");
        }
        s.append("vec3 calculate_lighting");
        s.append(index.as_str());
        s.append(
            "(vec3 surface_color, vec3 position, vec3 normal, float metallic, float roughness, float occlusion)\n{\n    return calculate_light(directionalColor",
        );
        s.append(index.as_str());
        s.append(", -directionalDirection");
        s.append(index.as_str());
        s.append(", surface_color, position, normal, metallic, roughness);\n}\n");
        s
    }

    fn use_uniforms(&self, program: &Program, _camera: &Camera, i: u32) -> (r: Result<(), Error>) {
        let index = decimal_string(i as u64);
        let mut color_name = String::from_str("directionalColor");
        color_name.append(index.as_str());
        match program.use_uniform(color_name.as_str()) {
            Ok(u) => u,
            Err(e) => {
                return Err(e);
            },
        };
        let mut direction_name = String::from_str("directionalDirection");
        direction_name.append(index.as_str());
        match program.use_uniform(direction_name.as_str()) {
            Ok(u) => u,
            Err(e) => {
                return Err(e);
            },
        };
        if let Some(shadow_map) = &self.shadow {
            let mvp = shadow_matrix(&shadow_map.camera);
            let mut mvp_name = String::from_str("shadowMVP");
            mvp_name.append(index.as_str());
            match program.use_uniform_mat4(mvp_name.as_str(), &mvp) {
                Ok(u) => u,
                Err(e) => {
                    return Err(e);
                },
            };
            let mut map_name = String::from_str("shadowMap");
            map_name.append(index.as_str());
            match program.use_depth_texture(map_name.as_str(), &shadow_map.texture) {
                Ok(u) => u,
                Err(e) => {
                    return Err(e);
                },
            };
        }
        Ok(())
    }
}

/// A light shining from a position within a cone around a direction,
/// optionally casting shadows.
#[derive(PartialEq, Eq, Structural, Clone, Copy, Debug)]
pub struct SpotLight {
    pub intensity: i64,
    pub color: Color,
    pub position: Vec3,
    pub direction: Vec3,
    pub cutoff: i64,
    pub shadow: Option<ShadowMap>,
}

impl SpotLight {
    /// Construct a spot light without a shadow map.
    pub fn new(intensity: i64, color: Color, position: Vec3, direction: Vec3, cutoff: i64) -> (r:
        SpotLight)
        ensures
            r == (SpotLight { intensity, color, position, direction, cutoff, shadow: None }),
    {
        SpotLight { intensity, color, position, direction, cutoff, shadow: None }
    }

    /// Attach a shadow map rendered from the light's own camera.
    pub fn set_shadow_map(&mut self, shadow_map: ShadowMap)
        requires
            shadow_map_wf(shadow_map),
        ensures
            *final(self) == (SpotLight { shadow: Some(shadow_map), ..*old(self) }),
    {
        self.shadow = Some(shadow_map);
    }
}

impl Light for SpotLight {
    open spec fn source_spec(&self, i: nat) -> Seq<char> {
        "\nuniform vec3 spotColor"@ + decimal_seq(i) + ";\nuniform vec3 spotPosition"@
            + decimal_seq(i) + ";\nuniform vec3 spotDirection"@ + decimal_seq(i)
            + ";\nuniform float spotCutoff"@ + decimal_seq(i) + ";\n"@ + (
        if self.shadow is Some {
            "uniform sampler2D shadowMap"@ + decimal_seq(i) + ";\nuniform mat4 shadowMVP"@
                + decimal_seq(i) + ";\n"@
        } else {
            Seq::<char>::empty()
        }) + "vec3 calculate_lighting"@ + decimal_seq(i)
            + "(vec3 surface_color, vec3 position, vec3 normal, float metallic, float roughness, float occlusion)\n{\n    return calculate_spot(spotColor"@
            + decimal_seq(i) + ", spotPosition"@ + decimal_seq(i) + ", spotDirection"@
            + decimal_seq(i) + ", spotCutoff"@ + decimal_seq(i)
            + ", surface_color, position, normal, metallic, roughness);\n}\n"@
    }

    open spec fn uniforms_spec(&self, fs: Seq<char>, i: nat) -> bool {
        &&& fs_defines(fs, "spotColor"@ + decimal_seq(i))
        &&& fs_defines(fs, "spotPosition"@ + decimal_seq(i))
        &&& fs_defines(fs, "spotDirection"@ + decimal_seq(i))
        &&& fs_defines(fs, "spotCutoff"@ + decimal_seq(i))
        &&& self.shadow is Some ==> fs_defines(fs, "shadowMVP"@ + decimal_seq(i)) && fs_defines(
            fs,
            "shadowMap"@ + decimal_seq(i),
        )
    }

    open spec fn light_wf(&self) -> bool {
        self.shadow matches Some(s) ==> shadow_map_wf(s)
    }

    fn shader_source(&self, i: u32) -> (r: String) {
        let index = decimal_string(i as u64);
        let mut s = String::from_str("\nuniform vec3 spotColor");
        s.append(index.as_str());
        s.append(";\nuniform vec3 spotPosition");
        s.append(index.as_str());
        s.append(";\nuniform vec3 spotDirection");
        s.append(index.as_str());
        s.append(";\nuniform float spotCutoff");
        s.append(index.as_str());
        s.append(";\n");
        if self.shadow.is_some() {
            s.append("uniform sampler2D shadowMap");
            s.append(index.as_str());
            s.append(";\nuniform mat4 shadowMVP");
            s.append(index.as_str());
            s.append(";\n");
        }
        s.append("vec3 calculate_lighting");
        s.append(index.as_str());
        s.append(
            "(vec3 surface_color, vec3 position, vec3 normal, float metallic, float roughness, float occlusion)\n{\n    return calculate_spot(spotColor",
        );
        s.append(index.as_str());
        s.append(", spotPosition");
        s.append(index.as_str());
        s.append(", spotDirection");
        s.append(index.as_str());
        s.append(", spotCutoff");
        s.append(index.as_str());
        s.append(", surface_color, position, normal, metallic, roughness);\n}\n");
        s
    }

    fn use_uniforms(&self, program: &Program, _camera: &Camera, i: u32) -> (r: Result<(), Error>) {
        let index = decimal_string(i as u64);
        let mut color_name = String::from_str("spotColor");
        color_name.append(index.as_str());
        match program.use_uniform(color_name.as_str()) {
            Ok(u) => u,
            Err(e) => {
                return Err(e);
            },
        };
        let mut position_name = String::from_str("spotPosition");
        position_name.append(index.as_str());
        match program.use_uniform(position_name.as_str()) {
            Ok(u) => u,
            Err(e) => {
                return Err(e);
            },
        };
        let mut direction_name = String::from_str("spotDirection");
        direction_name.append(index.as_str());
        match program.use_uniform(direction_name.as_str()) {
            Ok(u) => u,
            Err(e) => {
                return Err(e);
            },
        };
        let mut cutoff_name = String::from_str("spotCutoff");
        cutoff_name.append(index.as_str());
        match program.use_uniform(cutoff_name.as_str()) {
            Ok(u) => u,
            Err(e) => {
                return Err(e);
            },
        };
        if let Some(shadow_map) = &self.shadow {
            let mvp = shadow_matrix(&shadow_map.camera);
            let mut mvp_name = String::from_str("shadowMVP");
            mvp_name.append(index.as_str());
            match program.use_uniform_mat4(mvp_name.as_str(), &mvp) {
                Ok(u) => u,
                Err(e) => {
                    return Err(e);
                },
            };
            let mut map_name = String::from_str("shadowMap");
            map_name.append(index.as_str());
            match program.use_depth_texture(map_name.as_str(), &shadow_map.texture) {
                Ok(u) => u,
                Err(e) => {
                    return Err(e);
                },
            };
        }
        Ok(())
    }
}

/// A light shining from a position in every direction, attenuated with
/// distance.
#[derive(PartialEq, Eq, Structural, Clone, Copy, Debug)]
pub struct PointLight {
    pub intensity: i64,
    pub color: Color,
    pub position: Vec3,
    pub attenuation_constant: i64,
    pub attenuation_linear: i64,
    pub attenuation_exponential: i64,
}

impl PointLight {
    /// Construct a point light.
    pub fn new(
        intensity: i64,
        color: Color,
        position: Vec3,
        attenuation_constant: i64,
        attenuation_linear: i64,
        attenuation_exponential: i64,
    ) -> (r: PointLight)
        ensures
            r == (PointLight {
                intensity,
                color,
                position,
                attenuation_constant,
                attenuation_linear,
                attenuation_exponential,
            }),
    {
        PointLight {
            intensity,
            color,
            position,
            attenuation_constant,
            attenuation_linear,
            attenuation_exponential,
        }
    }
}

impl Light for PointLight {
    open spec fn source_spec(&self, i: nat) -> Seq<char> {
        "\nuniform vec3 pointColor"@ + decimal_seq(i) + ";\nuniform vec3 pointPosition"@
            + decimal_seq(i) + ";\nuniform vec3 pointAttenuation"@ + decimal_seq(i)
            + ";\nvec3 calculate_lighting"@ + decimal_seq(i)
            + "(vec3 surface_color, vec3 position, vec3 normal, float metallic, float roughness, float occlusion)\n{\n    return calculate_point(pointColor"@
            + decimal_seq(i) + ", pointPosition"@ + decimal_seq(i) + ", pointAttenuation"@
            + decimal_seq(i) + ", surface_color, position, normal, metallic, roughness);\n}\n"@
    }

    open spec fn uniforms_spec(&self, fs: Seq<char>, i: nat) -> bool {
        &&& fs_defines(fs, "pointColor"@ + decimal_seq(i))
        &&& fs_defines(fs, "pointPosition"@ + decimal_seq(i))
        &&& fs_defines(fs, "pointAttenuation"@ + decimal_seq(i))
    }

    open spec fn light_wf(&self) -> bool {
        true
    }

    fn shader_source(&self, i: u32) -> (r: String) {
        let index = decimal_string(i as u64);
        let mut s = String::from_str("\nuniform vec3 pointColor");
        s.append(index.as_str());
        s.append(";\nuniform vec3 pointPosition");
        s.append(index.as_str());
        s.append(";\nuniform vec3 pointAttenuation");
        s.append(index.as_str());
        s.append(";\nvec3 calculate_lighting");
        s.append(index.as_str());
        s.append(
            "(vec3 surface_color, vec3 position, vec3 normal, float metallic, float roughness, float occlusion)\n{\n    return calculate_point(pointColor",
        );
        s.append(index.as_str());
        s.append(", pointPosition");
        s.append(index.as_str());
        s.append(", pointAttenuation");
        s.append(index.as_str());
        s.append(", surface_color, position, normal, metallic, roughness);\n}\n");
        s
    }

    fn use_uniforms(&self, program: &Program, _camera: &Camera, i: u32) -> (r: Result<(), Error>) {
        let index = decimal_string(i as u64);
        let mut color_name = String::from_str("pointColor");
        color_name.append(index.as_str());
        match program.use_uniform(color_name.as_str()) {
            Ok(u) => u,
            Err(e) => {
                return Err(e);
            },
        };
        let mut position_name = String::from_str("pointPosition");
        position_name.append(index.as_str());
        match program.use_uniform(position_name.as_str()) {
            Ok(u) => u,
            Err(e) => {
                return Err(e);
            },
        };
        let mut attenuation_name = String::from_str("pointAttenuation");
        attenuation_name.append(index.as_str());
        match program.use_uniform(attenuation_name.as_str()) {
            Ok(u) => u,
            Err(e) => {
                return Err(e);
            },
        };
        Ok(())
    }
}

/// One light of any of the four kinds, as the aggregate and its iterator
/// hand them out.
#[derive(PartialEq, Eq, Structural, Clone, Copy, Debug)]
pub enum AnyLight {
    Ambient(AmbientLight),
    Directional(DirectionalLight),
    Spot(SpotLight),
    Point(PointLight),
}

impl Light for AnyLight {
    open spec fn source_spec(&self, i: nat) -> Seq<char> {
        match self {
            AnyLight::Ambient(a) => a.source_spec(i),
            AnyLight::Directional(d) => d.source_spec(i),
            AnyLight::Spot(s) => s.source_spec(i),
            AnyLight::Point(p) => p.source_spec(i),
        }
    }

    open spec fn uniforms_spec(&self, fs: Seq<char>, i: nat) -> bool {
        match self {
            AnyLight::Ambient(a) => a.uniforms_spec(fs, i),
            AnyLight::Directional(d) => d.uniforms_spec(fs, i),
            AnyLight::Spot(s) => s.uniforms_spec(fs, i),
            AnyLight::Point(p) => p.uniforms_spec(fs, i),
        }
    }

    open spec fn light_wf(&self) -> bool {
        match self {
            AnyLight::Ambient(a) => a.light_wf(),
            AnyLight::Directional(d) => d.light_wf(),
            AnyLight::Spot(s) => s.light_wf(),
            AnyLight::Point(p) => p.light_wf(),
        }
    }

    fn shader_source(&self, i: u32) -> (r: String) {
        match self {
            AnyLight::Ambient(a) => a.shader_source(i),
            AnyLight::Directional(d) => d.shader_source(i),
            AnyLight::Spot(s) => s.shader_source(i),
            AnyLight::Point(p) => p.shader_source(i),
        }
    }

    fn use_uniforms(&self, program: &Program, camera: &Camera, i: u32) -> (r: Result<(), Error>) {
        match self {
            AnyLight::Ambient(a) => a.use_uniforms(program, camera, i),
            AnyLight::Directional(d) => d.use_uniforms(program, camera, i),
            AnyLight::Spot(s) => s.use_uniforms(program, camera, i),
            AnyLight::Point(p) => p.use_uniforms(program, camera, i),
        }
    }
}

/// The light aggregate: one optional ambient light plus ordered sequences
/// of directional, spot and point lights.
pub struct Lights {
    pub ambient: Option<AmbientLight>,
    pub directional: Vec<DirectionalLight>,
    pub spot: Vec<SpotLight>,
    pub point: Vec<PointLight>,
}

/// The aggregate's lights in their stable index order: ambient first if
/// present, then directional, spot and point, each group in its own
/// insertion order.
pub open spec fn lights_seq(l: Lights) -> Seq<AnyLight> {
    (match l.ambient {
        Some(a) => seq![AnyLight::Ambient(a)],
        None => Seq::<AnyLight>::empty(),
    }) + l.directional@.map_values(|d: DirectionalLight| AnyLight::Directional(d))
        + l.spot@.map_values(|s: SpotLight| AnyLight::Spot(s)) + l.point@.map_values(
        |p: PointLight| AnyLight::Point(p),
    )
}

/// Every light of the aggregate satisfies its internal invariant.
pub open spec fn lights_wf(l: Lights) -> bool {
    forall|i: int| 0 <= i < lights_seq(l).len() ==> (#[trigger] lights_seq(l)[i]).light_wf()
}

/// Every light of `ls` finds its numbered uniforms in the fragment
/// source `fs`.
pub open spec fn lights_uniforms_of(ls: Seq<AnyLight>, fs: Seq<char>) -> bool {
    forall|i: int| 0 <= i < ls.len() ==> (#[trigger] ls[i]).uniforms_spec(fs, i as nat)
}

/// Every light of the aggregate finds its numbered uniforms in the
/// fragment source `fs`.
pub open spec fn lights_uniforms_spec(l: Lights, fs: Seq<char>) -> bool {
    lights_uniforms_of(lights_seq(l), fs)
}

/// The per-light source blocks of `ls`, numbered from `start` on, in
/// order.
pub open spec fn cat_sources(ls: Seq<AnyLight>, start: nat) -> Seq<char>
    decreases ls.len(),
{
    if ls.len() == 0 {
        Seq::<char>::empty()
    } else {
        ls[0].source_spec(start) + cat_sources(ls.skip(1), (start + 1) as nat)
    }
}

/// Adding a light at the end appends its block, numbered after all
/// earlier ones.
pub proof fn lemma_cat_sources_snoc(ls: Seq<AnyLight>, x: AnyLight, start: nat)
    ensures
        cat_sources(ls.push(x), start) == cat_sources(ls, start) + x.source_spec(
            (start + ls.len()) as nat,
        ),
    decreases ls.len(),
{
    if ls.len() == 0 {
        assert(ls.push(x)[0] == x);
        assert(ls.push(x).skip(1) =~= Seq::<AnyLight>::empty());
        assert(cat_sources(Seq::<AnyLight>::empty(), (start + 1) as nat) == Seq::<char>::empty());
        assert(cat_sources(ls, start) == Seq::<char>::empty());
        assert(cat_sources(ls.push(x), start) =~= x.source_spec(start) + Seq::<char>::empty());
        assert(x.source_spec(start) + Seq::<char>::empty() =~= x.source_spec(start));
        assert(cat_sources(ls.push(x), start) =~= cat_sources(ls, start) + x.source_spec(
            (start + ls.len()) as nat,
        ));
    } else {
        assert(ls.push(x)[0] == ls[0]);
        assert(ls.push(x).skip(1) =~= ls.skip(1).push(x));
        lemma_cat_sources_snoc(ls.skip(1), x, (start + 1) as nat);
        assert(cat_sources(ls.push(x), start) =~= cat_sources(ls, start) + x.source_spec(
            (start + ls.len()) as nat,
        ));
    }
}

/// The summation line of the synthesized `calculate_lighting` for the
/// light at index `i`.
pub open spec fn contribution_spec(i: nat) -> Seq<char> {
    "    color += calculate_lighting"@ + decimal_seq(i)
        + "(surface_color, position, normal, metallic, roughness, occlusion);\n"@
}

/// The summation lines for the first `n` lights, in index order.
pub open spec fn contribs_cat(n: nat) -> Seq<char>
    decreases n,
{
    if n == 0 {
        Seq::<char>::empty()
    } else {
        contribs_cat((n - 1) as nat) + contribution_spec((n - 1) as nat)
    }
}

/// The shared declarations every fragment shader starts with.
pub open spec fn shared_src() -> Seq<char> {
    "in vec3 pos;\nin vec3 nor;\nuniform vec3 eyePosition;\n"@
}

/// The lighting helpers shared by all per-light blocks.
pub open spec fn light_shared_src() -> Seq<char> {
    "vec3 calculate_light(vec3 color, vec3 direction, vec3 surface_color, vec3 position, vec3 normal, float metallic, float roughness);\nvec3 calculate_spot(vec3 color, vec3 position, vec3 direction, float cutoff, vec3 surface_color, vec3 pos, vec3 normal, float metallic, float roughness);\nvec3 calculate_point(vec3 color, vec3 position, vec3 attenuation, vec3 surface_color, vec3 pos, vec3 normal, float metallic, float roughness);\n"@
}

/// The head of the synthesized `calculate_lighting`: it starts the sum at
/// zero, so an empty aggregate returns zero contribution.
pub open spec fn lighting_header_src() -> Seq<char> {
    "\nvec3 calculate_lighting(vec3 surface_color, vec3 position, vec3 normal, float metallic, float roughness, float occlusion)\n{\n    vec3 color = vec3(0.0, 0.0, 0.0);\n"@
}

/// The tail of the synthesized `calculate_lighting`.
pub open spec fn lighting_footer_src() -> Seq<char> {
    "    return color;\n}\n"@
}

/// The full lighting block assembled from the ordered lights `ls`:
/// shared declarations, one numbered block per light, and the
/// synthesized `calculate_lighting` summing all contributions in the
/// same order.
pub open spec fn lights_source_of(ls: Seq<AnyLight>) -> Seq<char> {
    shared_src() + light_shared_src() + cat_sources(ls, 0) + lighting_header_src() + contribs_cat(
        ls.len(),
    ) + lighting_footer_src()
}

/// The full lighting block of an aggregate, in its stable index order.
pub open spec fn lights_source_spec(l: Lights) -> Seq<char> {
    lights_source_of(lights_seq(l))
}

/// The lighting block is never empty: whatever lights it holds, the
/// synthesized source ends with a complete function body, so it always
/// compiles.
pub proof fn lemma_lights_source_of_nonempty(ls: Seq<AnyLight>)
    ensures
        lights_source_of(ls).len() > 0,
{
    reveal_strlit("    return color;\n}\n");
    assert(lighting_footer_src().len() > 0);
}

/// The aggregate's lighting block is never empty.
pub proof fn lemma_lights_source_nonempty(l: Lights)
    ensures
        lights_source_spec(l).len() > 0,
{
    lemma_lights_source_of_nonempty(lights_seq(l));
}

/// Light index assignment is stable and ordered: the ambient light, if
/// present, is index 0; the directional lights follow, then the spot
/// lights, then the point lights, each group keeping its own order.
pub proof fn lemma_light_index_order(l: Lights)
    ensures
        lights_seq(l).len() == (if l.ambient is Some {
            1int
        } else {
            0int
        }) + l.directional@.len() + l.spot@.len() + l.point@.len(),
        l.ambient matches Some(a) ==> lights_seq(l)[0] == AnyLight::Ambient(a),
        forall|j: int|
            0 <= j < l.directional@.len() ==> lights_seq(l)[(if l.ambient is Some {
                1int
            } else {
                0int
            }) + j] == AnyLight::Directional(#[trigger] l.directional@[j]),
        forall|j: int|
            0 <= j < l.spot@.len() ==> lights_seq(l)[(if l.ambient is Some {
                1int
            } else {
                0int
            }) + l.directional@.len() + j] == AnyLight::Spot(#[trigger] l.spot@[j]),
        forall|j: int|
            0 <= j < l.point@.len() ==> lights_seq(l)[(if l.ambient is Some {
                1int
            } else {
                0int
            }) + l.directional@.len() + l.spot@.len() + j] == AnyLight::Point(
                #[trigger] l.point@[j],
            ),
{
}

/// For an empty aggregate the synthesized source holds no per-light block
/// and no contribution line: `calculate_lighting` returns the zero it
/// starts with, and the source still compiles (it is non-empty).
pub proof fn lemma_empty_lights_source(l: Lights)
    requires
        l.ambient is None,
        l.directional@.len() == 0,
        l.spot@.len() == 0,
        l.point@.len() == 0,
    ensures
        lights_source_spec(l) == shared_src() + light_shared_src() + lighting_header_src()
            + lighting_footer_src(),
        lights_source_spec(l).len() > 0,
{
    assert(lights_seq(l) =~= Seq::<AnyLight>::empty());
    assert(cat_sources(lights_seq(l), 0) == Seq::<char>::empty());
    assert(contribs_cat(lights_seq(l).len()) == Seq::<char>::empty());
    assert(shared_src() + light_shared_src() + cat_sources(lights_seq(l), 0)
        + lighting_header_src() + contribs_cat(lights_seq(l).len()) + lighting_footer_src()
        =~= shared_src() + light_shared_src() + lighting_header_src() + lighting_footer_src());
    lemma_lights_source_nonempty(l);
}

/// The contribution line for the light at index `i`.
fn contribution_line(i: u32) -> (r: String)
    ensures
        r@ == contribution_spec(i as nat),
{
    let mut s = String::from_str("    color += calculate_lighting");
    let index = decimal_string(i as u64);
    s.append(index.as_str());
    s.append("(surface_color, position, normal, metallic, roughness, occlusion);\n");
    s
}

/// Assemble the full lighting block for an aggregate: the shared
/// declarations, every light's numbered block in stable index order, and
/// the synthesized `calculate_lighting` summing all contributions.
pub fn lights_fragment_shader_source(lights: &Lights) -> (r: String)
    requires
        lights_seq(*lights).len() <= u32::MAX,
    ensures
        r@ == lights_source_spec(*lights),
{
    let ghost all = lights_seq(*lights);
    let mut source = String::from_str(
        "in vec3 pos;\nin vec3 nor;\nuniform vec3 eyePosition;\n",
    );
    source.append(
        "vec3 calculate_light(vec3 color, vec3 direction, vec3 surface_color, vec3 position, vec3 normal, float metallic, float roughness);\nvec3 calculate_spot(vec3 color, vec3 position, vec3 direction, float cutoff, vec3 surface_color, vec3 pos, vec3 normal, float metallic, float roughness);\nvec3 calculate_point(vec3 color, vec3 position, vec3 attenuation, vec3 surface_color, vec3 pos, vec3 normal, float metallic, float roughness);\n",
    );
    let mut contributions = String::new();
    let mut i: u32 = 0;
    proof {
        assert(all.take(0) =~= Seq::<AnyLight>::empty());
        assert(source@ =~= shared_src() + light_shared_src() + cat_sources(all.take(0), 0));
        lemma_light_index_order(*lights);
    }
    if let Some(ambient) = &lights.ambient {
        let block = ambient.shader_source(i);
        source.append(block.as_str());
        let line = contribution_line(i);
        contributions.append(line.as_str());
        proof {
            assert(all[0] == AnyLight::Ambient(*ambient));
            assert(all.take(1) =~= all.take(0).push(all[0]));
            lemma_cat_sources_snoc(all.take(0), all[0], 0);
            assert(source@ =~= shared_src() + light_shared_src() + cat_sources(all.take(1), 0));
            assert(contribs_cat(1) == contribs_cat(0) + contribution_spec(0));
            assert(contributions@ =~= contribs_cat(1));
        }
        i = i + 1;
    }
    proof {
        assert(contribs_cat(0) == Seq::<char>::empty());
        assert(contributions@ =~= contribs_cat(i as nat));
    }
    let ghost amb: int = if lights.ambient is Some { 1int } else { 0int };
    let mut j: usize = 0;
    while j < lights.directional.len()
        invariant
            lights_seq(*lights) == all,
            all.len() <= u32::MAX,
            amb == if lights.ambient is Some { 1int } else { 0int },
            all.len() == amb + lights.directional@.len() + lights.spot@.len()
                + lights.point@.len(),
            forall|k: int|
                0 <= k < lights.directional@.len() ==> all[amb + k] == AnyLight::Directional(
                    #[trigger] lights.directional@[k],
                ),
            0 <= j <= lights.directional@.len(),
            i as int == amb + j,
            source@ == shared_src() + light_shared_src() + cat_sources(all.take(i as int), 0),
            contributions@ == contribs_cat(i as nat),
        decreases lights.directional@.len() - j,
    {
        let light = &lights.directional[j];
        let block = light.shader_source(i);
        source.append(block.as_str());
        let line = contribution_line(i);
        contributions.append(line.as_str());
        proof {
            assert(all[i as int] == AnyLight::Directional(lights.directional@[j as int]));
            assert(all.take(i as int + 1) =~= all.take(i as int).push(all[i as int]));
            lemma_cat_sources_snoc(all.take(i as int), all[i as int], 0);
            assert(source@ =~= shared_src() + light_shared_src() + cat_sources(
                all.take(i as int + 1),
                0,
            ));
            assert(contribs_cat((i + 1) as nat) == contribs_cat(i as nat) + contribution_spec(
                i as nat,
            ));
        }
        i = i + 1;
        j = j + 1;
    }
    let mut j: usize = 0;
    while j < lights.spot.len()
        invariant
            lights_seq(*lights) == all,
            all.len() <= u32::MAX,
            amb == if lights.ambient is Some { 1int } else { 0int },
            all.len() == amb + lights.directional@.len() + lights.spot@.len()
                + lights.point@.len(),
            forall|k: int|
                0 <= k < lights.spot@.len() ==> all[amb + lights.directional@.len() + k]
                    == AnyLight::Spot(#[trigger] lights.spot@[k]),
            0 <= j <= lights.spot@.len(),
            i as int == amb + lights.directional@.len() + j,
            source@ == shared_src() + light_shared_src() + cat_sources(all.take(i as int), 0),
            contributions@ == contribs_cat(i as nat),
        decreases lights.spot@.len() - j,
    {
        let light = &lights.spot[j];
        let block = light.shader_source(i);
        source.append(block.as_str());
        let line = contribution_line(i);
        contributions.append(line.as_str());
        proof {
            assert(all[i as int] == AnyLight::Spot(lights.spot@[j as int]));
            assert(all.take(i as int + 1) =~= all.take(i as int).push(all[i as int]));
            lemma_cat_sources_snoc(all.take(i as int), all[i as int], 0);
            assert(source@ =~= shared_src() + light_shared_src() + cat_sources(
                all.take(i as int + 1),
                0,
            ));
            assert(contribs_cat((i + 1) as nat) == contribs_cat(i as nat) + contribution_spec(
                i as nat,
            ));
        }
        i = i + 1;
        j = j + 1;
    }
    let mut j: usize = 0;
    while j < lights.point.len()
        invariant
            lights_seq(*lights) == all,
            all.len() <= u32::MAX,
            amb == if lights.ambient is Some { 1int } else { 0int },
            all.len() == amb + lights.directional@.len() + lights.spot@.len()
                + lights.point@.len(),
            forall|k: int|
                0 <= k < lights.point@.len() ==> all[amb + lights.directional@.len()
                    + lights.spot@.len() + k] == AnyLight::Point(#[trigger] lights.point@[k]),
            0 <= j <= lights.point@.len(),
            i as int == amb + lights.directional@.len() + lights.spot@.len() + j,
            source@ == shared_src() + light_shared_src() + cat_sources(all.take(i as int), 0),
            contributions@ == contribs_cat(i as nat),
        decreases lights.point@.len() - j,
    {
        let light = &lights.point[j];
        let block = light.shader_source(i);
        source.append(block.as_str());
        let line = contribution_line(i);
        contributions.append(line.as_str());
        proof {
            assert(all[i as int] == AnyLight::Point(lights.point@[j as int]));
            assert(all.take(i as int + 1) =~= all.take(i as int).push(all[i as int]));
            lemma_cat_sources_snoc(all.take(i as int), all[i as int], 0);
            assert(source@ =~= shared_src() + light_shared_src() + cat_sources(
                all.take(i as int + 1),
                0,
            ));
            assert(contribs_cat((i + 1) as nat) == contribs_cat(i as nat) + contribution_spec(
                i as nat,
            ));
        }
        i = i + 1;
        j = j + 1;
    }
    proof {
        assert(all.take(i as int) =~= all);
    }
    source.append(
        "\nvec3 calculate_lighting(vec3 surface_color, vec3 position, vec3 normal, float metallic, float roughness, float occlusion)\n{\n    vec3 color = vec3(0.0, 0.0, 0.0);\n",
    );
    source.append(contributions.as_str());
    source.append("    return color;\n}\n");
    proof {
        assert(source@ =~= lights_source_spec(*lights));
    }
    source
}

impl Lights {
    /// The full lighting block this aggregate contributes to a fragment
    /// shader; byte-identical for structurally identical aggregates.
    pub fn fragment_shader_source(&self) -> (r: String)
        requires
            lights_seq(*self).len() <= u32::MAX,
        ensures
            r@ == lights_source_spec(*self),
    {
        lights_fragment_shader_source(self)
    }

    /// Bind every light's uniforms under its numbered symbol names, in
    /// stable index order; the first missing slot is a binding error.
    pub fn use_uniforms(&self, program: &Program, camera: &Camera) -> (r: Result<(), Error>)
        requires
            lights_wf(*self),
            lights_seq(*self).len() <= u32::MAX,
        ensures
            r is Ok <==> lights_uniforms_spec(*self, program.fragment_source@),
            r matches Err(e) ==> e.is_binding(),
    {
        let ghost all = lights_seq(*self);
        let mut i: u32 = 0;
        proof {
            lemma_light_index_order(*self);
        }
        if let Some(ambient) = &self.ambient {
            proof {
                assert(all[0] == AnyLight::Ambient(*ambient));
            }
            match ambient.use_uniforms(program, camera, i) {
                Ok(u) => u,
                Err(e) => {
                    return Err(e);
                },
            };
            i = i + 1;
        }
        let ghost amb: int = if self.ambient is Some { 1int } else { 0int };
        let mut j: usize = 0;
        while j < self.directional.len()
            invariant
                lights_seq(*self) == all,
                lights_wf(*self),
                all.len() <= u32::MAX,
                amb == if self.ambient is Some { 1int } else { 0int },
                all.len() == amb + self.directional@.len() + self.spot@.len() + self.point@.len(),
                forall|k: int|
                    0 <= k < self.directional@.len() ==> all[amb + k] == AnyLight::Directional(
                        #[trigger] self.directional@[k],
                    ),
                0 <= j <= self.directional@.len(),
                i as int == amb + j,
                forall|k: int|
                    0 <= k < i as int ==> (#[trigger] all[k]).uniforms_spec(
                        program.fragment_source@,
                        k as nat,
                    ),
            decreases self.directional@.len() - j,
        {
            proof {
                assert(all[i as int] == AnyLight::Directional(self.directional@[j as int]));
                assert(all[i as int].light_wf());
            }
            match self.directional[j].use_uniforms(program, camera, i) {
                Ok(u) => u,
                Err(e) => {
                    proof {
                        assert(!all[i as int].uniforms_spec(program.fragment_source@, i as nat));
                    }
                    return Err(e);
                },
            };
            i = i + 1;
            j = j + 1;
        }
        let mut j: usize = 0;
        while j < self.spot.len()
            invariant
                lights_seq(*self) == all,
                lights_wf(*self),
                all.len() <= u32::MAX,
                amb == if self.ambient is Some { 1int } else { 0int },
                all.len() == amb + self.directional@.len() + self.spot@.len() + self.point@.len(),
                forall|k: int|
                    0 <= k < self.spot@.len() ==> all[amb + self.directional@.len() + k]
                        == AnyLight::Spot(#[trigger] self.spot@[k]),
                0 <= j <= self.spot@.len(),
                i as int == amb + self.directional@.len() + j,
                forall|k: int|
                    0 <= k < i as int ==> (#[trigger] all[k]).uniforms_spec(
                        program.fragment_source@,
                        k as nat,
                    ),
            decreases self.spot@.len() - j,
        {
            proof {
                assert(all[i as int] == AnyLight::Spot(self.spot@[j as int]));
                assert(all[i as int].light_wf());
            }
            match self.spot[j].use_uniforms(program, camera, i) {
                Ok(u) => u,
                Err(e) => {
                    proof {
                        assert(!all[i as int].uniforms_spec(program.fragment_source@, i as nat));
                    }
                    return Err(e);
                },
            };
            i = i + 1;
            j = j + 1;
        }
        let mut j: usize = 0;
        while j < self.point.len()
            invariant
                lights_seq(*self) == all,
                lights_wf(*self),
                all.len() <= u32::MAX,
                amb == if self.ambient is Some { 1int } else { 0int },
                all.len() == amb + self.directional@.len() + self.spot@.len() + self.point@.len(),
                forall|k: int|
                    0 <= k < self.point@.len() ==> all[amb + self.directional@.len()
                        + self.spot@.len() + k] == AnyLight::Point(#[trigger] self.point@[k]),
                0 <= j <= self.point@.len(),
                i as int == amb + self.directional@.len() + self.spot@.len() + j,
                forall|k: int|
                    0 <= k < i as int ==> (#[trigger] all[k]).uniforms_spec(
                        program.fragment_source@,
                        k as nat,
                    ),
            decreases self.point@.len() - j,
        {
            proof {
                assert(all[i as int] == AnyLight::Point(self.point@[j as int]));
            }
            match self.point[j].use_uniforms(program, camera, i) {
                Ok(u) => u,
                Err(e) => {
                    proof {
                        assert(!all[i as int].uniforms_spec(program.fragment_source@, i as nat));
                    }
                    return Err(e);
                },
            };
            i = i + 1;
            j = j + 1;
        }
        Ok(())
    }
}

impl Default for Lights {
    /// An empty aggregate: no lights of any kind.
    fn default() -> (r: Lights)
        ensures
            r.ambient is None,
            r.directional@.len() == 0,
            r.spot@.len() == 0,
            r.point@.len() == 0,
            lights_seq(r).len() == 0,
    {
        let r = Lights { ambient: None, directional: Vec::new(), spot: Vec::new(), point: Vec::new() };
        proof {
            assert(lights_seq(r) =~= Seq::<AnyLight>::empty());
        }
        r
    }
}

/// Walks an aggregate's lights in their stable index order.
pub struct LightsIterator<'a> {
    lights: &'a Lights,
    index: usize,
}

impl<'a> LightsIterator<'a> {
    /// The aggregate being walked.
    pub closed spec fn lights_spec(&self) -> Lights {
        *self.lights
    }

    /// How many lights have been handed out.
    pub closed spec fn index_spec(&self) -> int {
        self.index as int
    }

    /// Start walking `lights` from index 0.
    pub fn new(lights: &'a Lights) -> (r: LightsIterator<'a>)
        ensures
            r.lights_spec() == *lights,
            r.index_spec() == 0,
    {
        LightsIterator { index: 0, lights }
    }

    /// The next light in stable index order, or nothing when all have
    /// been handed out.
    pub fn next(&mut self) -> (r: Option<AnyLight>)
        requires
            lights_seq(old(self).lights_spec()).len() <= usize::MAX,
        ensures
            final(self).lights_spec() == old(self).lights_spec(),
            old(self).index_spec() < lights_seq(old(self).lights_spec()).len() ==> {
                &&& r == Some(lights_seq(old(self).lights_spec())[old(self).index_spec()])
                &&& final(self).index_spec() == old(self).index_spec() + 1
            },
            old(self).index_spec() >= lights_seq(old(self).lights_spec()).len() ==> {
                &&& r is None
                &&& final(self).index_spec() == old(self).index_spec()
            },
    {
        proof {
            lemma_light_index_order(*self.lights);
        }
        let amb: usize = if self.lights.ambient.is_some() {
            1
        } else {
            0
        };
        let n_dir = self.lights.directional.len();
        let n_spot = self.lights.spot.len();
        let k = self.index;
        if k < amb {
            if let Some(a) = &self.lights.ambient {
                self.index = k + 1;
                return Some(AnyLight::Ambient(*a));
            }
            return None;
        }
        if k - amb < n_dir {
            let light = self.lights.directional[k - amb];
            self.index = k + 1;
            return Some(AnyLight::Directional(light));
        }
        if k - amb - n_dir < n_spot {
            let light = self.lights.spot[k - amb - n_dir];
            self.index = k + 1;
            return Some(AnyLight::Spot(light));
        }
        if k - amb - n_dir - n_spot < self.lights.point.len() {
            let light = self.lights.point[k - amb - n_dir - n_spot];
            self.index = k + 1;
            return Some(AnyLight::Point(light));
        }
        None
    }
}

} // verus!
