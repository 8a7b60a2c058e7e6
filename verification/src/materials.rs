//! The material variants: UV and normal visualization, single-texture,
//! flat or vertex color, depth, and full physically based shading.  Each
//! variant implements the forward material interface; the physically
//! based variant also implements the deferred one.

use vstd::prelude::*;
use vstd::string::*;

use crate::camera::Camera;
use crate::context::fs_defines;
use crate::context::Program;
use crate::light::lights_seq;
use crate::light::shared_src;
use crate::light::AnyLight;
use crate::light::Lights;
use crate::material::CPUMaterial;
use crate::material::Color;
use crate::material::Material;
use crate::rstates::default_render_states;
use crate::rstates::transparency_render_states;
use crate::rstates::RenderStates;
use crate::shading::DeferredMaterial;
use crate::shading::ForwardMaterial;
use crate::texture::Format;
use crate::texture::Texture2D;
use crate::Error;

verus! {

/// The fragment block visualizing UV coordinates in red and green.
pub open spec fn uv_source_spec() -> Seq<char> {
    "in vec2 uvs;\nlayout (location = 0) out vec4 outColor;\nvoid main()\n{\n    outColor = vec4(uvs, 0.0, 1.0);\n}\n"@
}

/// Visualizes the uv coordinates of a mesh for debug purposes; never
/// transparent.
#[derive(PartialEq, Eq, Structural, Clone, Copy, Debug)]
pub struct UVMaterial {
    pub render_states: RenderStates,
}

impl Default for UVMaterial {
    /// A UV material drawing with the default render state.
    fn default() -> (r: UVMaterial)
        ensures
            r.render_states == default_render_states(),
    {
        UVMaterial { render_states: RenderStates::opaque() }
    }
}

impl ForwardMaterial for UVMaterial {
    open spec fn source_spec(&self, use_vertex_colors: bool, lights: Seq<AnyLight>) -> Seq<char> {
        uv_source_spec()
    }

    open spec fn uniforms_ok(&self, fs: Seq<char>) -> bool {
        true
    }

    open spec fn states_spec(&self, transparent_hint: bool) -> RenderStates {
        self.render_states
    }

    open spec fn transparent_spec(&self) -> bool {
        false
    }

    fn fragment_shader_source(&self, use_vertex_colors: bool, lights: &Lights) -> (r: String) {
        let r = String::from_str(
            "in vec2 uvs;\nlayout (location = 0) out vec4 outColor;\nvoid main()\n{\n    outColor = vec4(uvs, 0.0, 1.0);\n}\n",
        );
        proof {
            reveal_strlit(
                "in vec2 uvs;\nlayout (location = 0) out vec4 outColor;\nvoid main()\n{\n    outColor = vec4(uvs, 0.0, 1.0);\n}\n",
            );
        }
        r
    }

    fn use_uniforms(&self, _program: &Program, _camera: &Camera, _lights: &Lights) -> (r: Result<
        (),
        Error,
    >) {
        Ok(())
    }

    fn render_states(&self, _transparent_hint: bool) -> (r: RenderStates) {
        self.render_states
    }

    fn is_transparent(&self) -> (r: bool) {
        false
    }
}

/// The declarations a normal material adds when it carries a tangent
/// space normal map.
pub open spec fn normal_texture_decls_src() -> Seq<char> {
    "#define USE_TEXTURE\nin vec2 uvs;\nuniform float normalScale;\nuniform sampler2D normalTexture;\n"@
}

/// The fragment block visualizing surface normals.
pub open spec fn normal_body_src() -> Seq<char> {
    "in vec3 tang;\nlayout (location = 0) out vec4 outColor;\nvoid main()\n{\n    outColor = vec4(0.5 * (normalize(nor) + 1.0), 1.0);\n}\n"@
}

/// Visualizes the normals of a mesh, optionally perturbed by a tangent
/// space normal map.
#[derive(PartialEq, Eq, Structural, Clone, Copy, Debug)]
pub struct NormalMaterial {
    /// A scalar multiplier applied to each vector of the normal map.
    pub normal_scale: i64,
    /// A tangent space normal map, also known as bump map.
    pub normal_texture: Option<Texture2D>,
}

impl Default for NormalMaterial {
    /// Unit normal scale, no normal map.
    fn default() -> (r: NormalMaterial)
        ensures
            r.normal_scale == 1000,
            r.normal_texture is None,
    {
        NormalMaterial { normal_scale: 1000, normal_texture: None }
    }
}

impl ForwardMaterial for NormalMaterial {
    open spec fn source_spec(&self, use_vertex_colors: bool, lights: Seq<AnyLight>) -> Seq<char> {
        (if self.normal_texture is Some {
            shared_src() + normal_texture_decls_src()
        } else {
            Seq::<char>::empty()
        }) + normal_body_src()
    }

    open spec fn uniforms_ok(&self, fs: Seq<char>) -> bool {
        self.normal_texture is Some ==> fs_defines(fs, "normalScale"@) && fs_defines(
            fs,
            "normalTexture"@,
        )
    }

    open spec fn states_spec(&self, transparent_hint: bool) -> RenderStates {
        default_render_states()
    }

    open spec fn transparent_spec(&self) -> bool {
        false
    }

    fn fragment_shader_source(&self, use_vertex_colors: bool, lights: &Lights) -> (r: String) {
        let mut s = String::new();
        if self.normal_texture.is_some() {
            s.append("in vec3 pos;\nin vec3 nor;\nuniform vec3 eyePosition;\n");
            s.append(
                "#define USE_TEXTURE\nin vec2 uvs;\nuniform float normalScale;\nuniform sampler2D normalTexture;\n",
            );
        }
        s.append(
            "in vec3 tang;\nlayout (location = 0) out vec4 outColor;\nvoid main()\n{\n    outColor = vec4(0.5 * (normalize(nor) + 1.0), 1.0);\n}\n",
        );
        proof {
            reveal_strlit(
                "in vec3 tang;\nlayout (location = 0) out vec4 outColor;\nvoid main()\n{\n    outColor = vec4(0.5 * (normalize(nor) + 1.0), 1.0);\n}\n",
            );
            assert(s@ =~= self.source_spec(use_vertex_colors, lights_seq(*lights)));
        }
        s
    }

    fn use_uniforms(&self, program: &Program, _camera: &Camera, _lights: &Lights) -> (r: Result<
        (),
        Error,
    >) {
        if let Some(texture) = &self.normal_texture {
            match program.use_uniform_float("normalScale", &self.normal_scale) {
                Ok(u) => u,
                Err(e) => {
                    return Err(e);
                },
            };
            match program.use_texture("normalTexture", texture) {
                Ok(u) => u,
                Err(e) => {
                    return Err(e);
                },
            };
        }
        Ok(())
    }

    fn render_states(&self, _transparent_hint: bool) -> (r: RenderStates) {
        RenderStates::opaque()
    }

    fn is_transparent(&self) -> (r: bool) {
        false
    }
}

/// The fragment block sampling a single albedo texture.
pub open spec fn texture_source_spec() -> Seq<char> {
    "uniform sampler2D tex;\nin vec2 uvs;\nlayout (location = 0) out vec4 outColor;\nvoid main()\n{\n    outColor = texture(tex, uvs);\n}\n"@
}

/// Shades a mesh with one albedo texture; transparent exactly when the
/// texture's format carries an alpha channel.
#[derive(PartialEq, Eq, Structural, Clone, Copy, Debug)]
pub struct TextureMaterial {
    pub texture: Texture2D,
}

impl ForwardMaterial for TextureMaterial {
    open spec fn source_spec(&self, use_vertex_colors: bool, lights: Seq<AnyLight>) -> Seq<char> {
        texture_source_spec()
    }

    open spec fn uniforms_ok(&self, fs: Seq<char>) -> bool {
        fs_defines(fs, "tex"@)
    }

    open spec fn states_spec(&self, transparent_hint: bool) -> RenderStates {
        if self.texture.format == Format::RGBA || transparent_hint {
            transparency_render_states()
        } else {
            default_render_states()
        }
    }

    open spec fn transparent_spec(&self) -> bool {
        self.texture.format == Format::RGBA
    }

    fn fragment_shader_source(&self, use_vertex_colors: bool, lights: &Lights) -> (r: String) {
        let r = String::from_str(
            "uniform sampler2D tex;\nin vec2 uvs;\nlayout (location = 0) out vec4 outColor;\nvoid main()\n{\n    outColor = texture(tex, uvs);\n}\n",
        );
        proof {
            reveal_strlit(
                "uniform sampler2D tex;\nin vec2 uvs;\nlayout (location = 0) out vec4 outColor;\nvoid main()\n{\n    outColor = texture(tex, uvs);\n}\n",
            );
        }
        r
    }

    fn use_uniforms(&self, program: &Program, _camera: &Camera, _lights: &Lights) -> (r: Result<
        (),
        Error,
    >) {
        program.use_texture("tex", &self.texture)
    }

    fn render_states(&self, transparent_hint: bool) -> (r: RenderStates) {
        if self.texture.is_transparent() || transparent_hint {
            RenderStates::transparent()
        } else {
            RenderStates::opaque()
        }
    }

    fn is_transparent(&self) -> (r: bool) {
        self.texture.is_transparent()
    }
}

/// The fragment block shading with one uniform color, modulated by
/// vertex colors when the mesh carries them.
pub open spec fn color_source_spec(use_vertex_colors: bool) -> Seq<char> {
    if use_vertex_colors {
        "uniform vec4 surfaceColor;\nin vec4 col;\nlayout (location = 0) out vec4 outColor;\nvoid main()\n{\n    outColor = surfaceColor * col;\n}\n"@
    } else {
        "uniform vec4 surfaceColor;\nlayout (location = 0) out vec4 outColor;\nvoid main()\n{\n    outColor = surfaceColor;\n}\n"@
    }
}

/// Shades a mesh with a flat color, or with its vertex colors modulated
/// by that color; transparent when the color's alpha is below full.
#[derive(PartialEq, Eq, Structural, Clone, Copy, Debug)]
pub struct ColorMaterial {
    pub color: Color,
    pub render_states: RenderStates,
    pub transparent_render_states: RenderStates,
}

impl Default for ColorMaterial {
    /// Opaque white with the default state pair.
    fn default() -> (r: ColorMaterial)
        ensures
            r.color == (Color { r: 255, g: 255, b: 255, a: 255 }),
            r.render_states == default_render_states(),
            r.transparent_render_states == transparency_render_states(),
    {
        ColorMaterial {
            color: Color::white(),
            render_states: RenderStates::opaque(),
            transparent_render_states: RenderStates::transparent(),
        }
    }
}

impl ForwardMaterial for ColorMaterial {
    open spec fn source_spec(&self, use_vertex_colors: bool, lights: Seq<AnyLight>) -> Seq<char> {
        color_source_spec(use_vertex_colors)
    }

    open spec fn uniforms_ok(&self, fs: Seq<char>) -> bool {
        fs_defines(fs, "surfaceColor"@)
    }

    open spec fn states_spec(&self, transparent_hint: bool) -> RenderStates {
        if self.color.a < 255 || transparent_hint {
            self.transparent_render_states
        } else {
            self.render_states
        }
    }

    open spec fn transparent_spec(&self) -> bool {
        self.color.a < 255
    }

    fn fragment_shader_source(&self, use_vertex_colors: bool, lights: &Lights) -> (r: String) {
        if use_vertex_colors {
            let r = String::from_str(
                "uniform vec4 surfaceColor;\nin vec4 col;\nlayout (location = 0) out vec4 outColor;\nvoid main()\n{\n    outColor = surfaceColor * col;\n}\n",
            );
            proof {
                reveal_strlit(
                    "uniform vec4 surfaceColor;\nin vec4 col;\nlayout (location = 0) out vec4 outColor;\nvoid main()\n{\n    outColor = surfaceColor * col;\n}\n",
                );
            }
            r
        } else {
            let r = String::from_str(
                "uniform vec4 surfaceColor;\nlayout (location = 0) out vec4 outColor;\nvoid main()\n{\n    outColor = surfaceColor;\n}\n",
            );
            proof {
                reveal_strlit(
                    "uniform vec4 surfaceColor;\nlayout (location = 0) out vec4 outColor;\nvoid main()\n{\n    outColor = surfaceColor;\n}\n",
                );
            }
            r
        }
    }

    fn use_uniforms(&self, program: &Program, _camera: &Camera, _lights: &Lights) -> (r: Result<
        (),
        Error,
    >) {
        let color_vec = self.color.to_vec4();
        program.use_uniform_vec4("surfaceColor", &color_vec)
    }

    fn render_states(&self, transparent_hint: bool) -> (r: RenderStates) {
        if self.color.is_transparent() || transparent_hint {
            self.transparent_render_states
        } else {
            self.render_states
        }
    }

    fn is_transparent(&self) -> (r: bool) {
        self.color.is_transparent()
    }
}

/// The fragment block writing linearized depth.
pub open spec fn depth_source_spec() -> Seq<char> {
    "uniform float minDistance;\nuniform float maxDistance;\nlayout (location = 0) out vec4 outColor;\nvoid main()\n{\n    float dist = (gl_FragCoord.z - minDistance) / (maxDistance - minDistance);\n    outColor = vec4(dist, dist, dist, 1.0);\n}\n"@
}

/// Writes or reads linearized depth; used for shadow maps and depth
/// pre-passes, with a depth-only write mask.
#[derive(PartialEq, Eq, Structural, Clone, Copy, Debug)]
pub struct DepthMaterial {
    pub min_distance: i64,
    pub max_distance: i64,
    pub render_states: RenderStates,
}

impl Default for DepthMaterial {
    /// Unit depth range with the default render state.
    fn default() -> (r: DepthMaterial)
        ensures
            r.min_distance == 0,
            r.max_distance == 1000,
            r.render_states == default_render_states(),
    {
        DepthMaterial { min_distance: 0, max_distance: 1000, render_states: RenderStates::opaque() }
    }
}

impl ForwardMaterial for DepthMaterial {
    open spec fn source_spec(&self, use_vertex_colors: bool, lights: Seq<AnyLight>) -> Seq<char> {
        depth_source_spec()
    }

    open spec fn uniforms_ok(&self, fs: Seq<char>) -> bool {
        fs_defines(fs, "minDistance"@) && fs_defines(fs, "maxDistance"@)
    }

    open spec fn states_spec(&self, transparent_hint: bool) -> RenderStates {
        self.render_states
    }

    open spec fn transparent_spec(&self) -> bool {
        false
    }

    fn fragment_shader_source(&self, use_vertex_colors: bool, lights: &Lights) -> (r: String) {
        let r = String::from_str(
            "uniform float minDistance;\nuniform float maxDistance;\nlayout (location = 0) out vec4 outColor;\nvoid main()\n{\n    float dist = (gl_FragCoord.z - minDistance) / (maxDistance - minDistance);\n    outColor = vec4(dist, dist, dist, 1.0);\n}\n",
        );
        proof {
            reveal_strlit(
                "uniform float minDistance;\nuniform float maxDistance;\nlayout (location = 0) out vec4 outColor;\nvoid main()\n{\n    float dist = (gl_FragCoord.z - minDistance) / (maxDistance - minDistance);\n    outColor = vec4(dist, dist, dist, 1.0);\n}\n",
            );
        }
        r
    }

    fn use_uniforms(&self, program: &Program, _camera: &Camera, _lights: &Lights) -> (r: Result<
        (),
        Error,
    >) {
        match program.use_uniform_float("minDistance", &self.min_distance) {
            Ok(u) => u,
            Err(e) => {
                return Err(e);
            },
        };
        program.use_uniform_float("maxDistance", &self.max_distance)
    }

    fn render_states(&self, _transparent_hint: bool) -> (r: RenderStates) {
        self.render_states
    }

    fn is_transparent(&self) -> (r: bool) {
        false
    }
}

/// The lighting model a physically based material evaluates.
#[derive(PartialEq, Eq, Structural, Clone, Copy, Debug)]
pub enum LightingModel {
    Phong,
    Blinn,
    Cook,
}

/// The declarations shared by the physically based fragment blocks.
pub open spec fn physical_decls_src() -> Seq<char> {
    "uniform float metallic;\nuniform float roughness;\nuniform vec4 albedo;\nuniform sampler2D albedoTexture;\nuniform sampler2D metallicRoughnessTexture;\nuniform float occlusionStrength;\nuniform sampler2D occlusionTexture;\nuniform float normalScale;\nuniform sampler2D normalTexture;\n"@
}

/// The forward physically based fragment block.
pub open spec fn physical_forward_body_src() -> Seq<char> {
    "layout (location = 0) out vec4 outColor;\nvoid main()\n{\n    outColor = vec4(calculate_lighting(albedo.rgb, pos, nor, metallic, roughness, 1.0), albedo.a);\n}\n"@
}

/// The deferred physically based fragment block: it writes surface
/// parameters into the multi-target geometry buffer.
pub open spec fn physical_deferred_body_src() -> Seq<char> {
    "layout (location = 0) out vec4 outAlbedo;\nlayout (location = 1) out vec4 outNormal;\nlayout (location = 2) out vec4 outParameters;\nvoid main()\n{\n    outAlbedo = albedo;\n    outNormal = vec4(nor, 1.0);\n    outParameters = vec4(metallic, roughness, 1.0, 1.0);\n}\n"@
}

/// The vertex-color input declaration.
pub open spec fn vertex_color_decl_src() -> Seq<char> {
    "in vec4 col;\n"@
}

/// Physically based shading over an uploaded material: albedo, metallic,
/// roughness, occlusion and normal mapping under the full light
/// aggregate.
pub struct PhysicalMaterial {
    pub material: Material,
    pub lighting_model: LightingModel,
}

impl PhysicalMaterial {
    /// Whether the material draws transparent: a translucent albedo color
    /// or an alpha-bearing albedo texture.
    pub open spec fn physical_transparent_spec(&self) -> bool {
        self.material.albedo.w < 1000 || (self.material.albedo_texture matches Some(t) && t.format
            == Format::RGBA)
    }

    /// Upload a CPU material and shade it with the default lighting
    /// model.
    pub fn new(cpu_material: &CPUMaterial) -> (r: Result<PhysicalMaterial, Error>)
        ensures
            r is Ok <==> crate::material::uploadable(&cpu_material.albedo_texture)
                && crate::material::uploadable(&cpu_material.metallic_roughness_texture)
                && crate::material::uploadable(&cpu_material.occlusion_texture)
                && crate::material::uploadable(&cpu_material.normal_texture),
            r matches Ok(m) ==> m.lighting_model == LightingModel::Blinn && m.material.metallic
                == cpu_material.metallic && m.material.roughness == cpu_material.roughness,
            r matches Err(e) ==> e.is_resource(),
    {
        match Material::new(cpu_material) {
            Ok(material) => Ok(PhysicalMaterial { material, lighting_model: LightingModel::Blinn }),
            Err(e) => Err(e),
        }
    }
}

impl ForwardMaterial for PhysicalMaterial {
    open spec fn source_spec(&self, use_vertex_colors: bool, lights: Seq<AnyLight>) -> Seq<char> {
        (if use_vertex_colors {
            vertex_color_decl_src()
        } else {
            Seq::<char>::empty()
        }) + physical_decls_src() + physical_forward_body_src()
    }

    open spec fn uniforms_ok(&self, fs: Seq<char>) -> bool {
        self.material.bind_spec(fs)
    }

    open spec fn states_spec(&self, transparent_hint: bool) -> RenderStates {
        if self.physical_transparent_spec() || transparent_hint {
            transparency_render_states()
        } else {
            default_render_states()
        }
    }

    open spec fn transparent_spec(&self) -> bool {
        self.physical_transparent_spec()
    }

    fn fragment_shader_source(&self, use_vertex_colors: bool, lights: &Lights) -> (r: String) {
        let mut s = String::new();
        if use_vertex_colors {
            s.append("in vec4 col;\n");
        }
        s.append(
            "uniform float metallic;\nuniform float roughness;\nuniform vec4 albedo;\nuniform sampler2D albedoTexture;\nuniform sampler2D metallicRoughnessTexture;\nuniform float occlusionStrength;\nuniform sampler2D occlusionTexture;\nuniform float normalScale;\nuniform sampler2D normalTexture;\n",
        );
        s.append(
            "layout (location = 0) out vec4 outColor;\nvoid main()\n{\n    outColor = vec4(calculate_lighting(albedo.rgb, pos, nor, metallic, roughness, 1.0), albedo.a);\n}\n",
        );
        proof {
            reveal_strlit(
                "layout (location = 0) out vec4 outColor;\nvoid main()\n{\n    outColor = vec4(calculate_lighting(albedo.rgb, pos, nor, metallic, roughness, 1.0), albedo.a);\n}\n",
            );
            assert(s@ =~= self.source_spec(use_vertex_colors, lights_seq(*lights)));
        }
        s
    }

    fn use_uniforms(&self, program: &Program, _camera: &Camera, _lights: &Lights) -> (r: Result<
        (),
        Error,
    >) {
        self.material.bind(program)
    }

    fn render_states(&self, transparent_hint: bool) -> (r: RenderStates) {
        if self.is_transparent() || transparent_hint {
            RenderStates::transparent()
        } else {
            RenderStates::opaque()
        }
    }

    fn is_transparent(&self) -> (r: bool) {
        let albedo_alpha_texture = match &self.material.albedo_texture {
            Some(t) => t.is_transparent(),
            None => false,
        };
        self.material.albedo.w < 1000 || albedo_alpha_texture
    }
}

impl DeferredMaterial for PhysicalMaterial {
    open spec fn source_deferred_spec(&self, use_vertex_colors: bool) -> Seq<char> {
        (if use_vertex_colors {
            vertex_color_decl_src()
        } else {
            Seq::<char>::empty()
        }) + physical_decls_src() + physical_deferred_body_src()
    }

    open spec fn uniforms_deferred_ok(&self, fs: Seq<char>) -> bool {
        self.material.bind_spec(fs)
    }

    open spec fn states_deferred_spec(&self) -> RenderStates {
        default_render_states()
    }

    fn fragment_shader_source_deferred(&self, use_vertex_colors: bool) -> (r: String) {
        let mut s = String::new();
        if use_vertex_colors {
            s.append("in vec4 col;\n");
        }
        s.append(
            "uniform float metallic;\nuniform float roughness;\nuniform vec4 albedo;\nuniform sampler2D albedoTexture;\nuniform sampler2D metallicRoughnessTexture;\nuniform float occlusionStrength;\nuniform sampler2D occlusionTexture;\nuniform float normalScale;\nuniform sampler2D normalTexture;\n",
        );
        s.append(
            "layout (location = 0) out vec4 outAlbedo;\nlayout (location = 1) out vec4 outNormal;\nlayout (location = 2) out vec4 outParameters;\nvoid main()\n{\n    outAlbedo = albedo;\n    outNormal = vec4(nor, 1.0);\n    outParameters = vec4(metallic, roughness, 1.0, 1.0);\n}\n",
        );
        proof {
            reveal_strlit(
                "layout (location = 0) out vec4 outAlbedo;\nlayout (location = 1) out vec4 outNormal;\nlayout (location = 2) out vec4 outParameters;\nvoid main()\n{\n    outAlbedo = albedo;\n    outNormal = vec4(nor, 1.0);\n    outParameters = vec4(metallic, roughness, 1.0, 1.0);\n}\n",
            );
            assert(s@ =~= self.source_deferred_spec(use_vertex_colors));
        }
        s
    }

    fn use_uniforms_deferred(&self, program: &Program) -> (r: Result<(), Error>) {
        self.material.bind(program)
    }

    fn render_states_deferred(&self) -> (r: RenderStates) {
        RenderStates::opaque()
    }
}

} // verus!
