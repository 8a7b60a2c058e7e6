//! CPU- and GPU-side triangle meshes.  The CPU mesh is plain data from a
//! loader; the GPU mesh keeps what the render path reads: the local
//! transform, the bounding box of the positions, and which optional
//! vertex attributes the mesh carries.

use vstd::prelude::*;
use vstd::string::*;

use crate::aabb::aabb_contains;
use crate::aabb::aabb_wf;
use crate::aabb::AxisAlignedBoundingBox;
use crate::camera::Viewport;
use crate::context::DrawCall;
use crate::context::Context;
use crate::context::Program;
use crate::material::Color;
use crate::math::Mat4;
use crate::math::Vec3;
use crate::rstates::RenderStates;
use crate::Error;

verus! {

/// A CPU-side triangle mesh: positions and optional per-vertex
/// attributes, plain data with no behavior.
pub struct CPUMesh {
    pub name: String,
    pub positions: Vec<Vec3>,
    pub normals: Option<Vec<Vec3>>,
    pub uvs: Option<Vec<i64>>,
    pub colors: Option<Vec<Color>>,
    pub indices: Option<Vec<u32>>,
}

/// Some vertex color carries an alpha below full.
pub open spec fn colors_have_alpha(cs: Seq<Color>) -> bool {
    exists|i: int| 0 <= i < cs.len() && (#[trigger] cs[i]).a < 255
}

/// `b` is the tight bounding box of the points `ps`: it contains each of
/// them and attains each of its six faces.
pub open spec fn aabb_of_points(ps: Seq<Vec3>, b: AxisAlignedBoundingBox) -> bool {
    &&& aabb_wf(b)
    &&& forall|i: int| 0 <= i < ps.len() ==> aabb_contains(b, #[trigger] ps[i])
    &&& exists|i: int| 0 <= i < ps.len() && (#[trigger] ps[i]).x == b.min.x
    &&& exists|i: int| 0 <= i < ps.len() && (#[trigger] ps[i]).y == b.min.y
    &&& exists|i: int| 0 <= i < ps.len() && (#[trigger] ps[i]).z == b.min.z
    &&& exists|i: int| 0 <= i < ps.len() && (#[trigger] ps[i]).x == b.max.x
    &&& exists|i: int| 0 <= i < ps.len() && (#[trigger] ps[i]).y == b.max.y
    &&& exists|i: int| 0 <= i < ps.len() && (#[trigger] ps[i]).z == b.max.z
}

/// Whether any color of `colors` is translucent.
fn any_transparent(colors: &Vec<Color>) -> (r: bool)
    ensures
        r == colors_have_alpha(colors@),
{
    let mut k: usize = 0;
    while k < colors.len()
        invariant
            0 <= k <= colors@.len(),
            forall|i: int| 0 <= i < k ==> (#[trigger] colors@[i]).a >= 255,
        decreases colors@.len() - k,
    {
        if colors[k].a < 255 {
            return true;
        }
        k = k + 1;
    }
    false
}

/// The vertex stage shared by every draw of a mesh.
pub open spec fn vertex_source_spec() -> Seq<char> {
    "in vec3 position;\nuniform mat4 modelMatrix;\nuniform mat4 viewProjection;\nvoid main()\n{\n    gl_Position = viewProjection * modelMatrix * vec4(position, 1.0);\n}\n"@
}

/// A GPU-side mesh: the uploaded shape of a CPU mesh, with its local to
/// world transform.
#[derive(PartialEq, Eq, Structural, Clone, Copy, Debug)]
pub struct Mesh {
    pub transformation: Mat4,
    pub aabb: AxisAlignedBoundingBox,
    pub has_colors: bool,
    pub colors_transparent: bool,
    pub has_uvs: bool,
    pub has_normals: bool,
}

impl Mesh {
    /// Upload a CPU mesh.  A mesh without positions has no shape and
    /// fails with a resource error; otherwise the bounding box is the
    /// tight box of the positions and the attribute flags mirror the CPU
    /// mesh.
    pub fn new(cpu_mesh: &CPUMesh) -> (r: Result<Mesh, Error>)
        ensures
            r is Ok <==> cpu_mesh.positions@.len() > 0,
            r matches Ok(m) ==> {
                &&& aabb_of_points(cpu_mesh.positions@, m.aabb)
                &&& m.has_colors == cpu_mesh.colors is Some
                &&& m.colors_transparent == (cpu_mesh.colors matches Some(cs) && colors_have_alpha(
                    cs@,
                ))
                &&& m.has_uvs == cpu_mesh.uvs is Some
                &&& m.has_normals == cpu_mesh.normals is Some
                &&& m.transformation == (Mat4 {
                    m00: 1000, m01: 0, m02: 0, m03: 0,
                    m10: 0, m11: 1000, m12: 0, m13: 0,
                    m20: 0, m21: 0, m22: 1000, m23: 0,
                    m30: 0, m31: 0, m32: 0, m33: 1000,
                })
            },
            r matches Err(e) ==> e.is_resource(),
    {
        if cpu_mesh.positions.len() == 0 {
            return Err(Error::Resource { message: String::from_str("mesh without positions") });
        }
        let aabb = AxisAlignedBoundingBox::new_with_positions(&cpu_mesh.positions);
        let (has_colors, colors_transparent) = match &cpu_mesh.colors {
            Some(colors) => (true, any_transparent(colors)),
            None => (false, false),
        };
        Ok(
            Mesh {
                transformation: Mat4::identity(),
                aabb,
                has_colors,
                colors_transparent,
                has_uvs: cpu_mesh.uvs.is_some(),
                has_normals: cpu_mesh.normals.is_some(),
            },
        )
    }

    /// The local to world transformation of the mesh.
    pub fn transformation(&self) -> (r: Mat4)
        ensures
            r == self.transformation,
    {
        self.transformation
    }

    /// Replace the local to world transformation.
    pub fn set_transformation(&mut self, transformation: Mat4)
        ensures
            *final(self) == (Mesh { transformation, ..*old(self) }),
    {
        self.transformation = transformation;
    }

    /// The bounding box of the mesh positions.
    pub fn aabb(&self) -> (r: AxisAlignedBoundingBox)
        ensures
            r == self.aabb,
    {
        self.aabb
    }

    /// The vertex stage paired with any fragment source of this mesh; a
    /// constant, so the cache key is determined by the fragment source.
    pub fn vertex_shader_source(_fragment_shader_source: &String) -> (r: String)
        ensures
            r@ == vertex_source_spec(),
            r@.len() > 0,
    {
        let r = String::from_str(
            "in vec3 position;\nuniform mat4 modelMatrix;\nuniform mat4 viewProjection;\nvoid main()\n{\n    gl_Position = viewProjection * modelMatrix * vec4(position, 1.0);\n}\n",
        );
        proof {
            reveal_strlit(
                "in vec3 position;\nuniform mat4 modelMatrix;\nuniform mat4 viewProjection;\nvoid main()\n{\n    gl_Position = viewProjection * modelMatrix * vec4(position, 1.0);\n}\n",
            );
        }
        r
    }

    /// Issue the draw of this mesh with a resolved program.
    pub fn render(
        &self,
        render_states: RenderStates,
        program: &Program,
        viewport: Viewport,
        context: &mut Context,
    )
        ensures
            final(context).programs@ == old(context).programs@,
            final(context).draws@ == old(context).draws@.push(
                DrawCall {
                    aabb: self.aabb,
                    program_id: program.id,
                    states: render_states,
                    viewport,
                },
            ),
            old(context).wf() ==> final(context).wf(),
    {
        context.submit_draw(
            DrawCall { aabb: self.aabb, program_id: program.id, states: render_states, viewport },
        );
    }
}

} // verus!
