//! The component that makes an entity drawable.

use vstd::prelude::*;
use crate::handle::{BindGroupHandle, BufferHandle};
use crate::material::{Material, MaterialUniform};

verus! {

pub const RENDER_MESH_ID: u32 = 0;

/// Vertices of the quad that a new mesh holds: two triangles.
pub const QUAD_VERTICES: u32 = 6;

#[derive(Clone, Copy, Debug, PartialEq, Eq)]
pub struct RenderMesh {
    pub vertex_buffer: BufferHandle,
    pub index_buffer: BufferHandle,
    pub num_vertices: u32,
    pub num_indices: u32,
    pub material: Material,
}

impl RenderMesh {
    /// A quad with the given material: six vertices and no indices, in the
    /// two buffers that the renderer made for it.
    pub fn new(vertex_buffer: BufferHandle, index_buffer: BufferHandle, material: Material) -> (m: RenderMesh)
        ensures
            m == (RenderMesh {
                vertex_buffer,
                index_buffer,
                num_vertices: QUAD_VERTICES,
                num_indices: 0,
                material,
            }),
    {
        RenderMesh { vertex_buffer, index_buffer, num_vertices: QUAD_VERTICES, num_indices: 0, material }
    }

    pub fn get_component_id() -> (id: u32)
        ensures
            id == RENDER_MESH_ID,
    {
        RENDER_MESH_ID
    }

    pub fn get_vertex_buffer(&self) -> (b: &BufferHandle)
        ensures
            *b == self.vertex_buffer,
    {
        &self.vertex_buffer
    }

    pub fn get_index_buffer(&self) -> (b: &BufferHandle)
        ensures
            *b == self.index_buffer,
    {
        &self.index_buffer
    }

    pub fn get_num_vertices(&self) -> (n: u32)
        ensures
            n == self.num_vertices,
    {
        self.num_vertices
    }

    pub fn get_num_indices(&self) -> (n: u32)
        ensures
            n == self.num_indices,
    {
        self.num_indices
    }

    pub fn borrow_material(&self) -> (m: &Material)
        ensures
            *m == self.material,
    {
        &self.material
    }

    /// What the uniform buffer of the mesh's material is filled with.
    pub fn generate_material_uniforms(&self) -> (u: MaterialUniform)
        ensures
            u == self.material.uniform_spec(),
    {
        self.material.create_uniform_group()
    }
}

/// How a mesh is drawn: straight from its vertices, or through its indices
/// if it has any.
#[derive(Clone, Copy, Debug, PartialEq, Eq)]
pub enum DrawCall {
    Vertices { count: u32 },
    Indexed { count: u32 },
}

/// A bind resource and the bind slot it goes to.
#[derive(Clone, Copy, Debug, PartialEq, Eq)]
pub struct Binding {
    pub slot: u32,
    pub group: BindGroupHandle,
}

/// The bind slots of an entity's resources: slot 0 is the texture's, and
/// the resources follow from slot 1, in their order.
pub open spec fn bindings_of(uniforms: Seq<BindGroupHandle>) -> Seq<Binding> {
    Seq::new(uniforms.len(), |i: int| Binding { slot: (i + 1) as u32, group: uniforms[i] })
}

impl RenderMesh {
    pub open spec fn draw_call_spec(self) -> DrawCall {
        if self.num_indices == 0 {
            DrawCall::Vertices { count: self.num_vertices }
        } else {
            DrawCall::Indexed { count: self.num_indices }
        }
    }

    /// How the mesh is drawn.
    pub fn draw_call(&self) -> (call: DrawCall)
        ensures
            call == self.draw_call_spec(),
    {
        if self.get_num_indices() == 0 {
            DrawCall::Vertices { count: self.get_num_vertices() }
        } else {
            DrawCall::Indexed { count: self.get_num_indices() }
        }
    }

    /// What a draw of the mesh binds besides the texture, and how it draws.
    pub fn draw(&self, uniforms: &Vec<BindGroupHandle>) -> (plan: (Vec<Binding>, DrawCall))
        requires
            uniforms@.len() < u32::MAX,
        ensures
            plan.0@ == bindings_of(uniforms@),
            plan.1 == self.draw_call_spec(),
    {
        let mut bindings: Vec<Binding> = Vec::new();
        let mut i: u32 = 1;
        let mut k: usize = 0;
        while k < uniforms.len()
            invariant
                k <= uniforms@.len(),
                uniforms@.len() < u32::MAX,
                i == k + 1,
                bindings@ == bindings_of(uniforms@.take(k as int)),
            decreases uniforms@.len() - k,
        {
            bindings.push(Binding { slot: i, group: uniforms[k] });
            assert(bindings@ =~= bindings_of(uniforms@.take(k as int + 1)));
            i += 1;
            k += 1;
        }
        assert(uniforms@.take(uniforms@.len() as int) =~= uniforms@);
        (bindings, self.draw_call())
    }
}

} // verus!
