//! How a mesh looks: its texture, its colour and finish, the pipeline that
//! draws it, and its place in the drawing order.

use vstd::prelude::*;
use crate::handle::{BufferHandle, ShaderHandle, TextureHandle};
use crate::renderer::UniformBuffer;
use crate::scalar::{Scalar, Vector3};

verus! {

#[derive(Clone, Copy, Debug, PartialEq, Eq)]
pub struct Material {
    pub texture: TextureHandle,
    pub color: Vector3,
    pub shininess: Scalar,
    pub metallic: Scalar,
    /// Meshes with a higher value are drawn earlier.
    pub sort: i32,
    pub buffer: BufferHandle,
    pub shader: ShaderHandle,
}

/// What a material's uniform buffer is filled with.
#[derive(Clone, Copy, Debug, PartialEq, Eq)]
pub struct MaterialUniform {
    pub color: Vector3,
    pub shininess: Scalar,
    pub metallic: Scalar,
    pub sort: i32,
}

impl UniformBuffer for MaterialUniform {
}

impl MaterialUniform {
    pub fn new(color: Vector3, shininess: Scalar, metallic: Scalar, sort: i32) -> (u: MaterialUniform)
        ensures
            u == (MaterialUniform { color, shininess, metallic, sort }),
    {
        MaterialUniform { color, shininess, metallic, sort }
    }
}

impl Material {
    pub fn new(
        buffer: BufferHandle,
        texture: TextureHandle,
        color: Vector3,
        shininess: Scalar,
        metallic: Scalar,
        sort: i32,
        shader: ShaderHandle,
    ) -> (m: Material)
        ensures
            m == (Material { texture, color, shininess, metallic, sort, buffer, shader }),
    {
        Material { texture, color, shininess, metallic, sort, buffer, shader }
    }

    pub fn borrow_texture(&self) -> (t: &TextureHandle)
        ensures
            *t == self.texture,
    {
        &self.texture
    }

    pub fn get_shader_name(&self) -> (s: &ShaderHandle)
        ensures
            *s == self.shader,
    {
        &self.shader
    }

    pub fn get_buffer_reference(&self) -> (b: &BufferHandle)
        ensures
            *b == self.buffer,
    {
        &self.buffer
    }

    pub open spec fn uniform_spec(self) -> MaterialUniform {
        MaterialUniform {
            color: self.color,
            shininess: self.shininess,
            metallic: self.metallic,
            sort: self.sort,
        }
    }

    /// What the material's uniform buffer is filled with.
    pub fn create_uniform_group(&self) -> (u: MaterialUniform)
        ensures
            u == self.uniform_spec(),
    {
        MaterialUniform::new(self.color, self.shininess, self.metallic, self.sort)
    }
}

} // verus!
