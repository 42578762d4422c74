//! Handles to resources that collaborators own.
//!
//! A handle is an index into an arena kept by the collaborator (the renderer
//! for GPU resources, the physics world for bodies). Handles are plain
//! values: copying one shares the resource, and dropping one frees nothing.

use vstd::prelude::*;

verus! {

/// A GPU buffer in the renderer's buffer arena.
#[derive(Clone, Copy, Debug, PartialEq, Eq, Structural)]
pub struct BufferHandle {
    pub index: usize,
}

/// A GPU bind resource in the renderer's bind-group arena.
#[derive(Clone, Copy, Debug, PartialEq, Eq, Structural)]
pub struct BindGroupHandle {
    pub index: usize,
}

/// A texture in the renderer's texture arena.
#[derive(Clone, Copy, Debug, PartialEq, Eq, Structural)]
pub struct TextureHandle {
    pub index: usize,
}

/// A render pipeline in the renderer's registry, named after its shader.
#[derive(Clone, Copy, Debug, PartialEq, Eq, Structural)]
pub struct ShaderHandle {
    pub index: usize,
}

/// A body of the physics world.
#[derive(Clone, Copy, Debug, PartialEq, Eq, Structural)]
pub struct BodyHandle {
    pub index: usize,
}

} // verus!
