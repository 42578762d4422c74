//! Spatial components: translation, rotation, scale, and the transform that
//! combines the three and owns the uniform buffer it is uploaded to.

use vstd::prelude::*;
use crate::handle::BufferHandle;
use crate::scalar::{Quaternion, Vector3};

verus! {

pub const TRANSLATION_ID: u32 = 1;

pub const ROTATION_ID: u32 = 2;

pub const NON_UNIFORM_SCALE_ID: u32 = 3;

pub const TRANSFORM_ID: u32 = 4;

#[derive(Clone, Copy, Debug, PartialEq, Eq)]
pub struct Translation {
    pub value: Vector3,
}

#[derive(Clone, Copy, Debug, PartialEq, Eq)]
pub struct Rotation {
    pub value: Quaternion,
}

#[derive(Clone, Copy, Debug, PartialEq, Eq)]
pub struct NonUniformScale {
    pub value: Vector3,
}

#[derive(Clone, Copy, Debug, PartialEq, Eq)]
pub struct Transform {
    pub position: Vector3,
    pub rotation: Quaternion,
    pub scale: Vector3,
    pub buffer: BufferHandle,
}

impl Translation {
    pub fn new(value: Vector3) -> (t: Translation)
        ensures
            t.value == value,
    {
        Translation { value }
    }

    pub fn get_component_id() -> (id: u32)
        ensures
            id == TRANSLATION_ID,
    {
        TRANSLATION_ID
    }
}

impl Rotation {
    pub fn new(value: Quaternion) -> (r: Rotation)
        ensures
            r.value == value,
    {
        Rotation { value }
    }

    pub fn get_component_id() -> (id: u32)
        ensures
            id == ROTATION_ID,
    {
        ROTATION_ID
    }
}

impl NonUniformScale {
    pub fn new(value: Vector3) -> (s: NonUniformScale)
        ensures
            s.value == value,
    {
        NonUniformScale { value }
    }

    pub fn get_component_id() -> (id: u32)
        ensures
            id == NON_UNIFORM_SCALE_ID,
    {
        NON_UNIFORM_SCALE_ID
    }

    pub fn set_scale(&mut self, value: Vector3)
        ensures
            final(self).value == value,
    {
        self.value = value;
    }
}

impl Transform {
    /// A transform at `position`, turned by `rotation` and scaled by
    /// `scale`, uploaded to `buffer`.
    pub fn new(buffer: BufferHandle, position: Vector3, rotation: Quaternion, scale: Vector3) -> (t: Transform)
        ensures
            t == (Transform { position, rotation, scale, buffer }),
    {
        Transform { position, rotation, scale, buffer }
    }

    pub fn get_component_id() -> (id: u32)
        ensures
            id == TRANSFORM_ID,
    {
        TRANSFORM_ID
    }

    pub fn get_buffer_reference(&self) -> (b: &BufferHandle)
        ensures
            *b == self.buffer,
    {
        &self.buffer
    }
}

} // verus!
