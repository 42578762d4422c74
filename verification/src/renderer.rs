//! The core's side of the renderer collaborator.
//!
//! Drawing runs outside the verified core. The core's part is to say which
//! uniform buffers change and what goes into them; `Renderer` queues those
//! writes for the host to carry out on the GPU.

use vstd::prelude::*;
use crate::handle::BufferHandle;
use crate::scalar::{Point3, Quaternion, Scalar, Vector2, Vector3};
use crate::transform::Transform;

verus! {

/// Marks the types whose values are contents of a uniform buffer.
pub trait UniformBuffer {
}

/// What a transform's uniform buffer is filled from: the host multiplies
/// the three factors into the matrix that the shader reads.
#[derive(Clone, Copy, Debug, PartialEq, Eq)]
pub struct TransformUniform {
    pub position: Vector3,
    pub rotation: Quaternion,
    pub scale: Vector3,
}

impl UniformBuffer for TransformUniform {
}

impl TransformUniform {
    /// The uniform of a transform that moves, turns and scales nothing.
    pub fn new() -> (u: TransformUniform)
        ensures
            u.position == (Vector3 { x: Scalar { bits: 0 }, y: Scalar { bits: 0 }, z: Scalar { bits: 0 } }),
            u.rotation == (Quaternion {
                s: Scalar { bits: 0x3F80_0000 },
                v: Vector3 { x: Scalar { bits: 0 }, y: Scalar { bits: 0 }, z: Scalar { bits: 0 } },
            }),
            u.scale == (Vector3 {
                x: Scalar { bits: 0x3F80_0000 },
                y: Scalar { bits: 0x3F80_0000 },
                z: Scalar { bits: 0x3F80_0000 },
            }),
    {
        TransformUniform {
            position: Vector3::zero(),
            rotation: Quaternion::identity(),
            scale: Vector3 { x: Scalar::one(), y: Scalar::one(), z: Scalar::one() },
        }
    }

    /// Takes the three factors of `transform`.
    pub fn update(&mut self, transform: &Transform)
        ensures
            *final(self) == transform_write(*transform).uniforms,
    {
        self.position = transform.position;
        self.rotation = transform.rotation;
        self.scale = transform.scale;
    }
}

/// What every full-screen pass is told: how large the screen is and how
/// much time has passed.
#[derive(Clone, Copy, Debug, PartialEq, Eq)]
#[allow(non_snake_case)]
pub struct BaseUniforms {
    pub iResolution: [Scalar; 2],
    pub iTime: Scalar,
}

impl UniformBuffer for BaseUniforms {
}

impl BaseUniforms {
    pub fn new() -> (u: BaseUniforms)
        ensures
            u.iResolution@ == seq![Scalar { bits: 0 }, Scalar { bits: 0 }],
            u.iTime == (Scalar { bits: 0 }),
    {
        BaseUniforms { iResolution: [Scalar::zero(), Scalar::zero()], iTime: Scalar::zero() }
    }

    pub fn update(&mut self, resolution: Vector2, time: Scalar)
        ensures
            final(self).iResolution@ == seq![resolution.x, resolution.y],
            final(self).iTime == time,
    {
        self.iResolution = [resolution.x, resolution.y];
        self.iTime = time;
    }
}

/// One write to a uniform buffer.
#[derive(Clone, Copy, Debug, PartialEq, Eq)]
pub struct BufferWrite {
    pub buffer: BufferHandle,
    pub offset: u64,
    pub uniforms: TransformUniform,
}

pub struct Renderer {
    pub writes: Vec<BufferWrite>,
}

impl View for Renderer {
    type V = Seq<BufferWrite>;

    open spec fn view(&self) -> Seq<BufferWrite> {
        self.writes@
    }
}

impl Renderer {
    pub fn new() -> (r: Renderer)
        ensures
            r@.len() == 0,
    {
        Renderer { writes: Vec::new() }
    }

    /// Queues a write of `uniforms` into `buffer` at `offset`.
    pub fn write_buffer(&mut self, buffer: &BufferHandle, offset: u64, uniforms: TransformUniform)
        ensures
            final(self)@ == old(self)@.push(BufferWrite { buffer: *buffer, offset, uniforms }),
    {
        self.writes.push(BufferWrite { buffer: *buffer, offset, uniforms });
    }

    /// Hands the queued writes to the host, oldest first, and leaves the
    /// queue empty.
    pub fn take_writes(&mut self) -> (writes: Vec<BufferWrite>)
        ensures
            writes@ == old(self)@,
            final(self)@.len() == 0,
    {
        let mut taken: Vec<BufferWrite> = Vec::new();
        std::mem::swap(&mut taken, &mut self.writes);
        taken
    }
}

/// The write that brings a transform's uniform buffer up to date.
pub open spec fn transform_write(transform: Transform) -> BufferWrite {
    BufferWrite {
        buffer: transform.buffer,
        offset: 0,
        uniforms: TransformUniform {
            position: transform.position,
            rotation: transform.rotation,
            scale: transform.scale,
        },
    }
}

impl Transform {
    /// Queues the write that brings the transform's uniform buffer up to
    /// date.
    pub fn update_uniform_buffers(&self, renderer: &mut Renderer)
        ensures
            final(renderer)@ == old(renderer)@.push(transform_write(*self)),
    {
        renderer.write_buffer(
            &self.buffer,
            0,
            TransformUniform { position: self.position, rotation: self.rotation, scale: self.scale },
        );
    }
}

/// Why a frame could not be presented.
#[derive(Clone, Copy, Debug, PartialEq, Eq)]
pub enum RenderError {
    Timeout,
    Outdated,
    Lost,
    OutOfMemory,
}

/// What the frame loop does after a frame.
#[derive(Clone, Copy, Debug, PartialEq, Eq)]
pub enum FrameAction {
    /// Go on with the next frame.
    Continue,
    /// Recreate the swap chain at the window's size, then go on.
    Recreate,
    /// Leave the frame loop.
    Exit,
}

/// What to do after a frame that ended as `result`: a lost swap chain is
/// recreated, running out of memory ends the loop, and anything else is left
/// to the next frame.
pub fn after_render(result: Result<(), RenderError>) -> (action: FrameAction)
    ensures
        action == match result {
            Err(RenderError::Lost) => FrameAction::Recreate,
            Err(RenderError::OutOfMemory) => FrameAction::Exit,
            _ => FrameAction::Continue,
        },
{
    match result {
        Ok(_) => FrameAction::Continue,
        Err(RenderError::Lost) => FrameAction::Recreate,
        Err(RenderError::OutOfMemory) => FrameAction::Exit,
        Err(_) => FrameAction::Continue,
    }
}

/// The eye through which the scene is drawn.
#[derive(Clone, Copy, Debug, PartialEq, Eq)]
pub struct Camera {
    pub eye: Point3,
    pub target: Point3,
    pub up: Vector3,
    pub aspect: Scalar,
    pub fovy: Scalar,
    pub znear: Scalar,
    pub zfar: Scalar,
    pub buffer: BufferHandle,
}

impl Camera {
    pub fn new(
        buffer: BufferHandle,
        eye: Point3,
        target: Point3,
        up: Vector3,
        aspect: Scalar,
        fovy: Scalar,
        znear: Scalar,
        zfar: Scalar,
    ) -> (c: Camera)
        ensures
            c == (Camera { eye, target, up, aspect, fovy, znear, zfar, buffer }),
    {
        Camera { eye, target, up, aspect, fovy, znear, zfar, buffer }
    }

    /// The camera after it has moved to `position`, looking at the point
    /// straight ahead of it at the depth of its old target.
    pub open spec fn moved(self, position: Point3) -> Camera {
        Camera { eye: position, target: Point3 { x: position.x, y: position.y, z: self.target.z }, ..self }
    }

    /// Moves the eye to `position` and the target along with it.
    pub fn move_camera(&mut self, position: Point3)
        ensures
            *final(self) == old(self).moved(position),
    {
        self.eye = position;
        self.target = Point3 { x: position.x, y: position.y, z: self.target.z };
    }

    pub fn get_buffer_reference(&self) -> (b: &BufferHandle)
        ensures
            *b == self.buffer,
    {
        &self.buffer
    }
}

/// The uniform of the bloom pass: which way the blur runs.
#[derive(Clone, Copy, Debug, PartialEq, Eq)]
pub struct BloomUniform {
    pub horizonal: u8,
}

impl UniformBuffer for BloomUniform {
}

/// `bytemuck::cast_slice` from bytes to bytes. Source and target elements
/// have the same size and alignment, so the cast cannot fail and yields the
/// bytes it was given.
#[verifier::external_body]
fn cast_bytes(values: &[u8]) -> (bytes: Vec<u8>)
    ensures
        bytes@ == values@,
{
    bytemuck::cast_slice::<u8, u8>(values).to_vec()
}

impl BloomUniform {
    pub fn new(horizonal: u8) -> (u: BloomUniform)
        ensures
            u.horizonal == horizonal,
    {
        BloomUniform { horizonal }
    }

    /// The uniform of the pass after this one: the blur turns from one
    /// direction to the other.
    pub fn toggled(&self) -> (u: BloomUniform)
        ensures
            u.horizonal == (if self.horizonal == 0 {
                1u8
            } else {
                0u8
            }),
    {
        if self.horizonal == 0 {
            BloomUniform { horizonal: 1 }
        } else {
            BloomUniform { horizonal: 0 }
        }
    }

    /// The bytes that the uniform buffer is created with: the one field.
    pub fn contents(&self) -> (bytes: Vec<u8>)
        ensures
            bytes@ == seq![self.horizonal],
    {
        let fields: [u8; 1] = [self.horizonal];
        cast_bytes(fields.as_slice())
    }
}

} // verus!
