//! The system that keeps bodies and transforms together.
//!
//! Before it looks at the world it asks for a simulation step. Then, for
//! every entity that has a body and a transform: a body that the simulation
//! moves gives its position and rotation to the transform, and a body that
//! the simulation does not move takes its position from the transform.

use vstd::prelude::*;
use crate::entity::{payload, with_payload, Entity, EntityView};
use crate::entity_manager::EntityManager;
use crate::input_manager::{InputManager, InputView};
use crate::movement_system::moved_body;
use crate::physics::{BodyType, Physics, PhysicsComponent, PhysicsView, PHYSICS_ID};
use crate::renderer::{transform_write, Camera, Renderer};
use crate::scalar::{Scalar, Vector2, Vector3, ZERO_BITS};
use crate::system::{
    faulted, is_step, pass_result, run_pass, state_of, EntityStep, Outcome, PassKind,
    PassState, Scratch, SystemBase, SystemFault, WorldView,
};
use crate::transform::{Transform, TRANSFORM_ID};

verus! {

/// How often the solver corrects velocities in one step.
pub const VELOCITY_ITERATIONS: i32 = 6;

/// How often the solver corrects positions in one step.
pub const POSITION_ITERATIONS: i32 = 2;

pub struct PhysicsSystem {
}

/// The transform after it has taken position and rotation from the body
/// with the given state: the body's plane is the plane of depth zero.
pub open spec fn followed(t: Transform, state: crate::physics::BodyState) -> Transform {
    Transform {
        position: Vector3 { x: state.position.x, y: state.position.y, z: Scalar { bits: ZERO_BITS } },
        rotation: state.rotation,
        ..t
    }
}

/// The pass brings the body and the transform of an entity together.
pub open spec fn sync_step(e: EntityView, s: PassState) -> EntityStep {
    match (payload::<PhysicsComponent>(e), payload::<Transform>(e)) {
        (Some(p), Some(t)) => {
            if !s.physics.is_live(p.handle) {
                faulted(e, s, SystemFault::MissingBody)
            } else {
                match p.body.body_type {
                    BodyType::Dynamic => {
                        let moved = followed(t, s.physics.bodies[p.handle.index as int].state);
                        EntityStep {
                            entity: with_payload(e, moved),
                            state: PassState { renderer: s.renderer.push(transform_write(moved)), ..s },
                        }
                    },
                    _ => {
                        let position = Vector2 { x: t.position.x, y: t.position.y };
                        EntityStep {
                            entity: with_payload(e, moved_body(p, s.physics, position)),
                            state: PassState {
                                physics: p.rebuilt(s.physics, moved_body(p, s.physics, position).body),
                                ..s
                            },
                        }
                    },
                }
            }
        },
        _ => faulted(e, s, SystemFault::MissingComponent),
    }
}

pub(crate) fn sync(
    entity: &mut Entity,
    renderer: &mut Renderer,
    physics: &mut Physics,
    camera: &mut Camera,
    scratch: &mut Scratch,
) -> (fault: Option<SystemFault>)
    ensures
        is_step(
            sync_step(old(entity)@, state_of(*old(renderer), *old(physics), *old(camera), *old(scratch), None)),
            final(entity)@,
            *final(renderer),
            *final(physics),
            *final(camera),
            *final(scratch),
            fault,
        ),
{
    let body = match entity.get_component::<PhysicsComponent>(PHYSICS_ID) {
        Ok(component) => *component,
        Err(_) => {
            return Some(SystemFault::MissingComponent);
        },
    };
    let position = match entity.get_component::<Transform>(TRANSFORM_ID) {
        Ok(transform) => transform.position,
        Err(_) => {
            return Some(SystemFault::MissingComponent);
        },
    };
    if !physics.has_body(body.handle) {
        return Some(SystemFault::MissingBody);
    }
    match body.body.body_type {
        BodyType::Dynamic => {
            let state = physics.bodies[body.handle.index].state;
            match entity.get_component_mut::<Transform>(TRANSFORM_ID) {
                Ok(transform) => {
                    transform.position = Vector3 { x: state.position.x, y: state.position.y, z: Scalar::zero() };
                    transform.rotation = state.rotation;
                    transform.update_uniform_buffers(renderer);
                    None
                },
                Err(_) => Some(SystemFault::MissingComponent),
            }
        },
        _ => {
            match entity.get_component_mut::<PhysicsComponent>(PHYSICS_ID) {
                Ok(component) => {
                    component.update_position(physics, Vector2 { x: position.x, y: position.y });
                    None
                },
                Err(_) => Some(SystemFault::MissingComponent),
            }
        },
    }
}

/// The tags of the entities that a physics system keeps together.
pub open spec fn body_tags() -> Seq<u32> {
    seq![PHYSICS_ID, TRANSFORM_ID]
}

impl PhysicsSystem {
    pub fn new() -> (s: PhysicsSystem) {
        PhysicsSystem {  }
    }
}

impl SystemBase for PhysicsSystem {
    /// A simulation step over `delta_time` has been asked for.
    open spec fn prepared(self, physics: PhysicsView, delta_time: Scalar) -> PhysicsView {
        physics.stepped(delta_time, VELOCITY_ITERATIONS, POSITION_ITERATIONS)
    }

    /// One pass over the entities with a body and a transform.
    open spec fn executed(self, world: WorldView, input: InputView, delta_time: Scalar) -> Outcome<Self> {
        let s0 = PassState {
            renderer: world.renderer,
            physics: world.physics,
            camera: world.camera,
            target: Vector3 { x: Scalar { bits: ZERO_BITS }, y: Scalar { bits: ZERO_BITS }, z: Scalar { bits: ZERO_BITS } },
            points: 0,
            fault: None,
        };
        let synced = pass_result(PassKind::Sync, body_tags(), world.entities, s0);
        Outcome {
            system: self,
            world: WorldView {
                renderer: synced.state.renderer,
                entities: synced.entities,
                physics: synced.state.physics,
                camera: synced.state.camera,
            },
            fault: synced.state.fault,
        }
    }

    fn prepare(&self, physics: &mut Physics, delta_time: Scalar) {
        physics.step(delta_time, VELOCITY_ITERATIONS, POSITION_ITERATIONS);
    }

    fn execute(
        &mut self,
        renderer: &mut Renderer,
        entity_manager: &mut EntityManager,
        input_manager: &InputManager,
        physics: &mut Physics,
        delta_time: Scalar,
        camera: &mut Camera,
    ) -> (r: Result<(), SystemFault>) {
        let bodies: [u32; 2] = [PHYSICS_ID, TRANSFORM_ID];
        assert(bodies@ =~= body_tags());
        let mut scratch = Scratch { target: Vector3::zero(), points: 0 };
        let synced = run_pass(
            PassKind::Sync,
            bodies.as_slice(),
            entity_manager,
            renderer,
            physics,
            camera,
            &mut scratch,
        );
        match synced {
            Some(fault) => Err(fault),
            None => Ok(()),
        }
    }
}

} // verus!
