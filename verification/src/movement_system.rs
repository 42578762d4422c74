//! The system that drives the entities that chase the player.
//!
//! It notes where the player is, pushes every entity that has a movement
//! intent, a transform and a body towards the player,
//! puts back at the spawn point every such entity that has fallen below the
//! fall line, and credits the player with a point for each one put back.

use vstd::prelude::*;
use crate::entity::{payload, with_payload, Entity, EntityView};
use crate::entity_manager::EntityManager;
use crate::input_manager::{InputManager, InputView};
use crate::movement::{MovementComponent, PlayerMovementComponent, MOVEMENT_ID, PLAYER_MOVEMENT_ID};
use crate::physics::{BodyDef, Impulse, Physics, PhysicsComponent, PhysicsView, PHYSICS_ID};
use crate::renderer::{transform_write, Camera, Renderer};
use crate::scalar::{Scalar, Vector2, Vector3, ZERO_BITS};
use crate::system::{
    faulted, is_step, pass_result, run_pass, state_of, EntityStep, Outcome, PassKind,
    PassState, Scratch, SystemBase, SystemFault, WorldView,
};
use crate::transform::{Transform, TRANSFORM_ID};

verus! {

/// Bit pattern of `-10.0`: an entity whose height is below this has fallen.
pub const FALL_LINE_BITS: u32 = 0xC120_0000;

/// Bit pattern of `-5.0`: below this height pushes have no vertical part.
pub const LEVEL_LINE_BITS: u32 = 0xC0A0_0000;

/// Bit pattern of `5.0`, the height of the spawn point.
pub const SPAWN_Y_BITS: u32 = 0x40A0_0000;

pub struct MovementSystem {
    pub x: Scalar,
    /// Where the player was last seen.
    pub move_dir: Vector3,
}

/// Where a fallen entity is put back.
pub open spec fn spawn_point() -> Vector2 {
    Vector2 { x: Scalar { bits: ZERO_BITS }, y: Scalar { bits: SPAWN_Y_BITS } }
}

/// The physics component after its body has been rebuilt at `position` in
/// the given world.
pub open spec fn moved_body(p: PhysicsComponent, physics: PhysicsView, position: Vector2) -> PhysicsComponent {
    PhysicsComponent { handle: physics.next_handle(), body: BodyDef { position, ..p.body }, ..p }
}

/// The pass notes the position of a player.
pub open spec fn track_step(e: EntityView, s: PassState) -> EntityStep {
    match payload::<PlayerMovementComponent>(e) {
        Some(c) => EntityStep { entity: e, state: PassState { target: c.position, ..s } },
        None => EntityStep { entity: e, state: s },
    }
}

/// The pass pushes a chasing entity, and puts it back at the spawn point if
/// it has fallen. An entity without movement intent or transform is passed
/// over.
pub open spec fn chase_step(e: EntityView, s: PassState, delta_time: Scalar) -> EntityStep {
    match (payload::<MovementComponent>(e), payload::<Transform>(e)) {
        (Some(m), Some(t)) => match payload::<PhysicsComponent>(e) {
            None => faulted(e, s, SystemFault::MissingComponent),
            Some(p) => {
                let fallen = t.position.y.lt(Scalar { bits: FALL_LINE_BITS });
                let level = t.position.y.lt(Scalar { bits: LEVEL_LINE_BITS });
                if !s.physics.is_live(p.handle) {
                    faulted(e, s, SystemFault::MissingBody)
                } else if fallen && s.points >= i32::MAX {
                    faulted(e, s, SystemFault::ScoreOverflow)
                } else {
                    let body = if fallen {
                        moved_body(p, s.physics, spawn_point())
                    } else {
                        p
                    };
                    let world = if fallen {
                        p.rebuilt(s.physics, body.body)
                    } else {
                        s.physics
                    };
                    EntityStep {
                        entity: with_payload(e, body),
                        state: PassState {
                            renderer: s.renderer.push(transform_write(t)),
                            physics: world.impulse_applied(
                                body.handle,
                                Impulse::Chase {
                                    position: t.position,
                                    target: s.target,
                                    speed: m.speed,
                                    delta_time,
                                    level,
                                },
                            ),
                            points: if fallen {
                                s.points + 1
                            } else {
                                s.points
                            },
                            ..s
                        },
                    }
                }
            },
        },
        _ => EntityStep { entity: e, state: s },
    }
}

/// The pass adds the points of the frame to a player's score.
pub open spec fn award_step(e: EntityView, s: PassState) -> EntityStep {
    match payload::<PlayerMovementComponent>(e) {
        Some(c) => if i32::MIN <= c.points + s.points <= i32::MAX {
            EntityStep {
                entity: with_payload(e, PlayerMovementComponent { points: (c.points + s.points) as i32, ..c }),
                state: s,
            }
        } else {
            faulted(e, s, SystemFault::ScoreOverflow)
        },
        None => EntityStep { entity: e, state: s },
    }
}

pub(crate) fn track(
    entity: &mut Entity,
    renderer: &mut Renderer,
    physics: &mut Physics,
    camera: &mut Camera,
    scratch: &mut Scratch,
) -> (fault: Option<SystemFault>)
    ensures
        is_step(
            track_step(old(entity)@, state_of(*old(renderer), *old(physics), *old(camera), *old(scratch), None)),
            final(entity)@,
            *final(renderer),
            *final(physics),
            *final(camera),
            *final(scratch),
            fault,
        ),
{
    if entity.try_find_component(PLAYER_MOVEMENT_ID).is_ok() {
        match entity.get_component::<PlayerMovementComponent>(PLAYER_MOVEMENT_ID) {
            Ok(component) => {
                scratch.target = component.position;
            },
            Err(_) => {},
        }
    }
    None
}

pub(crate) fn chase(
    entity: &mut Entity,
    renderer: &mut Renderer,
    physics: &mut Physics,
    camera: &mut Camera,
    scratch: &mut Scratch,
    delta_time: Scalar,
) -> (fault: Option<SystemFault>)
    ensures
        is_step(
            chase_step(
                old(entity)@,
                state_of(*old(renderer), *old(physics), *old(camera), *old(scratch), None),
                delta_time,
            ),
            final(entity)@,
            *final(renderer),
            *final(physics),
            *final(camera),
            *final(scratch),
            fault,
        ),
{
    let speed = match entity.get_component::<MovementComponent>(MOVEMENT_ID) {
        Ok(v) => v.speed,
        Err(_) => {
            return None;
        },
    };
    let transform = match entity.get_component::<Transform>(TRANSFORM_ID) {
        Ok(transform) => *transform,
        Err(_) => {
            return None;
        },
    };
    let reset_pos = transform.position.y.less_than(&Scalar::from_bits(FALL_LINE_BITS));
    let level = transform.position.y.less_than(&Scalar::from_bits(LEVEL_LINE_BITS));
    let target = scratch.target;
    let phys_ref = match entity.get_component_mut::<PhysicsComponent>(PHYSICS_ID) {
        Ok(component) => component,
        Err(_) => {
            return Some(SystemFault::MissingComponent);
        },
    };
    if !physics.has_body(phys_ref.handle) {
        return Some(SystemFault::MissingBody);
    }
    if reset_pos && scratch.points == i32::MAX {
        return Some(SystemFault::ScoreOverflow);
    }
    transform.update_uniform_buffers(renderer);
    if reset_pos {
        phys_ref.update_position(
            physics,
            Vector2 { x: Scalar::zero(), y: Scalar::from_bits(SPAWN_Y_BITS) },
        );
        scratch.points = scratch.points + 1;
    }
    physics.apply_linear_impulse(
        phys_ref.handle,
        Impulse::Chase { position: transform.position, target, speed, delta_time, level },
    );
    None
}

pub(crate) fn award(
    entity: &mut Entity,
    renderer: &mut Renderer,
    physics: &mut Physics,
    camera: &mut Camera,
    scratch: &mut Scratch,
) -> (fault: Option<SystemFault>)
    ensures
        is_step(
            award_step(old(entity)@, state_of(*old(renderer), *old(physics), *old(camera), *old(scratch), None)),
            final(entity)@,
            *final(renderer),
            *final(physics),
            *final(camera),
            *final(scratch),
            fault,
        ),
{
    let points = scratch.points;
    match entity.get_component_mut::<PlayerMovementComponent>(PLAYER_MOVEMENT_ID) {
        Ok(component) => match component.points.checked_add(points) {
            Some(total) => {
                component.points = total;
                None
            },
            None => Some(SystemFault::ScoreOverflow),
        },
        Err(_) => None,
    }
}

/// The tags of the entities that a movement system chases with.
pub open spec fn chaser_tags() -> Seq<u32> {
    seq![MOVEMENT_ID, TRANSFORM_ID, PHYSICS_ID]
}

/// The tag of the entities that a movement system takes for players.
pub open spec fn player_tags() -> Seq<u32> {
    seq![PLAYER_MOVEMENT_ID]
}

impl MovementSystem {
    pub fn new() -> (s: MovementSystem)
        ensures
            s.x == (Scalar { bits: ZERO_BITS }),
            s.move_dir == (Vector3 {
                x: Scalar { bits: ZERO_BITS },
                y: Scalar { bits: ZERO_BITS },
                z: Scalar { bits: ZERO_BITS },
            }),
    {
        MovementSystem { x: Scalar::zero(), move_dir: Vector3::zero() }
    }
}

impl SystemBase for MovementSystem {
    open spec fn prepared(self, physics: PhysicsView, delta_time: Scalar) -> PhysicsView {
        physics
    }

    /// Three passes: over the players, to note where the last of them is;
    /// over the chasers, to push them and put the fallen back; and, unless
    /// that broke off, over the players again, to credit them with a point
    /// for each chaser put back.
    open spec fn executed(self, world: WorldView, input: InputView, delta_time: Scalar) -> Outcome<Self> {
        let s0 = PassState {
            renderer: world.renderer,
            physics: world.physics,
            camera: world.camera,
            target: self.move_dir,
            points: 0,
            fault: None,
        };
        let noted = pass_result(PassKind::Track, player_tags(), world.entities, s0);
        let chased = pass_result(PassKind::Chase { delta_time }, chaser_tags(), noted.entities, noted.state);
        let awarded = if chased.state.fault is Some {
            chased
        } else {
            pass_result(PassKind::Award, player_tags(), chased.entities, chased.state)
        };
        Outcome {
            system: MovementSystem { x: self.x, move_dir: noted.state.target },
            world: WorldView {
                renderer: awarded.state.renderer,
                entities: awarded.entities,
                physics: awarded.state.physics,
                camera: awarded.state.camera,
            },
            fault: awarded.state.fault,
        }
    }

    fn prepare(&self, physics: &mut Physics, delta_time: Scalar) {
    }

    fn execute(
        &mut self,
        renderer: &mut Renderer,
        entity_manager: &mut EntityManager,
        input_manager: &InputManager,
        physics: &mut Physics,
        delta_time: Scalar,
        camera: &mut Camera,
    ) -> (r: Result<(), SystemFault>) {
        let players: [u32; 1] = [PLAYER_MOVEMENT_ID];
        let chasers: [u32; 3] = [MOVEMENT_ID, TRANSFORM_ID, PHYSICS_ID];
        assert(players@ =~= player_tags());
        assert(chasers@ =~= chaser_tags());
        let mut scratch = Scratch { target: self.move_dir, points: 0 };
        let noted = run_pass(
            PassKind::Track,
            players.as_slice(),
            entity_manager,
            renderer,
            physics,
            camera,
            &mut scratch,
        );
        proof {
            lemma_track_never_faults(
                player_tags(),
                old(entity_manager)@,
                state_of(*old(renderer), *old(physics), *old(camera), Scratch { target: old(self).move_dir, points: 0 }, None),
            );
        }
        self.move_dir = scratch.target;
        let chased = run_pass(
            PassKind::Chase { delta_time },
            chasers.as_slice(),
            entity_manager,
            renderer,
            physics,
            camera,
            &mut scratch,
        );
        match chased {
            Some(fault) => Err(fault),
            None => {
                let awarded = run_pass(
                    PassKind::Award,
                    players.as_slice(),
                    entity_manager,
                    renderer,
                    physics,
                    camera,
                    &mut scratch,
                );
                match awarded {
                    Some(fault) => Err(fault),
                    None => Ok(()),
                }
            },
        }
    }
}

/// Noting where the player is cannot fail.
pub proof fn lemma_track_never_faults(tags: Seq<u32>, entities: Seq<EntityView>, s0: PassState)
    requires
        s0.fault is None,
    ensures
        pass_result(PassKind::Track, tags, entities, s0).state.fault is None,
{
    let slots = crate::entity_manager::slots_with_types(entities, tags);
    lemma_track_state(crate::entity_manager::gather(entities, slots), slots.len() as int, s0);
}

proof fn lemma_track_state(matched: Seq<EntityView>, k: int, s0: PassState)
    requires
        s0.fault is None,
    ensures
        crate::system::pass_state(PassKind::Track, matched, k, s0).fault is None,
    decreases k,
{
    if k > 0 {
        lemma_track_state(matched, k - 1, s0);
    }
}

} // verus!
