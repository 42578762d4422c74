//! The system that moves the player as the keys say.
//!
//! The arrow keys and W, A, S, D give a direction along each axis. For every
//! entity that has a player intent, a transform and a body, the system pushes
//! the body that way (upwards only if the body stands on ground), puts the
//! body back at the spawn point and takes a point if the entity has fallen
//! below the fall line, and moves the camera to where the entity is.

use vstd::prelude::*;
use crate::entity::{lemma_first_index, lemma_update_same_tag, payload, with_payload, Entity, EntityView};
use crate::entity_manager::EntityManager;
use crate::input_manager::{
    ElementState, InputManager, InputView, KEY_A, KEY_D, KEY_DOWN, KEY_LEFT, KEY_RIGHT, KEY_S,
    KEY_UP, KEY_W,
};
use crate::movement::{PlayerMovementComponent, PLAYER_MOVEMENT_ID};
use crate::movement_system::moved_body;
use crate::physics::{Direction, Impulse, ObjectId, Physics, PhysicsComponent, PhysicsView, PHYSICS_ID};
use crate::renderer::{transform_write, Camera, Renderer};
use crate::scalar::{Point3, Scalar, Vector2, Vector3, ZERO_BITS};
use crate::system::{
    faulted, is_step, pass_result, run_pass, state_of, EntityStep, Outcome, PassKind,
    PassState, Scratch, SystemBase, SystemFault, WorldView,
};
use crate::transform::{Transform, TRANSFORM_ID};

verus! {

/// Bit pattern of `-15.0`: a player whose height is below this has fallen.
pub const PLAYER_FALL_LINE_BITS: u32 = 0xC170_0000;

/// Bit pattern of `-5.0`: below this height the keys give no vertical
/// direction.
pub const PLAYER_LEVEL_LINE_BITS: u32 = 0xC0A0_0000;

/// Bit pattern of `2.0`, the height of the player's spawn point.
pub const PLAYER_SPAWN_Y_BITS: u32 = 0x4000_0000;

/// Bit pattern of `10.0`, the distance at which the camera follows.
pub const CAMERA_DEPTH_BITS: u32 = 0x4120_0000;

/// The collision layer of the ground.
pub const GROUND_LAYER: ObjectId = 2;

pub struct PlayerMovementSystem {
}

/// The horizontal direction that the keys give: right if D or the right
/// arrow is down, else left if A or the left arrow is down.
pub open spec fn horizontal_of(input: InputView) -> Direction {
    if input.pressed(KEY_D) || input.pressed(KEY_RIGHT) {
        Direction::Positive
    } else if input.pressed(KEY_A) || input.pressed(KEY_LEFT) {
        Direction::Negative
    } else {
        Direction::Neutral
    }
}

/// The vertical direction that the keys give: down if S or the down arrow
/// is down, else up if W or the up arrow is down.
pub open spec fn vertical_of(input: InputView) -> Direction {
    if input.pressed(KEY_S) || input.pressed(KEY_DOWN) {
        Direction::Negative
    } else if input.pressed(KEY_W) || input.pressed(KEY_UP) {
        Direction::Positive
    } else {
        Direction::Neutral
    }
}

/// The direction to go on with after a look at one more key: the key's
/// direction if the key is down, else the direction so far.
fn turn(input_manager: &InputManager, key: u32, pressed: Direction, so_far: Direction) -> (d: Direction)
    ensures
        d == if input_manager@.pressed(key) {
            pressed
        } else {
            so_far
        },
{
    match input_manager.try_get_key_value(key) {
        Ok(v) => match v {
            ElementState::Pressed => pressed,
            ElementState::Released => so_far,
        },
        Err(_) => so_far,
    }
}

/// The horizontal direction that the keys give.
pub fn read_horizontal(input_manager: &InputManager) -> (d: Direction)
    ensures
        d == horizontal_of(input_manager@),
{
    let x = turn(input_manager, KEY_LEFT, Direction::Negative, Direction::Neutral);
    let x = turn(input_manager, KEY_A, Direction::Negative, x);
    let x = turn(input_manager, KEY_RIGHT, Direction::Positive, x);
    turn(input_manager, KEY_D, Direction::Positive, x)
}

/// The vertical direction that the keys give.
pub fn read_vertical(input_manager: &InputManager) -> (d: Direction)
    ensures
        d == vertical_of(input_manager@),
{
    let y = turn(input_manager, KEY_UP, Direction::Positive, Direction::Neutral);
    let y = turn(input_manager, KEY_W, Direction::Positive, y);
    let y = turn(input_manager, KEY_DOWN, Direction::Negative, y);
    turn(input_manager, KEY_S, Direction::Negative, y)
}

/// Where a fallen player is put back.
pub open spec fn player_spawn_point() -> Vector2 {
    Vector2 { x: Scalar { bits: ZERO_BITS }, y: Scalar { bits: PLAYER_SPAWN_Y_BITS } }
}

/// Where the camera goes when the player is at `position`.
pub open spec fn camera_post(position: Vector3) -> Point3 {
    Point3 { x: position.x, y: position.y, z: Scalar { bits: CAMERA_DEPTH_BITS } }
}

/// The pass moves one player.
pub open spec fn steer_step(e: EntityView, s: PassState, horizontal: Direction, vertical: Direction) -> EntityStep {
    match (payload::<Transform>(e), payload::<PlayerMovementComponent>(e), payload::<PhysicsComponent>(e)) {
        (Some(t), Some(c), Some(p)) => {
            let fallen = t.position.y.lt(Scalar { bits: PLAYER_FALL_LINE_BITS });
            let level = t.position.y.lt(Scalar { bits: PLAYER_LEVEL_LINE_BITS });
            if !s.physics.is_live(p.handle) {
                faulted(e, s, SystemFault::MissingBody)
            } else if fallen && c.points <= i32::MIN {
                faulted(e, s, SystemFault::ScoreOverflow)
            } else {
                let player = PlayerMovementComponent {
                    position: t.position,
                    points: if fallen {
                        (c.points - 1) as i32
                    } else {
                        c.points
                    },
                    ..c
                };
                let body = if fallen {
                    moved_body(p, s.physics, player_spawn_point())
                } else {
                    p
                };
                let world = if fallen {
                    p.rebuilt(s.physics, body.body)
                } else {
                    s.physics
                };
                EntityStep {
                    entity: with_payload(with_payload(e, player), body),
                    state: PassState {
                        renderer: s.renderer.push(transform_write(t)),
                        physics: world.impulse_applied(
                            body.handle,
                            Impulse::Steer {
                                horizontal,
                                vertical: if level {
                                    Direction::Neutral
                                } else {
                                    vertical
                                },
                                speed: c.speed,
                                grounded: s.physics.collides(GROUND_LAYER, p.handle),
                            },
                        ),
                        camera: s.camera.moved(camera_post(t.position)),
                        ..s
                    },
                }
            }
        },
        _ => faulted(e, s, SystemFault::MissingComponent),
    }
}

pub(crate) fn steer(
    entity: &mut Entity,
    renderer: &mut Renderer,
    physics: &mut Physics,
    camera: &mut Camera,
    scratch: &mut Scratch,
    horizontal: Direction,
    vertical: Direction,
) -> (fault: Option<SystemFault>)
    ensures
        is_step(
            steer_step(
                old(entity)@,
                state_of(*old(renderer), *old(physics), *old(camera), *old(scratch), None),
                horizontal,
                vertical,
            ),
            final(entity)@,
            *final(renderer),
            *final(physics),
            *final(camera),
            *final(scratch),
            fault,
        ),
{
    let transform = match entity.get_component::<Transform>(TRANSFORM_ID) {
        Ok(transform) => *transform,
        Err(_) => {
            return Some(SystemFault::MissingComponent);
        },
    };
    let player = match entity.get_component::<PlayerMovementComponent>(PLAYER_MOVEMENT_ID) {
        Ok(component) => *component,
        Err(_) => {
            return Some(SystemFault::MissingComponent);
        },
    };
    let body = match entity.get_component::<PhysicsComponent>(PHYSICS_ID) {
        Ok(component) => *component,
        Err(_) => {
            return Some(SystemFault::MissingComponent);
        },
    };
    let reset_pos = transform.position.y.less_than(&Scalar::from_bits(PLAYER_FALL_LINE_BITS));
    let level = transform.position.y.less_than(&Scalar::from_bits(PLAYER_LEVEL_LINE_BITS));
    if !physics.has_body(body.handle) {
        return Some(SystemFault::MissingBody);
    }
    if reset_pos && player.points == i32::MIN {
        return Some(SystemFault::ScoreOverflow);
    }
    let vertical = if level {
        Direction::Neutral
    } else {
        vertical
    };
    let grounded = physics.check_collision(GROUND_LAYER, body.handle);
    let ghost before = entity@;
    match entity.get_component_mut::<PlayerMovementComponent>(PLAYER_MOVEMENT_ID) {
        Ok(component) => {
            component.position = transform.position;
            if reset_pos {
                component.points = component.points - 1;
            }
        },
        Err(_) => {
            return Some(SystemFault::MissingComponent);
        },
    }
    proof {
        lemma_first_index(before.components, PLAYER_MOVEMENT_ID);
        lemma_update_same_tag(
            before.components,
            crate::entity::first_index(before.components, PLAYER_MOVEMENT_ID),
            entity@.components[crate::entity::first_index(before.components, PLAYER_MOVEMENT_ID)],
            PHYSICS_ID,
        );
    }
    camera.move_camera(
        Point3 { x: transform.position.x, y: transform.position.y, z: Scalar::from_bits(CAMERA_DEPTH_BITS) },
    );
    transform.update_uniform_buffers(renderer);
    match entity.get_component_mut::<PhysicsComponent>(PHYSICS_ID) {
        Ok(phys_ref) => {
            if reset_pos {
                phys_ref.update_position(
                    physics,
                    Vector2 { x: Scalar::zero(), y: Scalar::from_bits(PLAYER_SPAWN_Y_BITS) },
                );
            }
            physics.apply_linear_impulse(
                phys_ref.handle,
                Impulse::Steer { horizontal, vertical, speed: player.speed, grounded },
            );
            None
        },
        Err(_) => Some(SystemFault::MissingComponent),
    }
}

/// The tags of the entities that a player movement system moves.
pub open spec fn steered_tags() -> Seq<u32> {
    seq![PLAYER_MOVEMENT_ID, TRANSFORM_ID, PHYSICS_ID]
}

impl PlayerMovementSystem {
    pub fn new() -> (s: PlayerMovementSystem) {
        PlayerMovementSystem {  }
    }
}

impl SystemBase for PlayerMovementSystem {
    open spec fn prepared(self, physics: PhysicsView, delta_time: Scalar) -> PhysicsView {
        physics
    }

    /// One pass over the entities with a player intent, a transform and a
    /// body, in the directions that the keys give.
    open spec fn executed(self, world: WorldView, input: InputView, delta_time: Scalar) -> Outcome<Self> {
        let s0 = PassState {
            renderer: world.renderer,
            physics: world.physics,
            camera: world.camera,
            target: Vector3 { x: Scalar { bits: ZERO_BITS }, y: Scalar { bits: ZERO_BITS }, z: Scalar { bits: ZERO_BITS } },
            points: 0,
            fault: None,
        };
        let steered = pass_result(
            PassKind::Steer { horizontal: horizontal_of(input), vertical: vertical_of(input) },
            steered_tags(),
            world.entities,
            s0,
        );
        Outcome {
            system: self,
            world: WorldView {
                renderer: steered.state.renderer,
                entities: steered.entities,
                physics: steered.state.physics,
                camera: steered.state.camera,
            },
            fault: steered.state.fault,
        }
    }

    fn prepare(&self, physics: &mut Physics, delta_time: Scalar) {
    }

    fn execute(
        &mut self,
        renderer: &mut Renderer,
        entity_manager: &mut EntityManager,
        input_manager: &InputManager,
        physics: &mut Physics,
        delta_time: Scalar,
        camera: &mut Camera,
    ) -> (r: Result<(), SystemFault>) {
        let steered: [u32; 3] = [PLAYER_MOVEMENT_ID, TRANSFORM_ID, PHYSICS_ID];
        assert(steered@ =~= steered_tags());
        let horizontal = read_horizontal(input_manager);
        let vertical = read_vertical(input_manager);
        let mut scratch = Scratch { target: Vector3::zero(), points: 0 };
        let fault = run_pass(
            PassKind::Steer { horizontal, vertical },
            steered.as_slice(),
            entity_manager,
            renderer,
            physics,
            camera,
            &mut scratch,
        );
        match fault {
            Some(fault) => Err(fault),
            None => Ok(()),
        }
    }
}

} // verus!
