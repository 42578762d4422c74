use ecs_engine::component::{Component, ComponentBase};
use ecs_engine::entity_manager::EntityManager;
use ecs_engine::handle::{BodyHandle, BufferHandle};
use ecs_engine::input_manager::{
    ElementState, InputEvent, InputManager, KEY_A, KEY_D, KEY_DOWN, KEY_LEFT, KEY_RIGHT, KEY_S,
    KEY_UP, KEY_W,
};
use ecs_engine::movement::{MovementComponent, PlayerMovementComponent, PLAYER_MOVEMENT_ID};
use ecs_engine::movement_system::MovementSystem;
use ecs_engine::physics::{
    BodyDef, BodyState, BodyType, Contact, Direction, Impulse, Physics, PhysicsCommand,
    PhysicsComponent, PHYSICS_ID,
};
use ecs_engine::physics_system::PhysicsSystem;
use ecs_engine::player_movement_system::{read_horizontal, read_vertical, PlayerMovementSystem};
use ecs_engine::renderer::{BufferWrite, Camera, Renderer, TransformUniform};
use ecs_engine::scalar::{Point3, Quaternion, Scalar, Vector2, Vector3};
use ecs_engine::system::{SystemBase, SystemFault};
use ecs_engine::system_manager::{GameSystem, SystemManager};
use ecs_engine::transform::{Transform, TRANSFORM_ID};

fn s(x: f32) -> Scalar {
    Scalar::from_bits(x.to_bits())
}

fn f(x: Scalar) -> f32 {
    f32::from_bits(x.to_bits())
}

fn v2(x: f32, y: f32) -> Vector2 {
    Vector2::new(s(x), s(y))
}

fn v3(x: f32, y: f32, z: f32) -> Vector3 {
    Vector3::new(s(x), s(y), s(z))
}

struct World {
    renderer: Renderer,
    entities: EntityManager,
    input: InputManager,
    physics: Physics,
    camera: Camera,
}

fn world() -> World {
    World {
        renderer: Renderer::new(),
        entities: EntityManager::new(),
        input: InputManager::new(),
        physics: Physics::new(),
        camera: Camera::new(
            BufferHandle { index: 0 },
            Point3::new(s(0.0), s(0.0), s(10.0)),
            Point3::new(s(0.0), s(0.0), s(0.0)),
            v3(0.0, 1.0, 0.0),
            s(1.5),
            s(45.0),
            s(0.1),
            s(100.0),
        ),
    }
}

fn transform(buffer: usize, x: f32, y: f32) -> Transform {
    Transform::new(BufferHandle { index: buffer }, v3(x, y, 0.0), Quaternion::identity(), v3(1.0, 1.0, 1.0))
}

fn body(w: &mut World, x: f32, y: f32, body_type: BodyType, layer: u32) -> PhysicsComponent {
    PhysicsComponent::new_box(&mut w.physics, v3(x, y, 0.0), (s(1.0), s(1.0)), s(1.0), body_type, layer, true)
}

fn chaser(w: &mut World, buffer: usize, x: f32, y: f32, speed: f32) -> usize {
    let b = body(w, x, y, BodyType::Dynamic, 0);
    w.entities.create_entity(
        vec![
            transform(buffer, x, y).into_component(),
            b.into_component(),
            MovementComponent::new(s(speed)).into_component(),
        ],
        vec![],
    )
}

fn player(w: &mut World, buffer: usize, x: f32, y: f32, speed: f32) -> usize {
    let b = body(w, x, y, BodyType::Dynamic, 1);
    let mut intent = PlayerMovementComponent::new(s(speed));
    intent.position = v3(x, y, 0.0);
    w.entities.create_entity(
        vec![intent.into_component(), transform(buffer, x, y).into_component(), b.into_component()],
        vec![],
    )
}

fn transform_of(w: &World, id: usize) -> Transform {
    *w.entities.entities[id].get_component::<Transform>(TRANSFORM_ID).unwrap()
}

fn body_of(w: &World, id: usize) -> PhysicsComponent {
    *w.entities.entities[id].get_component::<PhysicsComponent>(PHYSICS_ID).unwrap()
}

fn player_of(w: &World, id: usize) -> PlayerMovementComponent {
    *w.entities.entities[id].get_component::<PlayerMovementComponent>(PLAYER_MOVEMENT_ID).unwrap()
}

fn run(system: &mut dyn FnMut(&mut World) -> Result<(), SystemFault>, w: &mut World) -> Result<(), SystemFault> {
    system(w)
}

fn run_movement(m: &mut MovementSystem, w: &mut World, dt: f32) -> Result<(), SystemFault> {
    m.execute(&mut w.renderer, &mut w.entities, &w.input, &mut w.physics, s(dt), &mut w.camera)
}

fn run_physics(p: &mut PhysicsSystem, w: &mut World, dt: f32) -> Result<(), SystemFault> {
    p.prepare(&mut w.physics, s(dt));
    p.execute(&mut w.renderer, &mut w.entities, &w.input, &mut w.physics, s(dt), &mut w.camera)
}

fn run_player(p: &mut PlayerMovementSystem, w: &mut World, dt: f32) -> Result<(), SystemFault> {
    p.execute(&mut w.renderer, &mut w.entities, &w.input, &mut w.physics, s(dt), &mut w.camera)
}

fn press(w: &mut World, key: u32) {
    w.input.update(&InputEvent::KeyboardInput { state: ElementState::Pressed, virtual_keycode: Some(key) });
}

fn release(w: &mut World, key: u32) {
    w.input.update(&InputEvent::KeyboardInput { state: ElementState::Released, virtual_keycode: Some(key) });
}

#[test]
fn a_fallen_chaser_is_put_back_at_the_spawn_point_and_scores_one_point() {
    let mut w = world();
    let a = chaser(&mut w, 1, 0.0, -20.0, 2.0);
    let p = player(&mut w, 2, 3.0, 0.0, 5.0);
    let old_handle = body_of(&w, a).handle;
    w.physics.take_commands();
    let mut system = MovementSystem::new();
    assert_eq!(run_movement(&mut system, &mut w, 0.5), Ok(()));
    let rebuilt = body_of(&w, a);
    assert_eq!(rebuilt.body.position, v2(0.0, 5.0));
    assert_ne!(rebuilt.handle, old_handle);
    assert!(!w.physics.has_body(old_handle));
    assert!(w.physics.has_body(rebuilt.handle));
    assert_eq!(w.physics.bodies[rebuilt.handle.index].state.position, v2(0.0, 5.0));
    assert_eq!(w.physics.bodies[rebuilt.handle.index].layer, Some(0));
    assert_eq!(
        w.physics.commands,
        vec![
            PhysicsCommand::DestroyBody { handle: old_handle },
            PhysicsCommand::CreateBody { handle: rebuilt.handle, def: rebuilt.body },
            PhysicsCommand::CreateFixture {
                handle: rebuilt.handle,
                shape: rebuilt.shape,
                density: s(1.0),
                friction: s(0.3)
            },
            PhysicsCommand::SetUserData { handle: rebuilt.handle, layer: Some(0) },
            PhysicsCommand::ApplyLinearImpulse {
                handle: rebuilt.handle,
                impulse: Impulse::Chase {
                    position: v3(0.0, -20.0, 0.0),
                    target: v3(3.0, 0.0, 0.0),
                    speed: s(2.0),
                    delta_time: s(0.5),
                    level: true,
                },
                wake: true,
            },
        ]
    );
    assert_eq!(player_of(&w, p).points, 1);
    assert_eq!(transform_of(&w, a).position, v3(0.0, -20.0, 0.0));
    assert_eq!(system.move_dir, v3(3.0, 0.0, 0.0));
}

#[test]
fn a_chaser_above_the_fall_line_is_pushed_and_stays() {
    let mut w = world();
    let a = chaser(&mut w, 1, 4.0, -10.0, 2.0);
    let p = player(&mut w, 2, 3.0, 1.0, 5.0);
    let handle = body_of(&w, a).handle;
    w.physics.take_commands();
    let mut system = MovementSystem::new();
    assert_eq!(run_movement(&mut system, &mut w, 0.25), Ok(()));
    assert_eq!(body_of(&w, a).handle, handle);
    assert_eq!(body_of(&w, a).body.position, v2(4.0, -10.0));
    assert_eq!(
        w.physics.commands,
        vec![PhysicsCommand::ApplyLinearImpulse {
            handle,
            impulse: Impulse::Chase {
                position: v3(4.0, -10.0, 0.0),
                target: v3(3.0, 1.0, 0.0),
                speed: s(2.0),
                delta_time: s(0.25),
                level: true,
            },
            wake: true,
        }]
    );
    assert_eq!(player_of(&w, p).points, 0);
}

#[test]
fn pushes_have_a_vertical_part_above_the_level_line() {
    let mut w = world();
    let a = chaser(&mut w, 1, 4.0, -5.0, 2.0);
    let handle = body_of(&w, a).handle;
    w.physics.take_commands();
    let mut system = MovementSystem::new();
    assert_eq!(run_movement(&mut system, &mut w, 1.0), Ok(()));
    assert_eq!(
        w.physics.commands,
        vec![PhysicsCommand::ApplyLinearImpulse {
            handle,
            impulse: Impulse::Chase {
                position: v3(4.0, -5.0, 0.0),
                target: v3(0.0, 0.0, 0.0),
                speed: s(2.0),
                delta_time: s(1.0),
                level: false,
            },
            wake: true,
        }]
    );
}

#[test]
fn the_movement_system_uploads_each_chasers_transform() {
    let mut w = world();
    chaser(&mut w, 7, 1.0, 2.0, 2.0);
    chaser(&mut w, 8, 3.0, 4.0, 2.0);
    let mut system = MovementSystem::new();
    assert_eq!(run_movement(&mut system, &mut w, 1.0), Ok(()));
    let write = |buffer: usize, x: f32, y: f32| BufferWrite {
        buffer: BufferHandle { index: buffer },
        offset: 0,
        uniforms: TransformUniform {
            position: v3(x, y, 0.0),
            rotation: Quaternion::identity(),
            scale: v3(1.0, 1.0, 1.0),
        },
    };
    assert_eq!(w.renderer.writes, vec![write(7, 1.0, 2.0), write(8, 3.0, 4.0)]);
    let taken = w.renderer.take_writes();
    assert_eq!(taken.len(), 2);
    assert!(w.renderer.writes.is_empty());
}

#[test]
fn every_fallen_chaser_scores_and_every_player_is_credited() {
    let mut w = world();
    chaser(&mut w, 1, 0.0, -11.0, 1.0);
    let player_a = player(&mut w, 2, 1.0, 0.0, 5.0);
    chaser(&mut w, 3, 0.0, -9.0, 1.0);
    chaser(&mut w, 4, 0.0, -100.0, 1.0);
    let player_b = player(&mut w, 5, 2.0, 0.0, 5.0);
    w.entities.entities[player_b].get_component_mut::<PlayerMovementComponent>(PLAYER_MOVEMENT_ID).unwrap().points = 40;
    let mut system = MovementSystem::new();
    assert_eq!(run_movement(&mut system, &mut w, 1.0), Ok(()));
    assert_eq!(player_of(&w, player_a).points, 2);
    assert_eq!(player_of(&w, player_b).points, 42);
    assert_eq!(system.move_dir, v3(2.0, 0.0, 0.0));
}

#[test]
fn entities_without_movement_intent_are_not_chasers() {
    let mut w = world();
    let b = body(&mut w, 0.0, -20.0, BodyType::Dynamic, 0);
    let a = w.entities.create_entity(vec![transform(1, 0.0, -20.0).into_component(), b.into_component()], vec![]);
    w.physics.take_commands();
    let mut system = MovementSystem::new();
    assert_eq!(run_movement(&mut system, &mut w, 1.0), Ok(()));
    assert!(w.physics.commands.is_empty());
    assert!(w.renderer.writes.is_empty());
    assert_eq!(body_of(&w, a).body.position, v2(0.0, -20.0));
}

#[test]
fn a_body_that_is_gone_is_a_fault() {
    let mut w = world();
    let a = chaser(&mut w, 1, 0.0, 0.0, 1.0);
    w.physics.destroy_body(body_of(&w, a).handle);
    let mut movement = MovementSystem::new();
    assert_eq!(run_movement(&mut movement, &mut w, 1.0), Err(SystemFault::MissingBody));
    let mut physics = PhysicsSystem::new();
    assert_eq!(run_physics(&mut physics, &mut w, 1.0), Err(SystemFault::MissingBody));
    let mut w = world();
    let p = player(&mut w, 1, 0.0, 0.0, 1.0);
    w.physics.destroy_body(body_of(&w, p).handle);
    let mut steering = PlayerMovementSystem::new();
    assert_eq!(run_player(&mut steering, &mut w, 1.0), Err(SystemFault::MissingBody));
}

#[test]
fn a_score_that_leaves_its_range_is_a_fault() {
    let mut w = world();
    chaser(&mut w, 1, 0.0, -20.0, 1.0);
    let p = player(&mut w, 2, 0.0, 0.0, 1.0);
    w.entities.entities[p].get_component_mut::<PlayerMovementComponent>(PLAYER_MOVEMENT_ID).unwrap().points =
        i32::MAX;
    let mut movement = MovementSystem::new();
    assert_eq!(run_movement(&mut movement, &mut w, 1.0), Err(SystemFault::ScoreOverflow));
    assert_eq!(player_of(&w, p).points, i32::MAX);
    let mut w = world();
    let p = player(&mut w, 1, 0.0, -20.0, 1.0);
    w.entities.entities[p].get_component_mut::<PlayerMovementComponent>(PLAYER_MOVEMENT_ID).unwrap().points =
        i32::MIN;
    let handle = body_of(&w, p).handle;
    let mut steering = PlayerMovementSystem::new();
    assert_eq!(run_player(&mut steering, &mut w, 1.0), Err(SystemFault::ScoreOverflow));
    assert_eq!(player_of(&w, p).points, i32::MIN);
    assert_eq!(body_of(&w, p).handle, handle);
}

#[test]
fn an_entity_that_shares_an_id_but_lacks_a_component_is_a_fault() {
    let mut w = world();
    let a = chaser(&mut w, 1, 0.0, 0.0, 1.0);
    let bare = w.entities.create_entity(vec![transform(2, 0.0, 0.0).into_component()], vec![]);
    w.entities.entities[bare].id = a;
    let mut physics = PhysicsSystem::new();
    assert_eq!(run_physics(&mut physics, &mut w, 1.0), Err(SystemFault::MissingComponent));
}

#[test]
fn the_physics_system_asks_for_a_step_before_it_looks() {
    let mut w = world();
    let system = PhysicsSystem::new();
    system.prepare(&mut w.physics, s(0.016));
    assert_eq!(
        w.physics.commands,
        vec![PhysicsCommand::Step { delta_time: s(0.016), velocity_iterations: 6, position_iterations: 2 }]
    );
    let movement = MovementSystem::new();
    movement.prepare(&mut w.physics, s(0.016));
    let steering = PlayerMovementSystem::new();
    steering.prepare(&mut w.physics, s(0.016));
    assert_eq!(w.physics.commands.len(), 1);
}

#[test]
fn a_moving_body_gives_its_place_to_the_transform() {
    let mut w = world();
    let a = chaser(&mut w, 9, 1.0, 1.0, 1.0);
    let handle = body_of(&w, a).handle;
    let turned = Quaternion::new(s(0.70710677), v3(0.0, 0.0, 0.70710677));
    w.physics.report_body(
        handle,
        BodyState { position: v2(4.0, -3.0), rotation: turned, linear_velocity: v2(0.0, -1.0), world_center: v2(4.0, -3.0) },
    );
    w.physics.take_commands();
    let mut system = PhysicsSystem::new();
    assert_eq!(
        system.execute(&mut w.renderer, &mut w.entities, &w.input, &mut w.physics, s(0.016), &mut w.camera),
        Ok(())
    );
    let t = transform_of(&w, a);
    assert_eq!(t.position, v3(4.0, -3.0, 0.0));
    assert_eq!(t.rotation, turned);
    assert_eq!(t.scale, v3(1.0, 1.0, 1.0));
    assert_eq!(
        w.renderer.writes,
        vec![BufferWrite {
            buffer: BufferHandle { index: 9 },
            offset: 0,
            uniforms: TransformUniform { position: v3(4.0, -3.0, 0.0), rotation: turned, scale: v3(1.0, 1.0, 1.0) },
        }]
    );
    assert!(w.physics.commands.is_empty());
    assert_eq!(body_of(&w, a).handle, handle);
}

#[test]
fn a_body_that_does_not_move_takes_its_place_from_the_transform() {
    for body_type in [BodyType::Static, BodyType::Kinematic] {
        let mut w = world();
        let b = body(&mut w, 0.0, 0.0, body_type, 2);
        let a = w.entities.create_entity(vec![b.into_component(), transform(1, 6.0, 7.0).into_component()], vec![]);
        w.physics.take_commands();
        let mut system = PhysicsSystem::new();
        assert_eq!(
            system.execute(&mut w.renderer, &mut w.entities, &w.input, &mut w.physics, s(0.016), &mut w.camera),
            Ok(())
        );
        let rebuilt = body_of(&w, a);
        assert_eq!(rebuilt.body.position, v2(6.0, 7.0));
        assert_eq!(rebuilt.handle, BodyHandle { index: 1 });
        assert_eq!(w.physics.bodies[1].state.position, v2(6.0, 7.0));
        assert_eq!(w.physics.commands.len(), 4);
        assert_eq!(w.physics.commands[0], PhysicsCommand::DestroyBody { handle: BodyHandle { index: 0 } });
        assert_eq!(transform_of(&w, a).position, v3(6.0, 7.0, 0.0));
        assert!(w.renderer.writes.is_empty());
    }
}

#[test]
fn keys_give_directions() {
    let mut w = world();
    assert_eq!(read_horizontal(&w.input), Direction::Neutral);
    assert_eq!(read_vertical(&w.input), Direction::Neutral);
    press(&mut w, KEY_LEFT);
    assert_eq!(read_horizontal(&w.input), Direction::Negative);
    press(&mut w, KEY_RIGHT);
    assert_eq!(read_horizontal(&w.input), Direction::Positive);
    release(&mut w, KEY_RIGHT);
    release(&mut w, KEY_LEFT);
    assert_eq!(read_horizontal(&w.input), Direction::Neutral);
    press(&mut w, KEY_A);
    assert_eq!(read_horizontal(&w.input), Direction::Negative);
    press(&mut w, KEY_D);
    assert_eq!(read_horizontal(&w.input), Direction::Positive);
    press(&mut w, KEY_UP);
    assert_eq!(read_vertical(&w.input), Direction::Positive);
    press(&mut w, KEY_S);
    assert_eq!(read_vertical(&w.input), Direction::Negative);
    release(&mut w, KEY_S);
    release(&mut w, KEY_UP);
    press(&mut w, KEY_W);
    assert_eq!(read_vertical(&w.input), Direction::Positive);
    press(&mut w, KEY_DOWN);
    assert_eq!(read_vertical(&w.input), Direction::Negative);
}

#[test]
fn the_player_is_steered_and_the_camera_follows() {
    let mut w = world();
    let ground = body(&mut w, 0.0, -1.0, BodyType::Static, 2);
    let p = player(&mut w, 3, 2.0, 1.0, 5.0);
    let handle = body_of(&w, p).handle;
    w.physics.report_contacts(vec![Contact { body: handle, other: ground.handle }]);
    w.entities.entities[p].get_component_mut::<PlayerMovementComponent>(PLAYER_MOVEMENT_ID).unwrap().position =
        v3(0.0, 0.0, 0.0);
    w.physics.take_commands();
    press(&mut w, KEY_D);
    press(&mut w, KEY_W);
    let mut system = PlayerMovementSystem::new();
    assert_eq!(run_player(&mut system, &mut w, 0.016), Ok(()));
    assert_eq!(
        w.physics.commands,
        vec![PhysicsCommand::ApplyLinearImpulse {
            handle,
            impulse: Impulse::Steer {
                horizontal: Direction::Positive,
                vertical: Direction::Positive,
                speed: s(5.0),
                grounded: true,
            },
            wake: true,
        }]
    );
    assert_eq!(w.camera.eye, Point3::new(s(2.0), s(1.0), s(10.0)));
    assert_eq!(w.camera.target, Point3::new(s(2.0), s(1.0), s(0.0)));
    assert_eq!(player_of(&w, p).position, v3(2.0, 1.0, 0.0));
    assert_eq!(player_of(&w, p).points, 0);
    assert_eq!(w.renderer.writes.len(), 1);
    assert_eq!(w.renderer.writes[0].buffer, BufferHandle { index: 3 });
}

#[test]
fn a_player_in_the_air_is_not_grounded_and_low_down_has_no_vertical_direction() {
    let mut w = world();
    let p = player(&mut w, 3, 2.0, -6.0, 5.0);
    let handle = body_of(&w, p).handle;
    w.physics.take_commands();
    press(&mut w, KEY_LEFT);
    press(&mut w, KEY_UP);
    let mut system = PlayerMovementSystem::new();
    assert_eq!(run_player(&mut system, &mut w, 0.016), Ok(()));
    assert_eq!(
        w.physics.commands,
        vec![PhysicsCommand::ApplyLinearImpulse {
            handle,
            impulse: Impulse::Steer {
                horizontal: Direction::Negative,
                vertical: Direction::Neutral,
                speed: s(5.0),
                grounded: false,
            },
            wake: true,
        }]
    );
}

#[test]
fn a_fallen_player_is_put_back_and_loses_a_point() {
    let mut w = world();
    let p = player(&mut w, 3, 2.0, -15.5, 5.0);
    let old_handle = body_of(&w, p).handle;
    w.physics.take_commands();
    let mut system = PlayerMovementSystem::new();
    assert_eq!(run_player(&mut system, &mut w, 0.016), Ok(()));
    let rebuilt = body_of(&w, p);
    assert_eq!(rebuilt.body.position, v2(0.0, 2.0));
    assert_eq!(rebuilt.handle, BodyHandle { index: old_handle.index + 1 });
    assert_eq!(player_of(&w, p).points, -1);
    assert_eq!(w.physics.commands.len(), 5);
    assert_eq!(w.physics.commands[0], PhysicsCommand::DestroyBody { handle: old_handle });
    assert_eq!(
        w.physics.commands[4],
        PhysicsCommand::ApplyLinearImpulse {
            handle: rebuilt.handle,
            impulse: Impulse::Steer {
                horizontal: Direction::Neutral,
                vertical: Direction::Neutral,
                speed: s(5.0),
                grounded: false,
            },
            wake: true,
        }
    );
    let mut w = world();
    let p = player(&mut w, 3, 2.0, -15.0, 5.0);
    let mut system = PlayerMovementSystem::new();
    assert_eq!(run_player(&mut system, &mut w, 0.016), Ok(()));
    assert_eq!(player_of(&w, p).points, 0);
    assert_eq!(body_of(&w, p).body.position, v2(2.0, -15.0));
}

fn ordered(systems: Vec<GameSystem>) -> SystemManager<GameSystem> {
    let mut manager = SystemManager::new();
    for system in systems {
        manager.add_system(system);
    }
    manager
}

fn fallen_player_world() -> (World, usize) {
    let mut w = world();
    let p = player(&mut w, 1, 0.0, -20.0, 5.0);
    w.physics.take_commands();
    (w, p)
}

/// A stand-in for the simulation: a step lets every live moving body sink
/// by one unit, and everything else happens at once.
fn carry_out(w: &mut World) {
    for command in w.physics.take_commands() {
        if let PhysicsCommand::Step { .. } = command {
            for index in 0..w.physics.bodies.len() {
                let b = w.physics.bodies[index];
                if b.alive && b.def.body_type == BodyType::Dynamic {
                    let mut state = b.state;
                    state.position = v2(f(state.position.x), f(state.position.y) - 1.0);
                    state.world_center = state.position;
                    w.physics.report_body(BodyHandle { index }, state);
                }
            }
        }
    }
    w.renderer.take_writes();
}

fn frame_with_host(manager: &mut SystemManager<GameSystem>, w: &mut World) {
    manager.begin_frame();
    while manager.advance(&mut w.renderer, &mut w.entities, &w.input, &mut w.physics, &mut w.camera).unwrap() {
        carry_out(w);
    }
}

#[test]
fn the_order_of_the_systems_shows_in_the_transform() {
    let (mut world_a, player_a) = fallen_player_world();
    let mut first = ordered(vec![
        GameSystem::Movement(MovementSystem::new()),
        GameSystem::Physics(PhysicsSystem::new()),
        GameSystem::PlayerMovement(PlayerMovementSystem::new()),
    ]);
    assert_eq!(
        first.update_systems(&mut world_a.renderer, &mut world_a.entities, &world_a.input, &mut world_a.physics, &mut world_a.camera),
        Ok(())
    );
    let (mut world_b, player_b) = fallen_player_world();
    let mut second = ordered(vec![
        GameSystem::Movement(MovementSystem::new()),
        GameSystem::PlayerMovement(PlayerMovementSystem::new()),
        GameSystem::Physics(PhysicsSystem::new()),
    ]);
    assert_eq!(
        second.update_systems(&mut world_b.renderer, &mut world_b.entities, &world_b.input, &mut world_b.physics, &mut world_b.camera),
        Ok(())
    );
    assert_eq!(transform_of(&world_a, player_a).position, v3(0.0, -20.0, 0.0));
    assert_eq!(transform_of(&world_b, player_b).position, v3(0.0, 2.0, 0.0));
    assert_ne!(transform_of(&world_a, player_a), transform_of(&world_b, player_b));
    assert_eq!(player_of(&world_a, player_a).points, -1);
    assert_eq!(player_of(&world_b, player_b).points, -1);
}

#[test]
fn the_order_of_the_systems_shows_in_the_transform_with_a_host_in_between() {
    for _ in 0..3 {
        let (mut world_a, player_a) = fallen_player_world();
        let mut first = ordered(vec![
            GameSystem::Movement(MovementSystem::new()),
            GameSystem::Physics(PhysicsSystem::new()),
            GameSystem::PlayerMovement(PlayerMovementSystem::new()),
        ]);
        frame_with_host(&mut first, &mut world_a);
        let (mut world_b, player_b) = fallen_player_world();
        let mut second = ordered(vec![
            GameSystem::Movement(MovementSystem::new()),
            GameSystem::PlayerMovement(PlayerMovementSystem::new()),
            GameSystem::Physics(PhysicsSystem::new()),
        ]);
        frame_with_host(&mut second, &mut world_b);
        assert_eq!(transform_of(&world_a, player_a).position, v3(0.0, -21.0, 0.0));
        assert_eq!(transform_of(&world_b, player_b).position, v3(0.0, 1.0, 0.0));
    }
}

#[test]
fn advance_takes_the_frame_phase_by_phase() {
    let (mut w, _) = fallen_player_world();
    let mut manager = ordered(vec![
        GameSystem::Physics(PhysicsSystem::new()),
        GameSystem::PlayerMovement(PlayerMovementSystem::new()),
    ]);
    manager.delta_time = s(0.25);
    manager.begin_frame();
    assert!(manager.pending());
    assert_eq!(manager.advance(&mut w.renderer, &mut w.entities, &w.input, &mut w.physics, &mut w.camera), Ok(true));
    assert_eq!(
        w.physics.commands,
        vec![PhysicsCommand::Step { delta_time: s(0.25), velocity_iterations: 6, position_iterations: 2 }]
    );
    assert_eq!((manager.cursor, manager.prepared), (0, true));
    assert_eq!(manager.advance(&mut w.renderer, &mut w.entities, &w.input, &mut w.physics, &mut w.camera), Ok(true));
    assert_eq!((manager.cursor, manager.prepared), (1, false));
    assert_eq!(w.renderer.writes.len(), 1);
    assert_eq!(manager.advance(&mut w.renderer, &mut w.entities, &w.input, &mut w.physics, &mut w.camera), Ok(true));
    assert_eq!((manager.cursor, manager.prepared), (1, true));
    assert_eq!(w.physics.commands.len(), 1);
    assert_eq!(manager.advance(&mut w.renderer, &mut w.entities, &w.input, &mut w.physics, &mut w.camera), Ok(true));
    assert_eq!((manager.cursor, manager.prepared), (2, false));
    assert!(!manager.pending());
    let commands = w.physics.commands.len();
    assert_eq!(manager.advance(&mut w.renderer, &mut w.entities, &w.input, &mut w.physics, &mut w.camera), Ok(false));
    assert_eq!(w.physics.commands.len(), commands);
    manager.begin_frame();
    assert!(manager.pending());
    assert_eq!((manager.cursor, manager.prepared), (0, false));
}

#[test]
fn a_fault_ends_the_frame() {
    let mut w = world();
    let p = player(&mut w, 1, 0.0, 0.0, 5.0);
    w.physics.destroy_body(body_of(&w, p).handle);
    w.physics.take_commands();
    let mut manager = ordered(vec![
        GameSystem::PlayerMovement(PlayerMovementSystem::new()),
        GameSystem::Physics(PhysicsSystem::new()),
    ]);
    assert_eq!(
        manager.update_systems(&mut w.renderer, &mut w.entities, &w.input, &mut w.physics, &mut w.camera),
        Err(SystemFault::MissingBody)
    );
    assert!(w.physics.commands.is_empty());
    manager.begin_frame();
    assert_eq!(manager.advance(&mut w.renderer, &mut w.entities, &w.input, &mut w.physics, &mut w.camera), Ok(true));
    assert_eq!(
        manager.advance(&mut w.renderer, &mut w.entities, &w.input, &mut w.physics, &mut w.camera),
        Err(SystemFault::MissingBody)
    );
}

#[test]
fn a_new_manager_has_no_systems_and_systems_are_kept_in_order() {
    let mut manager: SystemManager<GameSystem> = SystemManager::new();
    assert!(manager.systems.is_empty());
    assert_eq!(manager.delta_time, s(0.0));
    assert!(!manager.pending());
    let mut w = world();
    assert_eq!(
        manager.update_systems(&mut w.renderer, &mut w.entities, &w.input, &mut w.physics, &mut w.camera),
        Ok(())
    );
    manager.add_system(GameSystem::Physics(PhysicsSystem::new()));
    manager.add_system(GameSystem::Movement(MovementSystem::new()));
    assert!(matches!(manager.systems[0], GameSystem::Physics(_)));
    assert!(matches!(manager.systems[1], GameSystem::Movement(_)));
    assert_eq!(
        manager.update_systems(&mut w.renderer, &mut w.entities, &w.input, &mut w.physics, &mut w.camera),
        Ok(())
    );
    assert_eq!(
        w.physics.commands,
        vec![PhysicsCommand::Step { delta_time: s(0.0), velocity_iterations: 6, position_iterations: 2 }]
    );
}

#[test]
fn a_new_movement_system_looks_at_the_origin() {
    let system = MovementSystem::new();
    assert_eq!(system.x, s(0.0));
    assert_eq!(system.move_dir, v3(0.0, 0.0, 0.0));
    let _ = BodyDef {
        body_type: BodyType::Dynamic,
        position: v2(0.0, 0.0),
        linear_velocity: v2(0.0, 0.0),
        allow_sleep: true,
    };
    let _ = Component::Movement(MovementComponent::new(s(0.0)));
    let mut unused = |w: &mut World| -> Result<(), SystemFault> {
        w.renderer.take_writes();
        Ok(())
    };
    assert_eq!(run(&mut unused, &mut world()), Ok(()));
}

#[test]
fn systems_leave_the_entities_their_ids_and_slots() {
    let mut w = world();
    chaser(&mut w, 1, 0.0, -20.0, 1.0);
    player(&mut w, 2, 0.0, -20.0, 5.0);
    let b = body(&mut w, 0.0, -3.0, BodyType::Static, 2);
    w.entities.create_entity(vec![b.into_component(), transform(3, 0.0, -3.0).into_component()], vec![]);
    w.entities.create_entity(vec![], vec![]);
    let mut manager = ordered(vec![
        GameSystem::Movement(MovementSystem::new()),
        GameSystem::Physics(PhysicsSystem::new()),
        GameSystem::PlayerMovement(PlayerMovementSystem::new()),
    ]);
    let counts: Vec<usize> = w.entities.entities.iter().map(|e| e.components.len()).collect();
    for _ in 0..3 {
        frame_with_host(&mut manager, &mut w);
        assert_eq!(w.entities.entities.len(), 4);
        for (slot, entity) in w.entities.entities.iter().enumerate() {
            assert_eq!(entity.id, slot);
            assert_eq!(entity.components.len(), counts[slot]);
            assert_eq!(w.entities.find_entity(slot), Ok(slot));
        }
    }
}
