//! The core's side of the physics collaborator.
//!
//! The simulation itself runs outside the verified core. `Physics` holds
//! what the core knows of the world: the bodies it has asked for, the state
//! that the host last reported for each, the contacts between them, and the
//! queue of commands that the host has still to carry out. Systems read the
//! first three and append to the fourth; the host drains the queue, runs the
//! simulation and reports back.

use vstd::prelude::*;
use crate::handle::BodyHandle;
use crate::scalar::{Quaternion, Scalar, Vector2, Vector3, ONE_BITS, ZERO_BITS};

verus! {

pub const PHYSICS_ID: u32 = 7;

/// Bit pattern of `-10.0`, the downward pull of a new world.
pub const GRAVITY_Y_BITS: u32 = 0xC120_0000;

/// Bit pattern of `0.3`, the friction of every fixture.
pub const FRICTION_BITS: u32 = 0x3E99_999A;

pub type LayerType = u32;

pub type ObjectId = LayerType;

#[derive(Clone, Copy, Debug, PartialEq, Eq)]
pub enum BodyType {
    Static,
    Kinematic,
    Dynamic,
}

/// What a body is created from.
#[derive(Clone, Copy, Debug, PartialEq, Eq)]
pub struct BodyDef {
    pub body_type: BodyType,
    pub position: Vector2,
    pub linear_velocity: Vector2,
    pub allow_sleep: bool,
}

/// Outline of a fixture, by half extents or radius.
#[derive(Clone, Copy, Debug, PartialEq, Eq)]
pub enum Shape {
    Box { half_width: Scalar, half_height: Scalar },
    Circle { radius: Scalar },
}

/// What the simulation last reported of a body.
#[derive(Clone, Copy, Debug, PartialEq, Eq)]
pub struct BodyState {
    pub position: Vector2,
    pub rotation: Quaternion,
    pub linear_velocity: Vector2,
    pub world_center: Vector2,
}

#[derive(Clone, Copy, Debug, PartialEq, Eq)]
pub struct Body {
    pub def: BodyDef,
    /// The collision layer in the body's user-data slot.
    pub layer: Option<ObjectId>,
    pub state: BodyState,
    pub alive: bool,
}

/// `body` touches `other`.
#[derive(Clone, Copy, Debug, PartialEq, Eq)]
pub struct Contact {
    pub body: BodyHandle,
    pub other: BodyHandle,
}

/// One of the three steps along an axis that input can ask for.
#[derive(Clone, Copy, Debug, PartialEq, Eq)]
pub enum Direction {
    Negative,
    Neutral,
    Positive,
}

/// An impulse, by the operands of the arithmetic that yields it. The host
/// does that arithmetic when it carries the command out.
#[derive(Clone, Copy, Debug, PartialEq, Eq)]
pub enum Impulse {
    /// Along the unit vector from `position` towards `target`, with no
    /// vertical part if `level`, scaled by `speed * delta_time`.
    Chase { position: Vector3, target: Vector3, speed: Scalar, delta_time: Scalar, level: bool },
    /// Horizontally, `speed` along `horizontal` less the body's own
    /// horizontal velocity. Vertically, a jump along `vertical` if
    /// `grounded`, and a unit push downwards if not.
    Steer { horizontal: Direction, vertical: Direction, speed: Scalar, grounded: bool },
}

#[derive(Clone, Copy, Debug, PartialEq, Eq)]
pub enum PhysicsCommand {
    CreateBody { handle: BodyHandle, def: BodyDef },
    DestroyBody { handle: BodyHandle },
    CreateFixture { handle: BodyHandle, shape: Shape, density: Scalar, friction: Scalar },
    SetUserData { handle: BodyHandle, layer: Option<ObjectId> },
    Step { delta_time: Scalar, velocity_iterations: i32, position_iterations: i32 },
    /// Applied at the body's centre of mass.
    ApplyLinearImpulse { handle: BodyHandle, impulse: Impulse, wake: bool },
}

pub struct Physics {
    pub gravity: Vector2,
    pub bodies: Vec<Body>,
    pub contacts: Vec<Contact>,
    pub commands: Vec<PhysicsCommand>,
}

/// The world as specifications see it.
#[verifier::ext_equal]
pub struct PhysicsView {
    pub gravity: Vector2,
    pub bodies: Seq<Body>,
    pub contacts: Seq<Contact>,
    pub commands: Seq<PhysicsCommand>,
}

impl View for Physics {
    type V = PhysicsView;

    open spec fn view(&self) -> PhysicsView {
        PhysicsView {
            gravity: self.gravity,
            bodies: self.bodies@,
            contacts: self.contacts@,
            commands: self.commands@,
        }
    }
}

/// A body as it stands right after creation: where its definition puts it,
/// unturned, with nothing in its user-data slot.
pub open spec fn fresh_body(def: BodyDef) -> Body {
    Body {
        def,
        layer: None,
        state: BodyState {
            position: def.position,
            rotation: Quaternion {
                s: Scalar { bits: ONE_BITS },
                v: Vector3 { x: Scalar { bits: ZERO_BITS }, y: Scalar { bits: ZERO_BITS }, z: Scalar { bits: ZERO_BITS } },
            },
            linear_velocity: def.linear_velocity,
            world_center: def.position,
        },
        alive: true,
    }
}

/// The density of a fixture on a body of the given type whose moving mass
/// would be `mass`: static bodies weigh nothing.
pub open spec fn fixture_density(body_type: BodyType, mass: Scalar) -> Scalar {
    match body_type {
        BodyType::Static => Scalar { bits: ZERO_BITS },
        _ => mass,
    }
}

impl PhysicsView {
    /// Whether `handle` names a body that has not been destroyed.
    pub open spec fn is_live(self, handle: BodyHandle) -> bool {
        handle.index < self.bodies.len() && self.bodies[handle.index as int].alive
    }

    /// The handle that the next created body gets.
    pub open spec fn next_handle(self) -> BodyHandle {
        BodyHandle { index: self.bodies.len() as usize }
    }

    pub open spec fn queued(self, command: PhysicsCommand) -> PhysicsView {
        PhysicsView { commands: self.commands.push(command), ..self }
    }

    pub open spec fn created(self, def: BodyDef) -> PhysicsView {
        PhysicsView {
            bodies: self.bodies.push(fresh_body(def)),
            ..self.queued(PhysicsCommand::CreateBody { handle: self.next_handle(), def })
        }
    }

    pub open spec fn destroyed(self, handle: BodyHandle) -> PhysicsView {
        PhysicsView {
            bodies: self.bodies.update(
                handle.index as int,
                Body { alive: false, ..self.bodies[handle.index as int] },
            ),
            ..self.queued(PhysicsCommand::DestroyBody { handle })
        }
    }

    pub open spec fn fixture_bound(self, handle: BodyHandle, shape: Shape, density: Scalar, friction: Scalar) -> PhysicsView {
        self.queued(PhysicsCommand::CreateFixture { handle, shape, density, friction })
    }

    pub open spec fn user_data_set(self, handle: BodyHandle, layer: Option<ObjectId>) -> PhysicsView {
        PhysicsView {
            bodies: self.bodies.update(
                handle.index as int,
                Body { layer, ..self.bodies[handle.index as int] },
            ),
            ..self.queued(PhysicsCommand::SetUserData { handle, layer })
        }
    }

    pub open spec fn stepped(self, delta_time: Scalar, velocity_iterations: i32, position_iterations: i32) -> PhysicsView {
        self.queued(PhysicsCommand::Step { delta_time, velocity_iterations, position_iterations })
    }

    pub open spec fn impulse_applied(self, handle: BodyHandle, impulse: Impulse) -> PhysicsView {
        self.queued(PhysicsCommand::ApplyLinearImpulse { handle, impulse, wake: true })
    }

    /// A body is created from `def`, given a fixture of `shape` with the
    /// given density and the usual friction, and tagged with `layer`.
    pub open spec fn spawned(self, def: BodyDef, shape: Shape, density: Scalar, layer: ObjectId) -> PhysicsView {
        let handle = self.next_handle();
        self.created(def).fixture_bound(handle, shape, density, Scalar { bits: FRICTION_BITS }).user_data_set(
            handle,
            Some(layer),
        )
    }

    /// Whether the contact at `i` is one of `body` with a body tagged
    /// `layer`.
    pub open spec fn contact_hits(self, i: int, layer: ObjectId, body: BodyHandle) -> bool {
        &&& self.contacts[i].body == body
        &&& self.contacts[i].other.index < self.bodies.len()
        &&& self.bodies[self.contacts[i].other.index as int].layer == Some(layer)
    }

    /// Whether `body` touches a body tagged `layer`.
    pub open spec fn collides(self, layer: ObjectId, body: BodyHandle) -> bool {
        exists|i: int| 0 <= i < self.contacts.len() && #[trigger] self.contact_hits(i, layer, body)
    }
}

impl Physics {
    /// An empty world under a pull of ten units downwards.
    pub fn new() -> (p: Physics)
        ensures
            p@.gravity == (Vector2 { x: Scalar { bits: ZERO_BITS }, y: Scalar { bits: GRAVITY_Y_BITS } }),
            p@.bodies.len() == 0,
            p@.contacts.len() == 0,
            p@.commands.len() == 0,
    {
        Physics {
            gravity: Vector2 { x: Scalar::zero(), y: Scalar::from_bits(GRAVITY_Y_BITS) },
            bodies: Vec::new(),
            contacts: Vec::new(),
            commands: Vec::new(),
        }
    }

    /// A box of the given half extents.
    pub fn create_shape(&self, width: Scalar, height: Scalar) -> (s: Shape)
        ensures
            s == (Shape::Box { half_width: width, half_height: height }),
    {
        Shape::Box { half_width: width, half_height: height }
    }

    pub fn create_circle_shape(&self, radius: Scalar) -> (s: Shape)
        ensures
            s == (Shape::Circle { radius }),
    {
        Shape::Circle { radius }
    }

    /// The definition of a body of the given type, at rest at `position`
    /// and free to sleep.
    pub fn create_body(&self, body_type: BodyType, position: Vector2) -> (def: BodyDef)
        ensures
            def == (BodyDef {
                body_type,
                position,
                linear_velocity: Vector2 { x: Scalar { bits: ZERO_BITS }, y: Scalar { bits: ZERO_BITS } },
                allow_sleep: true,
            }),
    {
        BodyDef { body_type, position, linear_velocity: Vector2::zero(), allow_sleep: true }
    }

    pub open spec fn is_live(&self, handle: BodyHandle) -> bool {
        self@.is_live(handle)
    }

    /// Whether `handle` names a body that has not been destroyed.
    #[verifier::when_used_as_spec(is_live)]
    pub fn has_body(&self, handle: BodyHandle) -> (b: bool)
        ensures
            b == self@.is_live(handle),
    {
        handle.index < self.bodies.len() && self.bodies[handle.index].alive
    }

    /// Creates a body from `body_def` and returns its handle, which no
    /// earlier body had.
    pub fn create_handle(&mut self, body_def: &BodyDef) -> (handle: BodyHandle)
        ensures
            handle == old(self)@.next_handle(),
            final(self)@ == old(self)@.created(*body_def),
            final(self)@.is_live(handle),
    {
        let handle = BodyHandle { index: self.bodies.len() };
        let def = *body_def;
        self.bodies.push(
            Body {
                def,
                layer: None,
                state: BodyState {
                    position: def.position,
                    rotation: Quaternion::identity(),
                    linear_velocity: def.linear_velocity,
                    world_center: def.position,
                },
                alive: true,
            },
        );
        self.commands.push(PhysicsCommand::CreateBody { handle, def });
        handle
    }

    /// Gives the body a fixture of `shape` with the given density and
    /// friction.
    pub fn bind_fixture(&mut self, body_handle: &BodyHandle, shape: &Shape, density: Scalar, friction: Scalar)
        requires
            old(self)@.is_live(*body_handle),
        ensures
            final(self)@ == old(self)@.fixture_bound(*body_handle, *shape, density, friction),
    {
        self.commands.push(
            PhysicsCommand::CreateFixture { handle: *body_handle, shape: *shape, density, friction },
        );
    }

    /// Gives the body a fixture of `shape` with unit density and the usual
    /// friction.
    pub fn bind_to_world(&mut self, body_handle: &BodyHandle, shape: &Shape)
        requires
            old(self)@.is_live(*body_handle),
        ensures
            final(self)@ == old(self)@.fixture_bound(
                *body_handle,
                *shape,
                Scalar { bits: ONE_BITS },
                Scalar { bits: FRICTION_BITS },
            ),
    {
        self.bind_fixture(body_handle, shape, Scalar::one(), Scalar::from_bits(FRICTION_BITS));
    }

    pub fn destroy_body(&mut self, handle: BodyHandle)
        requires
            old(self)@.is_live(handle),
        ensures
            final(self)@ == old(self)@.destroyed(handle),
            !final(self)@.is_live(handle),
    {
        let body = self.bodies[handle.index];
        self.bodies.set(handle.index, Body { alive: false, ..body });
        self.commands.push(PhysicsCommand::DestroyBody { handle });
    }

    pub fn set_user_data(&mut self, handle: BodyHandle, layer: Option<ObjectId>)
        requires
            old(self)@.is_live(handle),
        ensures
            final(self)@ == old(self)@.user_data_set(handle, layer),
            final(self)@.is_live(handle),
    {
        let body = self.bodies[handle.index];
        self.bodies.set(handle.index, Body { layer, ..body });
        self.commands.push(PhysicsCommand::SetUserData { handle, layer });
    }

    /// Asks for the simulation to advance by `delta_time`.
    pub fn step(&mut self, delta_time: Scalar, velocity_iterations: i32, position_iterations: i32)
        ensures
            final(self)@ == old(self)@.stepped(delta_time, velocity_iterations, position_iterations),
    {
        self.commands.push(
            PhysicsCommand::Step { delta_time, velocity_iterations, position_iterations },
        );
    }

    /// Asks for `impulse` on the body, waking it.
    pub fn apply_linear_impulse(&mut self, handle: BodyHandle, impulse: Impulse)
        requires
            old(self)@.is_live(handle),
        ensures
            final(self)@ == old(self)@.impulse_applied(handle, impulse),
    {
        self.commands.push(PhysicsCommand::ApplyLinearImpulse { handle, impulse, wake: true });
    }

    /// Whether `body` touches a body whose user-data slot holds `layer`.
    pub fn check_collision(&self, layer: ObjectId, body: BodyHandle) -> (has_collided: bool)
        ensures
            has_collided == self@.collides(layer, body),
    {
        let mut has_collided = false;
        let mut i: usize = 0;
        while i < self.contacts.len()
            invariant
                i <= self.contacts.len(),
                has_collided == exists|j: int| 0 <= j < i && #[trigger] self@.contact_hits(j, layer, body),
            decreases self.contacts.len() - i,
        {
            let contact = self.contacts[i];
            if contact.body.index == body.index && contact.other.index < self.bodies.len() {
                match self.bodies[contact.other.index].layer {
                    Some(l) => {
                        if l == layer {
                            assert(self@.contact_hits(i as int, layer, body));
                            has_collided = true;
                        }
                    },
                    None => {},
                }
            }
            i += 1;
        }
        has_collided
    }

    /// The host's report on one body after it has carried commands out.
    pub fn report_body(&mut self, handle: BodyHandle, state: BodyState)
        requires
            handle.index < old(self)@.bodies.len(),
        ensures
            final(self)@ == (PhysicsView {
                bodies: old(self)@.bodies.update(
                    handle.index as int,
                    Body { state, ..old(self)@.bodies[handle.index as int] },
                ),
                ..old(self)@
            }),
    {
        let body = self.bodies[handle.index];
        self.bodies.set(handle.index, Body { state, ..body });
    }

    /// The host's report on which bodies touch, replacing the last one.
    pub fn report_contacts(&mut self, contacts: Vec<Contact>)
        ensures
            final(self)@ == (PhysicsView { contacts: contacts@, ..old(self)@ }),
    {
        self.contacts = contacts;
    }

    /// Hands the queued commands to the host, oldest first, and leaves the
    /// queue empty.
    pub fn take_commands(&mut self) -> (commands: Vec<PhysicsCommand>)
        ensures
            commands@ == old(self)@.commands,
            final(self)@ == (PhysicsView { commands: Seq::empty(), ..old(self)@ }),
    {
        let mut taken: Vec<PhysicsCommand> = Vec::new();
        std::mem::swap(&mut taken, &mut self.commands);
        taken
    }
}

/// The component that puts an entity into the simulation.
#[derive(Clone, Copy, Debug, PartialEq, Eq)]
pub struct PhysicsComponent {
    pub shape: Shape,
    pub body: BodyDef,
    pub handle: BodyHandle,
    pub body_type: BodyType,
    pub layer_type: LayerType,
    pub allow_sleep: bool,
}

impl PhysicsComponent {
    fn spawn(
        physics: &mut Physics,
        shape: Shape,
        body: BodyDef,
        body_type: BodyType,
        mass: Scalar,
        layer_type: LayerType,
    ) -> (handle: BodyHandle)
        ensures
            handle == old(physics)@.next_handle(),
            final(physics)@ == old(physics)@.spawned(body, shape, fixture_density(body_type, mass), layer_type),
            final(physics)@.is_live(handle),
    {
        let handle = physics.create_handle(&body);
        let friction = Scalar::from_bits(FRICTION_BITS);
        match body_type {
            BodyType::Static => {
                physics.bind_fixture(&handle, &shape, Scalar::zero(), friction);
            },
            BodyType::Kinematic => {
                physics.bind_fixture(&handle, &shape, mass, friction);
            },
            BodyType::Dynamic => {
                physics.bind_fixture(&handle, &shape, mass, friction);
            },
        }
        physics.set_user_data(handle, Some(layer_type));
        handle
    }

    /// A box of half extents `scale` at the `x` and `y` of `position`.
    pub fn new_box(
        physics: &mut Physics,
        position: Vector3,
        scale: (Scalar, Scalar),
        mass: Scalar,
        body_type: BodyType,
        layer_type: LayerType,
        allow_sleep: bool,
    ) -> (c: PhysicsComponent)
        ensures
            c.shape == (Shape::Box { half_width: scale.0, half_height: scale.1 }),
            c.body == (BodyDef {
                body_type,
                position: Vector2 { x: position.x, y: position.y },
                linear_velocity: Vector2 { x: Scalar { bits: ZERO_BITS }, y: Scalar { bits: ZERO_BITS } },
                allow_sleep,
            }),
            c.handle == old(physics)@.next_handle(),
            c.body_type == body_type,
            c.layer_type == layer_type,
            c.allow_sleep == allow_sleep,
            final(physics)@ == old(physics)@.spawned(c.body, c.shape, fixture_density(body_type, mass), layer_type),
            final(physics)@.is_live(c.handle),
    {
        let shape = physics.create_shape(scale.0, scale.1);
        let at_rest = physics.create_body(body_type, Vector2 { x: position.x, y: position.y });
        let body = BodyDef { allow_sleep, ..at_rest };
        let handle = Self::spawn(physics, shape, body, body_type, mass, layer_type);
        PhysicsComponent { shape, body, handle, body_type, layer_type, allow_sleep }
    }

    /// A circle of radius `scale` at the `x` and `y` of `position`.
    pub fn new_circle(
        physics: &mut Physics,
        position: Vector3,
        scale: Scalar,
        mass: Scalar,
        body_type: BodyType,
        layer_type: LayerType,
        allow_sleep: bool,
    ) -> (c: PhysicsComponent)
        ensures
            c.shape == (Shape::Circle { radius: scale }),
            c.body == (BodyDef {
                body_type,
                position: Vector2 { x: position.x, y: position.y },
                linear_velocity: Vector2 { x: Scalar { bits: ZERO_BITS }, y: Scalar { bits: ZERO_BITS } },
                allow_sleep,
            }),
            c.handle == old(physics)@.next_handle(),
            c.body_type == body_type,
            c.layer_type == layer_type,
            c.allow_sleep == allow_sleep,
            final(physics)@ == old(physics)@.spawned(c.body, c.shape, fixture_density(body_type, mass), layer_type),
            final(physics)@.is_live(c.handle),
    {
        let shape = physics.create_circle_shape(scale);
        let at_rest = physics.create_body(body_type, Vector2 { x: position.x, y: position.y });
        let body = BodyDef { allow_sleep, ..at_rest };
        let handle = Self::spawn(physics, shape, body, body_type, mass, layer_type);
        PhysicsComponent { shape, body, handle, body_type, layer_type, allow_sleep }
    }

    /// The world after this component's body has been replaced by one made
    /// from `body`.
    pub open spec fn rebuilt(self, physics: PhysicsView, body: BodyDef) -> PhysicsView {
        physics.destroyed(self.handle).spawned(
            body,
            self.shape,
            fixture_density(self.body_type, Scalar { bits: ONE_BITS }),
            self.layer_type,
        )
    }

    /// Replaces the body in the world by one made from the component's
    /// current definition, and takes the new body's handle.
    pub fn update(&mut self, physics: &mut Physics)
        requires
            old(physics)@.is_live(old(self).handle),
        ensures
            *final(self) == (PhysicsComponent { handle: old(physics)@.next_handle(), ..*old(self) }),
            final(physics)@ == old(self).rebuilt(old(physics)@, old(self).body),
            final(physics)@.is_live(final(self).handle),
    {
        physics.destroy_body(self.handle);
        self.handle = Self::spawn(physics, self.shape, self.body, self.body_type, Scalar::one(), self.layer_type);
    }

    /// Moves the body to `new_pos` by rebuilding it there.
    pub fn update_position(&mut self, physics: &mut Physics, new_pos: Vector2)
        requires
            old(physics)@.is_live(old(self).handle),
        ensures
            *final(self) == (PhysicsComponent {
                handle: old(physics)@.next_handle(),
                body: BodyDef { position: new_pos, ..old(self).body },
                ..*old(self)
            }),
            final(physics)@ == old(self).rebuilt(
                old(physics)@,
                BodyDef { position: new_pos, ..old(self).body },
            ),
            final(physics)@.is_live(final(self).handle),
    {
        self.body.position = new_pos;
        self.update(physics);
    }

    /// Sets the body's velocity to `offset` by rebuilding it with that
    /// velocity.
    pub fn set_velocity(&mut self, physics: &mut Physics, offset: Vector2)
        requires
            old(physics)@.is_live(old(self).handle),
        ensures
            *final(self) == (PhysicsComponent {
                handle: old(physics)@.next_handle(),
                body: BodyDef { linear_velocity: offset, ..old(self).body },
                ..*old(self)
            }),
            final(physics)@ == old(self).rebuilt(
                old(physics)@,
                BodyDef { linear_velocity: offset, ..old(self).body },
            ),
            final(physics)@.is_live(final(self).handle),
    {
        self.body.linear_velocity = offset;
        self.update(physics);
    }

    pub fn get_component_id() -> (id: u32)
        ensures
            id == PHYSICS_ID,
    {
        PHYSICS_ID
    }
}

} // verus!
