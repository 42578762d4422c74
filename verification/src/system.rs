//! What a system is, and how a system goes over the entities it acts on.
//!
//! A system runs once per frame, in two phases. In `prepare` it asks the
//! physics world for what must have happened before it looks at the world;
//! in `execute` it looks and acts. The host carries out what was asked for
//! after each phase. A system acts on entities in passes: a pass queries the
//! entities that have all of a list of tags, and takes them one by one, in
//! slot order, handing on what it has learnt and asked for so far.
//!
//! A pass that finds the world broken (an entity that should have a
//! component and has not, a body that is gone, a score that leaves its
//! range) records the fault and leaves that entity and all later ones as
//! they are.

use vstd::prelude::*;
use crate::component::ComponentBase;
use crate::entity::{
    first_index, lemma_first_index, lemma_update_same_tag, payload, with_payload, Entity, EntityView,
};
use crate::entity_manager::{
    gather, ids_in_order, kept_mask, lemma_selected, slots_with_types, EntityManager,
};
use crate::input_manager::{InputManager, InputView};
use crate::movement::{PlayerMovementComponent, MOVEMENT_ID, PLAYER_MOVEMENT_ID};
use crate::movement_system::{award, award_step, chase, chase_step, moved_body, track, track_step};
use crate::physics::{Direction, Physics, PhysicsComponent, PhysicsView, PHYSICS_ID};
use crate::physics_system::{sync, sync_step};
use crate::player_movement_system::{player_spawn_point, steer, steer_step, PLAYER_FALL_LINE_BITS};
use crate::renderer::{BufferWrite, Camera, Renderer};
use crate::scalar::{Scalar, Vector3};
use crate::transform::{Transform, TRANSFORM_ID};

verus! {

/// A breach of what a system's query promised, or of a machine limit.
#[derive(Clone, Copy, Debug, PartialEq, Eq)]
pub enum SystemFault {
    /// An entity lacks a component that the system cannot do without.
    MissingComponent,
    /// A physics component names a body that is not in the world.
    MissingBody,
    /// A score would leave the range of its type.
    ScoreOverflow,
}

/// Everything a system may change, as specifications see it.
#[verifier::ext_equal]
pub struct WorldView {
    pub renderer: Seq<BufferWrite>,
    pub entities: Seq<EntityView>,
    pub physics: PhysicsView,
    pub camera: Camera,
}

pub open spec fn world_view(
    renderer: Renderer,
    entity_manager: EntityManager,
    physics: Physics,
    camera: Camera,
) -> WorldView {
    WorldView { renderer: renderer@, entities: entity_manager@, physics: physics@, camera }
}

/// A system and the world after the system has run.
#[verifier::ext_equal]
pub struct Outcome<S> {
    pub system: S,
    pub world: WorldView,
    pub fault: Option<SystemFault>,
}

pub trait SystemBase: Sized {
    /// The physics world after `prepare`.
    spec fn prepared(self, physics: PhysicsView, delta_time: Scalar) -> PhysicsView;

    /// The system and the world after `execute`.
    spec fn executed(self, world: WorldView, input: InputView, delta_time: Scalar) -> Outcome<Self>;

    /// Asks the physics world for what has to happen before `execute`.
    fn prepare(&self, physics: &mut Physics, delta_time: Scalar)
        ensures
            final(physics)@ == self.prepared(old(physics)@, delta_time),
    ;

    /// Runs the system on the world. Fails if the world is broken, and
    /// says how far it got.
    fn execute(
        &mut self,
        renderer: &mut Renderer,
        entity_manager: &mut EntityManager,
        input_manager: &InputManager,
        physics: &mut Physics,
        delta_time: Scalar,
        camera: &mut Camera,
    ) -> (r: Result<(), SystemFault>)
        ensures
            ({
                let out = old(self).executed(
                    world_view(*old(renderer), *old(entity_manager), *old(physics), *old(camera)),
                    input_manager@,
                    delta_time,
                );
                &&& *final(self) == out.system
                &&& world_view(*final(renderer), *final(entity_manager), *final(physics), *final(camera))
                    == out.world
                &&& r == match out.fault {
                    Some(fault) => Err::<(), SystemFault>(fault),
                    None => Ok::<(), SystemFault>(()),
                }
            }),
    ;
}

/// What a pass does to each entity.
#[derive(Clone, Copy, Debug, PartialEq, Eq)]
pub enum PassKind {
    /// Note where the player is.
    Track,
    /// Push the entity towards the player.
    Chase { delta_time: Scalar },
    /// Add the points of this frame to the player's score.
    Award,
    /// Bring body and transform together after a simulation step.
    Sync,
    /// Move the player as the keys say.
    Steer { horizontal: Direction, vertical: Direction },
}

/// What a pass hands on from entity to entity.
#[verifier::ext_equal]
pub struct PassState {
    pub renderer: Seq<BufferWrite>,
    pub physics: PhysicsView,
    pub camera: Camera,
    /// Where the player was last seen.
    pub target: Vector3,
    /// The points gained and lost so far in this frame.
    pub points: int,
    pub fault: Option<SystemFault>,
}

/// An entity and the state of the pass after the pass has taken the entity.
#[verifier::ext_equal]
pub struct EntityStep {
    pub entity: EntityView,
    pub state: PassState,
}

/// The step that leaves the entity alone and records a fault.
pub open spec fn faulted(e: EntityView, s: PassState, fault: SystemFault) -> EntityStep {
    EntityStep { entity: e, state: PassState { fault: Some(fault), ..s } }
}

/// What a pass of the given kind does to one entity.
pub open spec fn entity_step(kind: PassKind, e: EntityView, s: PassState) -> EntityStep {
    match kind {
        PassKind::Track => track_step(e, s),
        PassKind::Chase { delta_time } => chase_step(e, s, delta_time),
        PassKind::Award => award_step(e, s),
        PassKind::Sync => sync_step(e, s),
        PassKind::Steer { horizontal, vertical } => steer_step(e, s, horizontal, vertical),
    }
}

/// The state of a pass over `matched` after it has taken the first `k`
/// entities.
pub open spec fn pass_state(kind: PassKind, matched: Seq<EntityView>, k: int, s0: PassState) -> PassState
    decreases k,
{
    if k <= 0 {
        s0
    } else {
        let before = pass_state(kind, matched, k - 1, s0);
        if before.fault is Some {
            before
        } else {
            entity_step(kind, matched[k - 1], before).state
        }
    }
}

/// The entity at position `k` of `matched` after the pass has taken it.
pub open spec fn pass_entity(kind: PassKind, matched: Seq<EntityView>, k: int, s0: PassState) -> EntityView {
    let before = pass_state(kind, matched, k, s0);
    if before.fault is Some {
        matched[k]
    } else {
        entity_step(kind, matched[k], before).entity
    }
}

/// The entities and the state after a pass.
#[verifier::ext_equal]
pub struct PassResult {
    pub entities: Seq<EntityView>,
    pub state: PassState,
}

/// A pass of the given kind over the entities that a query for `tags`
/// returns: the entities it returns are taken in slot order, and the others
/// stay as they are.
pub open spec fn pass_result(kind: PassKind, tags: Seq<u32>, entities: Seq<EntityView>, s0: PassState) -> PassResult {
    let slots = slots_with_types(entities, tags);
    let matched = gather(entities, slots);
    PassResult {
        entities: Seq::new(
            entities.len(),
            |i: int|
                if slots.contains(i) {
                    pass_entity(kind, matched, slots.index_of(i), s0)
                } else {
                    entities[i]
                },
        ),
        state: pass_state(kind, matched, slots.len() as int, s0),
    }
}

/// What a pass carries along besides the collaborators.
#[derive(Clone, Copy, Debug, PartialEq, Eq)]
pub struct Scratch {
    pub target: Vector3,
    pub points: i32,
}

pub open spec fn state_of(
    renderer: Renderer,
    physics: Physics,
    camera: Camera,
    scratch: Scratch,
    fault: Option<SystemFault>,
) -> PassState {
    PassState {
        renderer: renderer@,
        physics: physics@,
        camera,
        target: scratch.target,
        points: scratch.points as int,
        fault,
    }
}

/// Whether an entity and the collaborators are as `step` says.
pub open spec fn is_step(
    step: EntityStep,
    entity: EntityView,
    renderer: Renderer,
    physics: Physics,
    camera: Camera,
    scratch: Scratch,
    fault: Option<SystemFault>,
) -> bool {
    entity =~= step.entity && state_of(renderer, physics, camera, scratch, fault) =~= step.state
}

fn step_entity(
    kind: PassKind,
    entity: &mut Entity,
    renderer: &mut Renderer,
    physics: &mut Physics,
    camera: &mut Camera,
    scratch: &mut Scratch,
) -> (fault: Option<SystemFault>)
    ensures
        is_step(
            entity_step(kind, old(entity)@, state_of(*old(renderer), *old(physics), *old(camera), *old(scratch), None)),
            final(entity)@,
            *final(renderer),
            *final(physics),
            *final(camera),
            *final(scratch),
            fault,
        ),
{
    match kind {
        PassKind::Track => track(entity, renderer, physics, camera, scratch),
        PassKind::Chase { delta_time } => chase(entity, renderer, physics, camera, scratch, delta_time),
        PassKind::Award => award(entity, renderer, physics, camera, scratch),
        PassKind::Sync => sync(entity, renderer, physics, camera, scratch),
        PassKind::Steer { horizontal, vertical } => steer(
            entity,
            renderer,
            physics,
            camera,
            scratch,
            horizontal,
            vertical,
        ),
    }
}

/// Runs a pass of the given kind over the entities that have all of
/// `tags`.
pub fn run_pass(
    kind: PassKind,
    tags: &[u32],
    entity_manager: &mut EntityManager,
    renderer: &mut Renderer,
    physics: &mut Physics,
    camera: &mut Camera,
    scratch: &mut Scratch,
) -> (fault: Option<SystemFault>)
    ensures
        ({
            let result = pass_result(
                kind,
                tags@,
                old(entity_manager)@,
                state_of(*old(renderer), *old(physics), *old(camera), *old(scratch), None),
            );
            &&& final(entity_manager)@ == result.entities
            &&& state_of(*final(renderer), *final(physics), *final(camera), *final(scratch), fault)
                == result.state
        }),
{
    let ghost s0 = state_of(*renderer, *physics, *camera, *scratch, None);
    let ghost views = entity_manager@;
    let ghost raw = entity_manager.entities@;
    let ghost slots = slots_with_types(views, tags@);
    let ghost matched = gather(views, slots);
    proof {
        lemma_selected(kept_mask(views, tags@), views.len() as int);
    }
    let found = entity_manager.get_entities_with_types_mut(tags);
    let ghost snapshot = found@;
    let mut fault: Option<SystemFault> = None;
    for entity in it: found
        invariant
            it.seq() == snapshot,
            snapshot.len() == matched.len(),
            forall|j: int| 0 <= j < snapshot.len() ==> (*(#[trigger] snapshot[j]))@ == matched[j],
            state_of(*renderer, *physics, *camera, *scratch, fault) == pass_state(kind, matched, it.index() as int, s0),
            forall|j: int| 0 <= j < it.index() ==> (*final(#[trigger] snapshot[j]))@ == pass_entity(kind, matched, j, s0),
    {
        if fault.is_none() {
            fault = step_entity(kind, entity, renderer, physics, camera, scratch);
        }
    }
    proof {
        let result = pass_result(kind, tags@, views, s0);
        assert forall|i: int| 0 <= i < views.len() implies #[trigger] entity_manager@[i] == result.entities[i] by {
            if slots.contains(i) {
                let k = slots.index_of(i);
                assert(slots[k] == i);
                assert(entity_manager.entities@[slots[k]] == *final(snapshot[k]));
            } else {
                assert(!kept_mask(views, tags@)[i]);
                assert(entity_manager.entities@[i] == raw[i]);
            }
        }
        assert(entity_manager@ =~= result.entities);
    }
    fault
}

/// A pass leaves an entity its id, its bind resources and the number of its
/// components, whatever it does to the components.
pub proof fn lemma_step_keeps_shape(kind: PassKind, e: EntityView, s: PassState)
    ensures
        entity_step(kind, e, s).entity.id == e.id,
        entity_step(kind, e, s).entity.uniforms == e.uniforms,
        entity_step(kind, e, s).entity.components.len() == e.components.len(),
{
    lemma_first_index(e.components, PLAYER_MOVEMENT_ID);
    lemma_first_index(e.components, PHYSICS_ID);
    lemma_first_index(e.components, TRANSFORM_ID);
    lemma_first_index(e.components, MOVEMENT_ID);
    match kind {
        PassKind::Steer { horizontal, vertical } => {
            let step = steer_step(e, s, horizontal, vertical);
            if payload::<Transform>(e) is Some && payload::<PlayerMovementComponent>(e) is Some && payload::<
                PhysicsComponent,
            >(e) is Some {
                // The step replaces two components, one after the other: the
                // second is looked up among the components as the first has
                // left them.
                let t = payload::<Transform>(e).unwrap();
                let c = payload::<PlayerMovementComponent>(e).unwrap();
                let p = payload::<PhysicsComponent>(e).unwrap();
                let fallen = t.position.y.lt(Scalar { bits: PLAYER_FALL_LINE_BITS });
                let player = PlayerMovementComponent {
                    position: t.position,
                    points: if fallen {
                        (c.points - 1) as i32
                    } else {
                        c.points
                    },
                    ..c
                };
                let body = if fallen {
                    moved_body(p, s.physics, player_spawn_point())
                } else {
                    p
                };
                let first = with_payload(e, player);
                lemma_update_same_tag(
                    e.components,
                    first_index(e.components, PLAYER_MOVEMENT_ID),
                    player.wrap(),
                    PHYSICS_ID,
                );
                lemma_first_index(first.components, PHYSICS_ID);
                assert(step.entity == with_payload(first, body) || step.entity == e);
            }
        },
        _ => {},
    }
}

/// A pass neither adds nor removes an entity, and leaves every entity its
/// id and its bind resources. Ids that were in order stay in order.
pub proof fn lemma_pass_keeps_ids(kind: PassKind, tags: Seq<u32>, entities: Seq<EntityView>, s0: PassState)
    ensures
        pass_result(kind, tags, entities, s0).entities.len() == entities.len(),
        forall|i: int|
            0 <= i < entities.len() ==> (#[trigger] pass_result(kind, tags, entities, s0).entities[i]).id
                == entities[i].id && pass_result(kind, tags, entities, s0).entities[i].uniforms
                == entities[i].uniforms,
        ids_in_order(entities) ==> ids_in_order(pass_result(kind, tags, entities, s0).entities),
{
    let slots = slots_with_types(entities, tags);
    let matched = gather(entities, slots);
    let after = pass_result(kind, tags, entities, s0).entities;
    lemma_selected(kept_mask(entities, tags), entities.len() as int);
    assert forall|i: int| 0 <= i < entities.len() implies (#[trigger] after[i]).id == entities[i].id && after[i].uniforms
        == entities[i].uniforms by {
        if slots.contains(i) {
            let k = slots.index_of(i);
            assert(slots[k] == i);
            assert(matched[k] == entities[i]);
            lemma_step_keeps_shape(kind, matched[k], pass_state(kind, matched, k, s0));
        }
    }
}

} // verus!
