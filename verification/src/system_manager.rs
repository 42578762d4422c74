//! The per-frame pipeline of systems.
//!
//! Systems run in the order they were added, each first preparing and then
//! executing. A host that has a simulation and a GPU to serve takes the
//! frame one phase at a time with `advance` and carries out, after each
//! phase, what the phase asked for. `update_systems` runs a whole frame in
//! one go, with nothing carried out in between.

use vstd::prelude::*;
use crate::entity_manager::{ids_in_order, EntityManager};
use crate::input_manager::{InputManager, InputView};
use crate::movement_system::{chaser_tags, player_tags, MovementSystem};
use crate::physics::{Physics, PhysicsView};
use crate::physics_system::{body_tags, PhysicsSystem};
use crate::player_movement_system::{horizontal_of, steered_tags, vertical_of, PlayerMovementSystem};
use crate::renderer::{Camera, Renderer};
use crate::scalar::{Scalar, Vector3, ZERO_BITS};
use crate::system::{
    lemma_pass_keeps_ids, pass_result, world_view, Outcome, PassKind, PassState, SystemBase,
    SystemFault, WorldView,
};

verus! {

pub struct SystemManager<S: SystemBase> {
    pub systems: Vec<S>,
    pub delta_time: Scalar,
    /// The system whose turn it is in the frame that `advance` is taking.
    pub cursor: usize,
    /// Whether that system has prepared already.
    pub prepared: bool,
}

/// The systems and the world in the course of a frame.
#[verifier::ext_equal]
pub struct FrameState<S> {
    pub systems: Seq<S>,
    pub world: WorldView,
    pub fault: Option<SystemFault>,
}

/// The world as the system finds it in `execute`: with what `prepare` asked
/// of the physics world.
pub open spec fn readied<S: SystemBase>(system: S, world: WorldView, delta_time: Scalar) -> WorldView {
    WorldView { physics: system.prepared(world.physics, delta_time), ..world }
}

/// The frame after the first `n` systems have run, each in its turn. A
/// fault ends the frame: the systems after it do not run.
pub open spec fn frame_after<S: SystemBase>(
    systems: Seq<S>,
    n: int,
    world: WorldView,
    input: InputView,
    delta_time: Scalar,
) -> FrameState<S>
    decreases n,
{
    if n <= 0 {
        FrameState { systems, world, fault: None }
    } else {
        let before = frame_after(systems, n - 1, world, input, delta_time);
        if before.fault is Some {
            before
        } else {
            let out = before.systems[n - 1].executed(
                readied(before.systems[n - 1], before.world, delta_time),
                input,
                delta_time,
            );
            FrameState { systems: before.systems.update(n - 1, out.system), world: out.world, fault: out.fault }
        }
    }
}

impl<S: SystemBase> SystemManager<S> {
    /// No systems, and no time passed since the last frame.
    pub fn new() -> (m: SystemManager<S>)
        ensures
            m.systems@.len() == 0,
            m.delta_time == (Scalar { bits: ZERO_BITS }),
            m.cursor == 0,
            !m.prepared,
    {
        SystemManager { systems: Vec::new(), delta_time: Scalar::zero(), cursor: 0, prepared: false }
    }

    /// Adds `system` after the systems already there.
    pub fn add_system(&mut self, system: S)
        ensures
            final(self).systems@ == old(self).systems@.push(system),
            final(self).delta_time == old(self).delta_time,
            final(self).cursor == old(self).cursor,
            final(self).prepared == old(self).prepared,
    {
        self.systems.push(system);
    }

    /// Runs a frame: every system, in the order the systems were added,
    /// until one fails.
    pub fn update_systems(
        &mut self,
        renderer_reference: &mut Renderer,
        entity_manager: &mut EntityManager,
        input_manager: &InputManager,
        physics: &mut Physics,
        camera: &mut Camera,
    ) -> (r: Result<(), SystemFault>)
        ensures
            ({
                let frame = frame_after(
                    old(self).systems@,
                    old(self).systems@.len() as int,
                    world_view(*old(renderer_reference), *old(entity_manager), *old(physics), *old(camera)),
                    input_manager@,
                    old(self).delta_time,
                );
                &&& final(self).systems@ == frame.systems
                &&& world_view(
                    *final(renderer_reference),
                    *final(entity_manager),
                    *final(physics),
                    *final(camera),
                ) == frame.world
                &&& r == match frame.fault {
                    Some(fault) => Err::<(), SystemFault>(fault),
                    None => Ok::<(), SystemFault>(()),
                }
                &&& final(self).delta_time == old(self).delta_time
                &&& final(self).cursor == old(self).cursor
                &&& final(self).prepared == old(self).prepared
            }),
    {
        let ghost systems0 = self.systems@;
        let ghost world0 = world_view(*renderer_reference, *entity_manager, *physics, *camera);
        let delta_time = self.delta_time;
        let n = self.systems.len();
        let mut i: usize = 0;
        while i < n
            invariant
                i <= n,
                n == systems0.len(),
                systems0 == old(self).systems@,
                world0 == world_view(*old(renderer_reference), *old(entity_manager), *old(physics), *old(camera)),
                delta_time == old(self).delta_time,
                self.systems@.len() == n,
                self.delta_time == delta_time,
                self.cursor == old(self).cursor,
                self.prepared == old(self).prepared,
                frame_after(systems0, i as int, world0, input_manager@, delta_time) == (FrameState {
                    systems: self.systems@,
                    world: world_view(*renderer_reference, *entity_manager, *physics, *camera),
                    fault: None,
                }),
            decreases n - i,
        {
            let ghost before = frame_after(systems0, i as int, world0, input_manager@, delta_time);
            let system = &mut self.systems[i];
            system.prepare(physics, delta_time);
            let ran = system.execute(renderer_reference, entity_manager, input_manager, physics, delta_time, camera);
            proof {
                let out = before.systems[i as int].executed(
                    readied(before.systems[i as int], before.world, delta_time),
                    input_manager@,
                    delta_time,
                );
                assert(frame_after(systems0, i as int + 1, world0, input_manager@, delta_time) == (FrameState {
                    systems: before.systems.update(i as int, out.system),
                    world: out.world,
                    fault: out.fault,
                }));
                assert(self.systems@ =~= before.systems.update(i as int, out.system));
            }
            match ran {
                Ok(_) => {},
                Err(fault) => {
                    proof {
                        lemma_fault_ends_frame(systems0, i as int + 1, n as int, world0, input_manager@, delta_time);
                    }
                    return Err(fault);
                },
            }
            i += 1;
        }
        Ok(())
    }

    /// Starts a frame that `advance` takes phase by phase.
    pub fn begin_frame(&mut self)
        ensures
            final(self).systems@ == old(self).systems@,
            final(self).delta_time == old(self).delta_time,
            final(self).cursor == 0,
            !final(self).prepared,
    {
        self.cursor = 0;
        self.prepared = false;
    }

    /// Whether the frame that `advance` is taking has a phase left.
    pub fn pending(&self) -> (b: bool)
        ensures
            b == (self.cursor < self.systems@.len()),
    {
        self.cursor < self.systems.len()
    }

    /// Runs the next phase of the frame: the preparation of the system whose
    /// turn it is, or, if that system has prepared, its execution, after
    /// which it is the next system's turn. Returns whether a phase ran; none
    /// runs once every system has had its turn.
    pub fn advance(
        &mut self,
        renderer_reference: &mut Renderer,
        entity_manager: &mut EntityManager,
        input_manager: &InputManager,
        physics: &mut Physics,
        camera: &mut Camera,
    ) -> (r: Result<bool, SystemFault>)
        ensures
            final(self).delta_time == old(self).delta_time,
            old(self).cursor >= old(self).systems@.len() ==> {
                &&& r == Ok::<bool, SystemFault>(false)
                &&& final(self).systems@ == old(self).systems@
                &&& final(self).cursor == old(self).cursor
                &&& final(self).prepared == old(self).prepared
                &&& world_view(
                    *final(renderer_reference),
                    *final(entity_manager),
                    *final(physics),
                    *final(camera),
                ) == world_view(*old(renderer_reference), *old(entity_manager), *old(physics), *old(camera))
            },
            old(self).cursor < old(self).systems@.len() && !old(self).prepared ==> {
                &&& r == Ok::<bool, SystemFault>(true)
                &&& final(self).systems@ == old(self).systems@
                &&& final(self).cursor == old(self).cursor
                &&& final(self).prepared
                &&& world_view(
                    *final(renderer_reference),
                    *final(entity_manager),
                    *final(physics),
                    *final(camera),
                ) == readied(
                    old(self).systems@[old(self).cursor as int],
                    world_view(*old(renderer_reference), *old(entity_manager), *old(physics), *old(camera)),
                    old(self).delta_time,
                )
            },
            old(self).cursor < old(self).systems@.len() && old(self).prepared ==> {
                let out = old(self).systems@[old(self).cursor as int].executed(
                    world_view(*old(renderer_reference), *old(entity_manager), *old(physics), *old(camera)),
                    input_manager@,
                    old(self).delta_time,
                );
                &&& r == match out.fault {
                    Some(fault) => Err::<bool, SystemFault>(fault),
                    None => Ok::<bool, SystemFault>(true),
                }
                &&& final(self).systems@ == old(self).systems@.update(old(self).cursor as int, out.system)
                &&& final(self).cursor == old(self).cursor + 1
                &&& !final(self).prepared
                &&& world_view(
                    *final(renderer_reference),
                    *final(entity_manager),
                    *final(physics),
                    *final(camera),
                ) == out.world
            },
    {
        if self.cursor >= self.systems.len() {
            return Ok(false);
        }
        let delta_time = self.delta_time;
        let turn = self.cursor;
        if !self.prepared {
            let system = &self.systems[turn];
            system.prepare(physics, delta_time);
            self.prepared = true;
            return Ok(true);
        }
        self.prepared = false;
        self.cursor = turn + 1;
        let system = &mut self.systems[turn];
        match system.execute(renderer_reference, entity_manager, input_manager, physics, delta_time, camera) {
            Ok(_) => Ok(true),
            Err(fault) => Err(fault),
        }
    }
}

proof fn lemma_fault_ends_frame<S: SystemBase>(
    systems: Seq<S>,
    k: int,
    n: int,
    world: WorldView,
    input: InputView,
    delta_time: Scalar,
)
    requires
        0 <= k <= n,
        frame_after(systems, k, world, input, delta_time).fault is Some,
    ensures
        frame_after(systems, n, world, input, delta_time) == frame_after(systems, k, world, input, delta_time),
    decreases n - k,
{
    if k < n {
        lemma_fault_ends_frame(systems, k, n - 1, world, input, delta_time);
    }
}

/// The systems that come with the engine, as one type for the pipeline.
pub enum GameSystem {
    Movement(MovementSystem),
    Physics(PhysicsSystem),
    PlayerMovement(PlayerMovementSystem),
}

impl SystemBase for GameSystem {
    open spec fn prepared(self, physics: PhysicsView, delta_time: Scalar) -> PhysicsView {
        match self {
            GameSystem::Movement(s) => s.prepared(physics, delta_time),
            GameSystem::Physics(s) => s.prepared(physics, delta_time),
            GameSystem::PlayerMovement(s) => s.prepared(physics, delta_time),
        }
    }

    open spec fn executed(self, world: WorldView, input: InputView, delta_time: Scalar) -> Outcome<Self> {
        match self {
            GameSystem::Movement(s) => {
                let out = s.executed(world, input, delta_time);
                Outcome { system: GameSystem::Movement(out.system), world: out.world, fault: out.fault }
            },
            GameSystem::Physics(s) => {
                let out = s.executed(world, input, delta_time);
                Outcome { system: GameSystem::Physics(out.system), world: out.world, fault: out.fault }
            },
            GameSystem::PlayerMovement(s) => {
                let out = s.executed(world, input, delta_time);
                Outcome { system: GameSystem::PlayerMovement(out.system), world: out.world, fault: out.fault }
            },
        }
    }

    fn prepare(&self, physics: &mut Physics, delta_time: Scalar) {
        match self {
            GameSystem::Movement(s) => s.prepare(physics, delta_time),
            GameSystem::Physics(s) => s.prepare(physics, delta_time),
            GameSystem::PlayerMovement(s) => s.prepare(physics, delta_time),
        }
    }

    fn execute(
        &mut self,
        renderer: &mut Renderer,
        entity_manager: &mut EntityManager,
        input_manager: &InputManager,
        physics: &mut Physics,
        delta_time: Scalar,
        camera: &mut Camera,
    ) -> (r: Result<(), SystemFault>) {
        match self {
            GameSystem::Movement(s) => s.execute(
                renderer,
                entity_manager,
                input_manager,
                physics,
                delta_time,
                camera,
            ),
            GameSystem::Physics(s) => s.execute(renderer, entity_manager, input_manager, physics, delta_time, camera),
            GameSystem::PlayerMovement(s) => s.execute(
                renderer,
                entity_manager,
                input_manager,
                physics,
                delta_time,
                camera,
            ),
        }
    }
}

/// The systems that come with the engine neither add nor remove an entity
/// and leave every entity its id: ids that were in order are in order after
/// a system has run.
pub proof fn lemma_system_keeps_ids(system: GameSystem, world: WorldView, input: InputView, delta_time: Scalar)
    ensures
        system.executed(world, input, delta_time).world.entities.len() == world.entities.len(),
        ids_in_order(world.entities) ==> ids_in_order(system.executed(world, input, delta_time).world.entities),
{
    match system {
        GameSystem::Movement(s) => {
            let s0 = PassState {
                renderer: world.renderer,
                physics: world.physics,
                camera: world.camera,
                target: s.move_dir,
                points: 0,
                fault: None,
            };
            let noted = pass_result(PassKind::Track, player_tags(), world.entities, s0);
            lemma_pass_keeps_ids(PassKind::Track, player_tags(), world.entities, s0);
            let chased = pass_result(PassKind::Chase { delta_time }, chaser_tags(), noted.entities, noted.state);
            lemma_pass_keeps_ids(PassKind::Chase { delta_time }, chaser_tags(), noted.entities, noted.state);
            lemma_pass_keeps_ids(PassKind::Award, player_tags(), chased.entities, chased.state);
        },
        GameSystem::Physics(s) => {
            let s0 = PassState {
                renderer: world.renderer,
                physics: world.physics,
                camera: world.camera,
                target: Vector3 {
                    x: Scalar { bits: ZERO_BITS },
                    y: Scalar { bits: ZERO_BITS },
                    z: Scalar { bits: ZERO_BITS },
                },
                points: 0,
                fault: None,
            };
            lemma_pass_keeps_ids(PassKind::Sync, body_tags(), world.entities, s0);
        },
        GameSystem::PlayerMovement(s) => {
            let s0 = PassState {
                renderer: world.renderer,
                physics: world.physics,
                camera: world.camera,
                target: Vector3 {
                    x: Scalar { bits: ZERO_BITS },
                    y: Scalar { bits: ZERO_BITS },
                    z: Scalar { bits: ZERO_BITS },
                },
                points: 0,
                fault: None,
            };
            lemma_pass_keeps_ids(
                PassKind::Steer { horizontal: horizontal_of(input), vertical: vertical_of(input) },
                steered_tags(),
                world.entities,
                s0,
            );
        },
    }
}

/// A frame of the systems that come with the engine keeps ids in order,
/// however many of the systems have run and whether or not one has failed.
pub proof fn lemma_frame_keeps_ids(
    systems: Seq<GameSystem>,
    n: int,
    world: WorldView,
    input: InputView,
    delta_time: Scalar,
)
    requires
        0 <= n <= systems.len(),
        ids_in_order(world.entities),
    ensures
        frame_after(systems, n, world, input, delta_time).systems.len() == systems.len(),
        frame_after(systems, n, world, input, delta_time).world.entities.len() == world.entities.len(),
        ids_in_order(frame_after(systems, n, world, input, delta_time).world.entities),
    decreases n,
{
    if n > 0 {
        lemma_frame_keeps_ids(systems, n - 1, world, input, delta_time);
        let before = frame_after(systems, n - 1, world, input, delta_time);
        if before.fault is None {
            lemma_system_keeps_ids(
                before.systems[n - 1],
                readied(before.systems[n - 1], before.world, delta_time),
                input,
                delta_time,
            );
        }
    }
}

} // verus!
