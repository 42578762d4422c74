//! Movement intents: what an entity wants to do, for the movement systems
//! to act on.

use vstd::prelude::*;
use crate::scalar::{Scalar, Vector2, Vector3};

verus! {

pub const MOVEMENT_ID: u32 = 5;

pub const PLAYER_MOVEMENT_ID: u32 = 6;

/// Intent of an entity that closes in on the player.
#[derive(Clone, Copy, Debug, PartialEq, Eq)]
pub struct MovementComponent {
    pub speed: Scalar,
}

/// Intent of the player, with the player's last known position and score.
#[derive(Clone, Copy, Debug, PartialEq, Eq)]
pub struct PlayerMovementComponent {
    pub speed: Scalar,
    pub movement_vector: Vector2,
    pub position: Vector3,
    pub points: i32,
}

impl MovementComponent {
    pub fn new(speed: Scalar) -> (c: MovementComponent)
        ensures
            c.speed == speed,
    {
        MovementComponent { speed }
    }

    pub fn get_component_id() -> (id: u32)
        ensures
            id == MOVEMENT_ID,
    {
        MOVEMENT_ID
    }
}

impl PlayerMovementComponent {
    /// A player intent with the given speed, at rest at the origin and with
    /// no points.
    pub fn new(speed: Scalar) -> (c: PlayerMovementComponent)
        ensures
            c.speed == speed,
            c.movement_vector == (Vector2 { x: Scalar { bits: 0 }, y: Scalar { bits: 0 } }),
            c.position == (Vector3 { x: Scalar { bits: 0 }, y: Scalar { bits: 0 }, z: Scalar { bits: 0 } }),
            c.points == 0,
    {
        PlayerMovementComponent {
            speed,
            movement_vector: Vector2::zero(),
            position: Vector3::zero(),
            points: 0,
        }
    }

    pub fn get_component_id() -> (id: u32)
        ensures
            id == PLAYER_MOVEMENT_ID,
    {
        PLAYER_MOVEMENT_ID
    }
}

} // verus!
