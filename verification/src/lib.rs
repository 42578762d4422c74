//! Entity-component storage, tag queries and per-frame system scheduling for
//! a small real-time engine, with every operation specified and verified.

pub mod component;
pub mod draw_order;
pub mod entity;
pub mod entity_manager;
pub mod error;
pub mod handle;
pub mod input_manager;
pub mod material;
pub mod movement;
pub mod movement_system;
pub mod physics;
pub mod physics_system;
pub mod player_movement_system;
pub mod render_mesh;
pub mod renderer;
pub mod scalar;
pub mod scene;
pub mod system;
pub mod system_manager;
pub mod transform;
