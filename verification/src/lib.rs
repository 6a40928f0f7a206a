//! Deterministic tick-based grid simulation for a Robbo-style arcade puzzle:
//! a player robot on a bounded grid pushes boxes, collects items, dodges or
//! destroys enemies, and uses doors, teleports and capsules. The crate covers
//! the per-tick resolution of every actor kind over a shared occupancy index,
//! damage and bomb-chain propagation, teleport routing, magnetic attraction
//! and oscillating force fields; rendering, audio and input stay outside.

pub mod board;
pub mod components;
pub mod damage;
pub mod entities;
pub mod frame_cnt;
pub mod inventory;
pub mod laws;
pub mod levels;
pub mod rng;
pub mod scheduler;
pub mod game_events;
pub mod systems;

pub use components::IntVec2;
pub use components::MovingDir;
pub use components::Position;
