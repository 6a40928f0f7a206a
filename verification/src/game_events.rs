//! Deferred simulation events: "use" interactions emitted by the player
//! resolver and level-flow requests, consumed once per keyframe tick.

use vstd::prelude::*;
use crate::components::MovingDir;
use crate::components::Position;

verus! {

/// An event queued during one tick and handled by a later phase of the same
/// tick, or by the level-flow collaborator around the simulation.
#[derive(Clone, Copy, PartialEq, Eq, Structural, Debug)]
pub enum GameEvent {
    /// The player walked into a usable actor (arena index, its cell, the
    /// player's sub-direction of approach).
    Use(usize, Position, MovingDir),
    /// Ask the surrounding collaborator to reload, stepping the level number
    /// by the given delta.
    ReloadLevel(i32),
    /// Spawn the player at the cell (emitted when the spawn animation ends).
    SpawnRobbo(Position),
    /// Start the player spawn animation at the cell.
    PreSpawnRobbo(Position),
    /// Replace a destroyed question mark with a random item at the cell.
    SpawnRandom(Position),
    /// Register lethal damage at the player's cell.
    KillRobbo,
}

/// A sound trigger emitted as a side effect of a resolver action; the audio
/// collaborator deduplicates and plays them.
#[allow(non_camel_case_types)]
#[derive(Clone, Copy, PartialEq, Eq, Structural, Debug, Hash)]
pub enum Sound {
    AMMO,
    KEY,
    SCREW,
    BOMB,
    WALK,
    TELEPORT,
    SHOT,
    SPAWN,
    DOOR,
    BURN,
    CAPSULE,
}

} // verus!
