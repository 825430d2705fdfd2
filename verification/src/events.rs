//! What crosses the boundary between the simulation core and its host: the
//! collision events the host hands in each tick, and the actions the core
//! asks the host to carry out.

use vstd::prelude::*;

use crate::entity::Entity;

verus! {

/// Whether a reported overlap has just begun or just ended.
#[derive(Clone, Copy, PartialEq, Eq, Structural, Debug)]
pub enum Transition {
    Begin,
    End,
}

/// A host-reported overlap between the two entities named by the pair of
/// labels. Only `Begin` transitions are acted on.
pub struct CollisionEvent {
    pub first: String,
    pub second: String,
    pub transition: Transition,
}

/// An effect the host is asked to carry out, in order, after a tick.
pub enum Action {
    /// Give the entity a visual representation.
    SpawnSprite(Entity),
    /// Drop the visual representation of the entity with this label; a
    /// no-op if none exists.
    RemoveSprite(String),
    /// Play the firing sound effect.
    PlayFireSound,
    /// Play the scoring sound effect.
    PlayScoreSound,
    /// Refresh the cars-remaining text widget to this value.
    ShowCarsRemaining(u32),
    /// Refresh the points text widget to this value.
    ShowPoints(u32),
}

} // verus!
