//! Entities of the simulation: the player, the cars crossing the screen, and
//! the marbles (projectiles) the player fires. Positions are in milli-pixels,
//! speeds in milli-pixels per millisecond.

use vstd::prelude::*;

verus! {

/// Horizontal speed of a car, in milli-pixels per millisecond.
pub const CAR_SPEED: i64 = 250;

/// Vertical speed of a marble, in milli-pixels per millisecond.
pub const MARBLE_SPEED: i64 = 600;

/// An entity whose vertical position exceeds this bound has left the top of
/// the play area.
pub const TOP_BOUND: i64 = 400_000;

/// An entity whose horizontal position exceeds this bound has left the right
/// edge of the play area.
pub const RIGHT_BOUND: i64 = 750_000;

/// Least horizontal position any entity of the simulation ever holds.
pub const LEFT_BOUND: i64 = -750_000;

/// Least vertical position any entity of the simulation ever holds.
pub const BOTTOM_BOUND: i64 = -400_000;

/// Vertical position at which a freshly fired marble appears, just above the
/// player's baseline.
pub const MARBLE_SPAWN_Y: i64 = -275_000;

/// Render layer of a marble.
pub const MARBLE_LAYER: u32 = 5;

/// Horizontal position at which a freshly spawned car appears, on the left
/// edge of the play area.
pub const CAR_SPAWN_X: i64 = -740_000;

/// Least vertical position a car may spawn at.
pub const CAR_SPAWN_Y_MIN: i64 = -100_000;

/// Greatest vertical position a car may spawn at (exclusive).
pub const CAR_SPAWN_Y_MAX: i64 = 325_000;

/// Render layer of a car.
pub const CAR_LAYER: u32 = 0;

/// Category of an entity; decides how it moves and how collisions treat it.
#[derive(Clone, Copy, PartialEq, Eq, Structural, Debug)]
pub enum Kind {
    Player,
    Car,
    Projectile,
}

/// Visual variant of a car, chosen uniformly at random at spawn time.
#[derive(Clone, Copy, PartialEq, Eq, Structural, Debug)]
pub enum CarVariant {
    Black,
    Blue,
    Green,
    Red,
    Yellow,
}

/// A simulated object, identified by a unique string label.
pub struct Entity {
    pub label: String,
    pub kind: Kind,
    /// `Some` exactly for cars.
    pub variant: Option<CarVariant>,
    /// Horizontal position, milli-pixels; grows to the right.
    pub x: i64,
    /// Vertical position, milli-pixels; grows upward.
    pub y: i64,
    /// Render layer handed to the host.
    pub layer: u32,
    /// Whether the host reports collisions for this entity.
    pub collidable: bool,
}

impl Entity {
    /// An equal copy of the entity.
    pub fn duplicate(&self) -> (r: Entity)
        ensures
            r == *self,
    {
        Entity {
            label: self.label.clone(),
            kind: self.kind,
            variant: self.variant,
            x: self.x,
            y: self.y,
            layer: self.layer,
            collidable: self.collidable,
        }
    }
}

/// The entity sits inside the region that every entity of a well-formed
/// state occupies at the start of a tick.
pub open spec fn in_bounds(e: Entity) -> bool {
    &&& LEFT_BOUND <= e.x <= RIGHT_BOUND
    &&& BOTTOM_BOUND <= e.y <= TOP_BOUND
}

/// The entity has left the play area through its top or its right edge and
/// is due to be culled.
pub open spec fn off_screen(e: Entity) -> bool {
    e.y > TOP_BOUND || e.x > RIGHT_BOUND
}

/// How one tick of motion over `dt` milliseconds relates an entity to its
/// previous value: cars advance to the right, marbles advance upward, the
/// player stands still, and nothing else changes.
pub open spec fn entity_moved(pre: Entity, post: Entity, dt: u64) -> bool {
    &&& post.label == pre.label
    &&& post.kind == pre.kind
    &&& post.variant == pre.variant
    &&& post.layer == pre.layer
    &&& post.collidable == pre.collidable
    &&& match pre.kind {
        Kind::Car => post.x == pre.x + CAR_SPEED * (dt as int) && post.y == pre.y,
        Kind::Projectile => post.x == pre.x && post.y == pre.y + MARBLE_SPEED * (dt as int),
        Kind::Player => post.x == pre.x && post.y == pre.y,
    }
}

} // verus!
