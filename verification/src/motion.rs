//! The first two responsibilities of a tick: entity motion, then bounds
//! cleanup.

use vstd::prelude::*;

use crate::entity::CAR_SPEED;
use crate::entity::Entity;
use crate::entity::Kind;
use crate::entity::MARBLE_SPEED;
use crate::entity::RIGHT_BOUND;
use crate::entity::TOP_BOUND;
use crate::entity::entity_moved;
use crate::entity::off_screen;
use crate::state::GameState;
use crate::state::MAX_TICK_MS;
use crate::state::entities_in_bounds;

verus! {

/// An entity survives the bounds cleanup.
pub open spec fn on_screen(e: Entity) -> bool {
    !off_screen(e)
}

/// How entity motion relates the state after it to the state before it:
/// every entity has moved by its speed times the elapsed time, and nothing
/// else has changed.
pub open spec fn motion_rel(pre: GameState, post: GameState, dt: u64) -> bool {
    &&& post.entities@.len() == pre.entities@.len()
    &&& forall|i: int|
        0 <= i < pre.entities@.len() ==> entity_moved(
            pre.entities@[i],
            #[trigger] post.entities@[i],
            dt,
        )
    &&& post.ammo_pool == pre.ammo_pool
    &&& post.spawn_delay_ms == pre.spawn_delay_ms
    &&& post.cars_remaining == pre.cars_remaining
    &&& post.points == pre.points
}

/// How bounds cleanup relates the state after it to the state before it:
/// the off-screen entities are gone, the rest stand in order, and nothing
/// else has changed.
pub open spec fn cleanup_rel(pre: GameState, post: GameState) -> bool {
    &&& post.entities@ == pre.entities@.filter(|e: Entity| on_screen(e))
    &&& post.ammo_pool == pre.ammo_pool
    &&& post.spawn_delay_ms == pre.spawn_delay_ms
    &&& post.cars_remaining == pre.cars_remaining
    &&& post.points == pre.points
}

impl GameState {
    /// Entity motion: advance every car to the right and every marble
    /// upward by its speed times the elapsed time; everything else about
    /// every entity, and all other state, is untouched.
    pub fn advance_entities(&mut self, dt: u64)
        requires
            entities_in_bounds(*old(self)),
            dt <= MAX_TICK_MS,
        ensures
            motion_rel(*old(self), *final(self), dt),
    {
        let n = self.entities.len();
        let mut i: usize = 0;
        while i < n
            invariant
                dt <= MAX_TICK_MS,
                entities_in_bounds(*old(self)),
                i <= n,
                n == self.entities@.len(),
                self.entities@.len() == old(self).entities@.len(),
                forall|j: int| i <= j < n ==> self.entities@[j] == old(self).entities@[j],
                forall|j: int|
                    0 <= j < i ==> entity_moved(
                        old(self).entities@[j],
                        #[trigger] self.entities@[j],
                        dt,
                    ),
                self.ammo_pool == old(self).ammo_pool,
                self.spawn_delay_ms == old(self).spawn_delay_ms,
                self.cars_remaining == old(self).cars_remaining,
                self.points == old(self).points,
            decreases n - i,
        {
            let mut e = self.entities[i].duplicate();
            match e.kind {
                Kind::Car => {
                    e.x = e.x + CAR_SPEED * (dt as i64);
                },
                Kind::Projectile => {
                    e.y = e.y + MARBLE_SPEED * (dt as i64);
                },
                Kind::Player => {},
            }
            self.entities[i] = e;
            i = i + 1;
        }
    }

    /// Bounds cleanup: remove every entity that has left the play area
    /// through its top or right edge, keeping the rest in order; all other
    /// state is untouched.
    pub fn cleanup_out_of_bounds(&mut self)
        ensures
            cleanup_rel(*old(self), *final(self)),
    {
        let ghost orig = self.entities@;
        let ghost mut j: int = 0;
        let mut i: usize = 0;
        while i < self.entities.len()
            invariant
                0 <= i <= self.entities@.len(),
                0 <= j <= orig.len(),
                i == orig.subrange(0, j).filter(|e: Entity| on_screen(e)).len(),
                self.entities@ =~= orig.subrange(0, j).filter(|e: Entity| on_screen(e))
                    + orig.subrange(j, orig.len() as int),
                self.ammo_pool == old(self).ammo_pool,
                self.spawn_delay_ms == old(self).spawn_delay_ms,
                self.cars_remaining == old(self).cars_remaining,
                self.points == old(self).points,
            decreases orig.len() - j,
        {
            proof {
                assert(self.entities@[i as int] == orig[j]);
                assert(orig.subrange(0, j + 1).drop_last() =~= orig.subrange(0, j));
                reveal(Seq::filter);
            }
            let keep = {
                let e = &self.entities[i];
                !(e.y > TOP_BOUND || e.x > RIGHT_BOUND)
            };
            if keep {
                i = i + 1;
            } else {
                self.entities.remove(i);
            }
            proof {
                j = j + 1;
                assert(self.entities@ =~= orig.subrange(0, j).filter(|e: Entity| on_screen(e))
                    + orig.subrange(j, orig.len() as int));
            }
        }
        proof {
            assert(orig.subrange(0, j) =~= orig);
        }
    }
}

} // verus!
