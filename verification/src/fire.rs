//! Fire control: on a fresh fire edge, pop the most recently returned
//! identity from the ammo pool and spawn a marble above the player.

use vstd::prelude::*;

use crate::entity::Entity;
use crate::entity::Kind;
use crate::entity::MARBLE_LAYER;
use crate::entity::MARBLE_SPAWN_Y;
use crate::entity::in_bounds;
use crate::events::Action;
use crate::state::GameState;
use crate::state::has_player;
use crate::state::is_first_player;
use crate::state::live_projectile;
use crate::state::well_formed;

verus! {

/// The entity a fire edge creates: a collidable marble carrying the popped
/// identity, just above the player's horizontal position.
pub open spec fn is_fresh_projectile(e: Entity, label: String, px: i64) -> bool {
    &&& e.label == label
    &&& e.kind is Projectile
    &&& e.variant is None
    &&& e.x == px
    &&& e.y == MARBLE_SPAWN_Y
    &&& e.layer == MARBLE_LAYER
    &&& e.collidable
}

/// How fire control relates the state after a tick's fire step to the state
/// before it: without a fire edge, or with an empty pool, nothing changes;
/// otherwise the last pool identity becomes a fresh marble at the first
/// player's horizontal position.
pub open spec fn fire_rel(pre: GameState, post: GameState, fire_edge: bool) -> bool {
    if !fire_edge || pre.ammo_pool@.len() == 0 {
        post == pre
    } else {
        &&& post.ammo_pool@ == pre.ammo_pool@.drop_last()
        &&& exists|e: Entity, i: int|
            {
                &&& post.entities@ == pre.entities@.push(e)
                &&& #[trigger] is_fresh_projectile(e, pre.ammo_pool@.last(), pre.entities@[i].x)
                &&& is_first_player(pre.entities@, i)
            }
        &&& post.spawn_delay_ms == pre.spawn_delay_ms
        &&& post.cars_remaining == pre.cars_remaining
        &&& post.points == pre.points
    }
}

/// The actions fire control appends: none without a fire edge or with an
/// empty pool; otherwise the new marble is shown and the firing sound plays.
pub open spec fn fire_actions(pre: GameState, post: GameState, fire_edge: bool) -> Seq<Action> {
    if !fire_edge || pre.ammo_pool@.len() == 0 {
        Seq::empty()
    } else {
        seq![Action::SpawnSprite(post.entities@.last()), Action::PlayFireSound]
    }
}

impl GameState {
    /// Fire control. With a fresh fire edge and a non-empty pool, pop the
    /// most recently returned identity, spawn a collidable marble above the
    /// player, and ask the host to show it and play the firing sound; in
    /// every other case, change nothing.
    pub fn fire(&mut self, fire_edge: bool, actions: &mut Vec<Action>)
        requires
            well_formed(*old(self)),
            has_player(old(self).entities@),
        ensures
            fire_rel(*old(self), *final(self), fire_edge),
            well_formed(*final(self)),
            final(actions)@ == old(actions)@ + fire_actions(*old(self), *final(self), fire_edge),
    {
        if !fire_edge || self.ammo_pool.len() == 0 {
            proof {
                assert(actions@ =~= actions@ + Seq::<Action>::empty());
            }
            return ;
        }
        let px = self.player_x();
        let label = match self.ammo_pool.pop() {
            Some(l) => l,
            None => unreached(),
        };
        let marble = Entity {
            label,
            kind: Kind::Projectile,
            variant: None,
            x: px,
            y: MARBLE_SPAWN_Y,
            layer: MARBLE_LAYER,
            collidable: true,
        };
        let shown = marble.duplicate();
        let ghost pre = *old(self);
        let ghost m = marble;
        self.entities.push(marble);
        actions.push(Action::SpawnSprite(shown));
        actions.push(Action::PlayFireSound);
        proof {
            let i = choose|i: int| #[trigger] is_first_player(pre.entities@, i) && px
                == pre.entities@[i].x;
            assert(is_fresh_projectile(m, pre.ammo_pool@.last(), pre.entities@[i].x));
            assert(fire_rel(pre, *self, fire_edge));
            assert(actions@ =~= old(actions)@ + fire_actions(pre, *self, fire_edge));
            // The new marble sits inside the play area: its horizontal
            // position is the player's, and the player is in bounds.
            assert(in_bounds(m));
            assert forall|k: int| 0 <= k < self.entities@.len() implies in_bounds(
                #[trigger] self.entities@[k],
            ) by {
                if k < pre.entities@.len() {
                    assert(in_bounds(pre.entities@[k]));
                }
            }
            // The popped identity is in no other pool slot, so the shrunk
            // pool stays disjoint from the live projectiles even though the
            // new marble now carries that identity.
            assert forall|k: int| 0 <= k < self.ammo_pool@.len() implies !live_projectile(
                self.entities@,
                (#[trigger] self.ammo_pool@[k])@,
            ) by {
                assert(self.ammo_pool@[k] == pre.ammo_pool@[k]);
                assert(!live_projectile(pre.entities@, pre.ammo_pool@[k]@));
                assert(pre.ammo_pool@[k]@ != pre.ammo_pool@.last()@);
                if live_projectile(self.entities@, pre.ammo_pool@[k]@) {
                    let w = choose|w: int|
                        0 <= w < self.entities@.len() && (#[trigger] self.entities@[w]).kind
                            is Projectile && self.entities@[w].label@ == pre.ammo_pool@[k]@;
                    assert(w < pre.entities@.len());
                    assert(live_projectile(pre.entities@, pre.ammo_pool@[k]@));
                }
            }
            // No live projectile carried the popped identity before, so the
            // projectile labels stay pairwise distinct.
            assert forall|a: int, b: int|
                0 <= a < b < self.entities@.len() && (#[trigger] self.entities@[a]).kind
                    is Projectile && (#[trigger] self.entities@[b]).kind
                    is Projectile implies self.entities@[a].label@ != self.entities@[b].label@ by {
                if b < pre.entities@.len() {
                    assert(self.entities@[a] == pre.entities@[a]);
                    assert(self.entities@[b] == pre.entities@[b]);
                } else {
                    assert(self.entities@[b] == m);
                    assert(!live_projectile(pre.entities@, pre.ammo_pool@.last()@));
                    assert(self.entities@[a] == pre.entities@[a]);
                }
            }
        }
    }
}

} // verus!
