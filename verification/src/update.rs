//! The one operation the host drives: a whole simulation tick, composed of
//! entity motion, bounds cleanup, fire control, the spawn scheduler and
//! collision resolution, in that order.

use vstd::prelude::*;

use crate::collision::events_rel;
use crate::entity::Entity;
use crate::entity::entity_moved;
use crate::entity::in_bounds;
use crate::events::Action;
use crate::events::CollisionEvent;
use crate::fire::fire_actions;
use crate::fire::fire_rel;
use crate::motion::cleanup_rel;
use crate::motion::motion_rel;
use crate::motion::on_screen;
use crate::spawn::scheduler_actions;
use crate::spawn::scheduler_rel;
use crate::state::GameState;
use crate::state::MAX_TICK_MS;
use crate::state::has_player;
use crate::state::lemma_filter_keeps_distinct;
use crate::state::lemma_filter_keeps_not_live;
use crate::state::lemma_filter_subset;
use crate::state::live_projectile;
use crate::state::well_formed;

verus! {

/// How one whole tick relates the state after it, and the actions the tick
/// returns, to the state before it: the five responsibilities run in order
/// through four intermediate states, and the actions are those of fire
/// control, then the scheduler, then collision resolution.
pub open spec fn tick_rel(
    pre: GameState,
    post: GameState,
    dt: u64,
    fire_edge: bool,
    evs: Seq<CollisionEvent>,
    acts: Seq<Action>,
) -> bool {
    exists|s1: GameState, s2: GameState, s3: GameState, s4: GameState|
        #![trigger motion_rel(pre, s1, dt), cleanup_rel(s1, s2), fire_rel(s2, s3, fire_edge),
            scheduler_rel(s3, s4, dt)]
        {
            let head = fire_actions(s2, s3, fire_edge) + scheduler_actions(s3, s4, dt);
            &&& motion_rel(pre, s1, dt)
            &&& cleanup_rel(s1, s2)
            &&& fire_rel(s2, s3, fire_edge)
            &&& scheduler_rel(s3, s4, dt)
            &&& head.is_prefix_of(acts)
            &&& events_rel(s4, post, evs, acts.skip(head.len() as int))
        }
}

/// The monotonicity law of a tick, however many ticks are chained: the car
/// countdown never grows, and the points never shrink and grow by at most
/// one per collision event.
pub proof fn lemma_tick_monotonic(
    pre: GameState,
    post: GameState,
    dt: u64,
    fire_edge: bool,
    evs: Seq<CollisionEvent>,
    acts: Seq<Action>,
)
    requires
        tick_rel(pre, post, dt, fire_edge, evs, acts),
    ensures
        post.cars_remaining <= pre.cars_remaining,
        pre.points <= post.points <= pre.points + evs.len(),
{
    let (s1, s2, s3, s4) = choose|s1: GameState, s2: GameState, s3: GameState, s4: GameState|
        #![trigger motion_rel(pre, s1, dt), cleanup_rel(s1, s2), fire_rel(s2, s3, fire_edge),
            scheduler_rel(s3, s4, dt)]
        {
            let head = fire_actions(s2, s3, fire_edge) + scheduler_actions(s3, s4, dt);
            &&& motion_rel(pre, s1, dt)
            &&& cleanup_rel(s1, s2)
            &&& fire_rel(s2, s3, fire_edge)
            &&& scheduler_rel(s3, s4, dt)
            &&& head.is_prefix_of(acts)
            &&& events_rel(s4, post, evs, acts.skip(head.len() as int))
        };
    let head = fire_actions(s2, s3, fire_edge) + scheduler_actions(s3, s4, dt);
    assert(s3.cars_remaining == pre.cars_remaining && s3.points == pre.points);
    assert(s4.cars_remaining <= s3.cars_remaining && s4.points == s3.points);
    crate::collision::lemma_events_rel_monotonic(s4, post, evs, acts.skip(head.len() as int));
}

/// Motion followed by cleanup carries the state invariant over, and the
/// player — unmoved and in bounds — survives the cleanup.
proof fn lemma_motion_cleanup_preserves(s0: GameState, s1: GameState, s2: GameState, dt: u64)
    requires
        well_formed(s0),
        has_player(s0.entities@),
        dt <= MAX_TICK_MS,
        motion_rel(s0, s1, dt),
        cleanup_rel(s1, s2),
    ensures
        well_formed(s2),
        has_player(s2.entities@),
{
    let keep = (|e: Entity| on_screen(e));
    // Motion changes no label and no kind, so what was not live before is
    // not live after.
    assert forall|p: Seq<char>| !live_projectile(s0.entities@, p) implies !live_projectile(
        s1.entities@,
        p,
    ) by {
        if live_projectile(s1.entities@, p) {
            let w = choose|w: int|
                0 <= w < s1.entities@.len() && (#[trigger] s1.entities@[w]).kind is Projectile
                    && s1.entities@[w].label@ == p;
            assert(entity_moved(s0.entities@[w], s1.entities@[w], dt));
            assert(live_projectile(s0.entities@, p));
        }
    }
    assert forall|k: int| 0 <= k < s2.ammo_pool@.len() implies !live_projectile(
        s2.entities@,
        (#[trigger] s2.ammo_pool@[k])@,
    ) by {
        assert(s2.ammo_pool@[k] == s0.ammo_pool@[k]);
        assert(!live_projectile(s0.entities@, s0.ammo_pool@[k]@));
        lemma_filter_keeps_not_live(s1.entities@, keep, s2.ammo_pool@[k]@);
    }
    assert forall|a: int, b: int|
        0 <= a < b < s1.entities@.len() && (#[trigger] s1.entities@[a]).kind is Projectile && (
        #[trigger] s1.entities@[b]).kind is Projectile implies s1.entities@[a].label@
        != s1.entities@[b].label@ by {
        assert(entity_moved(s0.entities@[a], s1.entities@[a], dt));
        assert(entity_moved(s0.entities@[b], s1.entities@[b], dt));
    }
    lemma_filter_keeps_distinct(s1.entities@, keep);
    // Survivors passed the cleanup predicate, so they are under the top and
    // right bounds; and motion only grows a position, so they are still
    // above the lower ones.
    lemma_filter_subset(s1.entities@, keep);
    assert forall|k: int| 0 <= k < s2.entities@.len() implies in_bounds(
        #[trigger] s2.entities@[k],
    ) by {
        s1.entities@.lemma_filter_pred(keep, k);
        assert(s1.entities@.contains(s2.entities@[k]));
        let w = choose|w: int| 0 <= w < s1.entities@.len() && s1.entities@[w] == s2.entities@[k];
        assert(entity_moved(s0.entities@[w], s1.entities@[w], dt));
        assert(in_bounds(s0.entities@[w]));
    }
    let w = choose|w: int|
        0 <= w < s0.entities@.len() && (#[trigger] s0.entities@[w]).kind is Player;
    assert(entity_moved(s0.entities@[w], s1.entities@[w], dt));
    assert(in_bounds(s0.entities@[w]));
    assert(keep(s1.entities@[w]));
    s1.entities@.lemma_filter_contains(keep, w);
    assert(s2.entities@.contains(s1.entities@[w]));
    let v = choose|v: int| 0 <= v < s2.entities@.len() && s2.entities@[v] == s1.entities@[w];
    assert(has_player(s2.entities@));
}

impl GameState {
    /// One whole simulation tick: move every entity, cull what has left the
    /// play area, handle a fire edge, run the spawn scheduler, and consume
    /// the tick's collision events in order. Returns the actions the host
    /// is asked to carry out, in order. The car countdown never grows and
    /// the points never shrink.
    pub fn update(&mut self, dt: u64, fire_edge: bool, events: &Vec<CollisionEvent>) -> (actions:
        Vec<Action>)
        requires
            well_formed(*old(self)),
            has_player(old(self).entities@),
            dt <= MAX_TICK_MS,
            old(self).points + events@.len() <= u32::MAX,
        ensures
            tick_rel(*old(self), *final(self), dt, fire_edge, events@, actions@),
            well_formed(*final(self)),
            final(self).cars_remaining <= old(self).cars_remaining,
            old(self).points <= final(self).points,
    {
        let mut actions: Vec<Action> = Vec::new();
        self.advance_entities(dt);
        let ghost s1 = *self;
        self.cleanup_out_of_bounds();
        let ghost s2 = *self;
        proof {
            lemma_motion_cleanup_preserves(*old(self), s1, s2, dt);
        }
        self.fire(fire_edge, &mut actions);
        let ghost s3 = *self;
        self.run_spawn_scheduler(dt, &mut actions);
        let ghost s4 = *self;
        let ghost head = fire_actions(s2, s3, fire_edge) + scheduler_actions(s3, s4, dt);
        proof {
            assert(actions@ =~= head);
        }
        self.process_collisions(events, &mut actions);
        proof {
            assert(motion_rel(*old(self), s1, dt));
            assert(cleanup_rel(s1, s2));
            assert(fire_rel(s2, s3, fire_edge));
            assert(scheduler_rel(s3, s4, dt));
            assert(head.is_prefix_of(actions@));
            assert(events_rel(s4, *self, events@, actions@.skip(head.len() as int)));
        }
        actions
    }
}

} // verus!
