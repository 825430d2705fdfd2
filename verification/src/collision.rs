//! Collision resolution: consume the tick's collision events in order. A
//! `Begin` event one of whose members is a live marble scores a point,
//! removes both named entities, and returns the marble's identity to the
//! ammo pool; every other event changes nothing.

use vstd::prelude::*;

use crate::entity::Entity;
use crate::entity::Kind;
use crate::entity::in_bounds;
use crate::events::Action;
use crate::events::CollisionEvent;
use crate::events::Transition;
use crate::state::GameState;
use crate::state::lemma_filter_keeps_distinct;
use crate::state::lemma_filter_keeps_not_live;
use crate::state::lemma_filter_subset;
use crate::state::live_projectile;
use crate::state::well_formed;

verus! {

/// The entity is named by one side of the event and is removed when the
/// event scores.
pub open spec fn hit_by(e: Entity, ev: CollisionEvent) -> bool {
    e.label@ == ev.first@ || e.label@ == ev.second@
}

/// The event scores: it is a `Begin` transition and one of its members is a
/// live marble.
pub open spec fn scoring_event(entities: Seq<Entity>, ev: CollisionEvent) -> bool {
    &&& ev.transition is Begin
    &&& (live_projectile(entities, ev.first@) || live_projectile(entities, ev.second@))
}

/// The identity a scoring event returns to the pool: the first member of
/// the pair that is a live marble (only that one is recycled even when both
/// members are marbles).
pub open spec fn recycled_identity(entities: Seq<Entity>, ev: CollisionEvent) -> String {
    if live_projectile(entities, ev.first@) {
        ev.first
    } else {
        ev.second
    }
}

/// How one consumed collision event relates the state after it to the state
/// before it.
pub open spec fn event_rel(pre: GameState, post: GameState, ev: CollisionEvent) -> bool {
    if !scoring_event(pre.entities@, ev) {
        post == pre
    } else {
        &&& post.points == pre.points + 1
        &&& post.entities@ == pre.entities@.filter(|e: Entity| !hit_by(e, ev))
        &&& post.ammo_pool@ == pre.ammo_pool@.push(recycled_identity(pre.entities@, ev))
        &&& post.spawn_delay_ms == pre.spawn_delay_ms
        &&& post.cars_remaining == pre.cars_remaining
    }
}

/// The actions one consumed event appends: none unless it scores; for a
/// scoring event, the refreshed score text, the two sprite removals, and
/// the scoring sound.
pub open spec fn event_actions(pre: GameState, ev: CollisionEvent) -> Seq<Action> {
    if !scoring_event(pre.entities@, ev) {
        Seq::empty()
    } else {
        seq![
            Action::ShowPoints((pre.points + 1) as u32),
            Action::RemoveSprite(ev.first),
            Action::RemoveSprite(ev.second),
            Action::PlayScoreSound,
        ]
    }
}

/// How a whole batch of collision events, consumed in order, relates the
/// state after the batch, and the actions the batch appends, to the state
/// before it.
pub open spec fn events_rel(
    pre: GameState,
    post: GameState,
    evs: Seq<CollisionEvent>,
    acts: Seq<Action>,
) -> bool
    decreases evs.len(),
{
    if evs.len() == 0 {
        post == pre && acts == Seq::<Action>::empty()
    } else {
        let head = event_actions(pre, evs.first());
        exists|mid: GameState|
            {
                &&& #[trigger] event_rel(pre, mid, evs.first())
                &&& head.is_prefix_of(acts)
                &&& events_rel(mid, post, evs.drop_first(), acts.skip(head.len() as int))
            }
    }
}

/// A batch followed by one more event is the batch extended by that event,
/// with that event's actions appended.
pub proof fn lemma_events_rel_snoc(
    pre: GameState,
    mid: GameState,
    post: GameState,
    evs: Seq<CollisionEvent>,
    ev: CollisionEvent,
    acts: Seq<Action>,
)
    requires
        events_rel(pre, mid, evs, acts),
        event_rel(mid, post, ev),
    ensures
        events_rel(pre, post, evs.push(ev), acts + event_actions(mid, ev)),
    decreases evs.len(),
{
    let evs2 = evs.push(ev);
    let acts2 = acts + event_actions(mid, ev);
    if evs.len() == 0 {
        assert(mid == pre);
        assert(evs2.first() == ev);
        assert(evs2.drop_first() =~= Seq::<CollisionEvent>::empty());
        let head = event_actions(pre, ev);
        assert(acts2 =~= head);
        assert(head.is_prefix_of(acts2));
        assert(acts2.skip(head.len() as int) =~= Seq::<Action>::empty());
        assert(event_rel(pre, post, evs2.first()) && events_rel(
            post,
            post,
            evs2.drop_first(),
            acts2.skip(head.len() as int),
        ));
    } else {
        let head = event_actions(pre, evs.first());
        let m2 = choose|m2: GameState|
            {
                &&& #[trigger] event_rel(pre, m2, evs.first())
                &&& head.is_prefix_of(acts)
                &&& events_rel(m2, mid, evs.drop_first(), acts.skip(head.len() as int))
            };
        lemma_events_rel_snoc(m2, mid, post, evs.drop_first(), ev, acts.skip(head.len() as int));
        assert(evs2.first() == evs.first());
        assert(evs2.drop_first() =~= evs.drop_first().push(ev));
        assert(head.is_prefix_of(acts2)) by {
            assert(acts2.subrange(0, head.len() as int) =~= acts.subrange(0, head.len() as int));
        }
        assert(acts2.skip(head.len() as int) =~= acts.skip(head.len() as int) + event_actions(
            mid,
            ev,
        ));
        assert(event_rel(pre, m2, evs2.first()) && events_rel(
            m2,
            post,
            evs2.drop_first(),
            acts2.skip(head.len() as int),
        ));
    }
}

/// Across a consumed batch, the points never shrink and grow by at most one
/// per event, and the other counters stand still.
pub proof fn lemma_events_rel_monotonic(
    pre: GameState,
    post: GameState,
    evs: Seq<CollisionEvent>,
    acts: Seq<Action>,
)
    requires
        events_rel(pre, post, evs, acts),
    ensures
        pre.points <= post.points <= pre.points + evs.len(),
        post.cars_remaining == pre.cars_remaining,
        post.spawn_delay_ms == pre.spawn_delay_ms,
    decreases evs.len(),
{
    if evs.len() > 0 {
        let head = event_actions(pre, evs.first());
        let mid = choose|mid: GameState|
            {
                &&& #[trigger] event_rel(pre, mid, evs.first())
                &&& head.is_prefix_of(acts)
                &&& events_rel(mid, post, evs.drop_first(), acts.skip(head.len() as int))
            };
        lemma_events_rel_monotonic(mid, post, evs.drop_first(), acts.skip(head.len() as int));
    }
}

impl GameState {
    /// Whether some live entity of kind `Projectile` carries this label.
    pub fn is_live_projectile(&self, label: &String) -> (r: bool)
        ensures
            r == live_projectile(self.entities@, label@),
    {
        let n = self.entities.len();
        let mut i: usize = 0;
        while i < n
            invariant
                n == self.entities@.len(),
                0 <= i <= n,
                forall|j: int|
                    0 <= j < i ==> !((#[trigger] self.entities@[j]).kind is Projectile
                        && self.entities@[j].label@ == label@),
            decreases n - i,
        {
            let e = &self.entities[i];
            if matches!(e.kind, Kind::Projectile) && e.label == *label {
                return true;
            }
            i = i + 1;
        }
        false
    }

    /// Remove every live entity named by either side of the event, keeping
    /// the rest in order.
    fn remove_hit_entities(&mut self, ev: &CollisionEvent)
        ensures
            final(self).entities@ == old(self).entities@.filter(
                (|e: Entity| !hit_by(e, *ev)),
            ),
            final(self).ammo_pool == old(self).ammo_pool,
            final(self).spawn_delay_ms == old(self).spawn_delay_ms,
            final(self).cars_remaining == old(self).cars_remaining,
            final(self).points == old(self).points,
    {
        let ghost orig = self.entities@;
        let ghost mut j: int = 0;
        let mut i: usize = 0;
        while i < self.entities.len()
            invariant
                0 <= i <= self.entities@.len(),
                0 <= j <= orig.len(),
                i == orig.subrange(0, j).filter((|e: Entity| !hit_by(e, *ev))).len(),
                self.entities@ =~= orig.subrange(0, j).filter((|e: Entity| !hit_by(e, *ev)))
                    + orig.subrange(j, orig.len() as int),
                self.ammo_pool == old(self).ammo_pool,
                self.spawn_delay_ms == old(self).spawn_delay_ms,
                self.cars_remaining == old(self).cars_remaining,
                self.points == old(self).points,
            decreases orig.len() - j,
        {
            proof {
                assert(self.entities@[i as int] == orig[j]);
                assert(orig.subrange(0, j + 1).drop_last() =~= orig.subrange(0, j));
                reveal(Seq::filter);
            }
            let keep = {
                let e = &self.entities[i];
                !(e.label == ev.first || e.label == ev.second)
            };
            if keep {
                i = i + 1;
            } else {
                self.entities.remove(i);
            }
            proof {
                j = j + 1;
                assert(self.entities@ =~= orig.subrange(0, j).filter(
                    (|e: Entity| !hit_by(e, *ev)),
                ) + orig.subrange(j, orig.len() as int));
            }
        }
        proof {
            assert(orig.subrange(0, j) =~= orig);
        }
    }

    /// Consume one collision event. A scoring event — a `Begin` transition
    /// one of whose members is a live marble — scores a point, removes both
    /// named entities, returns the first-matched marble identity to the
    /// pool, and asks the host to refresh the score, drop the two sprites
    /// and play the scoring sound. Any other event changes nothing.
    pub fn process_event(&mut self, ev: &CollisionEvent, actions: &mut Vec<Action>)
        requires
            well_formed(*old(self)),
            old(self).points < u32::MAX,
        ensures
            event_rel(*old(self), *final(self), *ev),
            well_formed(*final(self)),
            final(actions)@ == old(actions)@ + event_actions(*old(self), *ev),
    {
        if matches!(ev.transition, Transition::End) {
            proof {
                assert(actions@ =~= actions@ + Seq::<Action>::empty());
            }
            return ;
        }
        let first_is_marble = self.is_live_projectile(&ev.first);
        let second_is_marble = self.is_live_projectile(&ev.second);
        if !first_is_marble && !second_is_marble {
            proof {
                assert(actions@ =~= actions@ + Seq::<Action>::empty());
            }
            return ;
        }
        let ghost pre = *old(self);
        self.points = self.points + 1;
        actions.push(Action::ShowPoints(self.points));
        self.remove_hit_entities(ev);
        actions.push(Action::RemoveSprite(ev.first.clone()));
        actions.push(Action::RemoveSprite(ev.second.clone()));
        actions.push(Action::PlayScoreSound);
        let recycled = if first_is_marble {
            ev.first.clone()
        } else {
            ev.second.clone()
        };
        self.ammo_pool.push(recycled);
        proof {
            let keep = (|e: Entity| !hit_by(e, *ev));
            let l = recycled_identity(pre.entities@, *ev);
            assert(event_rel(pre, *self, *ev));
            assert(actions@ =~= old(actions)@ + event_actions(pre, *ev));
            // Every survivor is one of the previous entities, so it is
            // still inside the play area.
            lemma_filter_subset(pre.entities@, keep);
            assert forall|k: int| 0 <= k < self.entities@.len() implies in_bounds(
                #[trigger] self.entities@[k],
            ) by {
                assert(pre.entities@.contains(self.entities@[k]));
                let w = choose|w: int|
                    0 <= w < pre.entities@.len() && pre.entities@[w] == self.entities@[k];
                assert(in_bounds(pre.entities@[w]));
            }
            lemma_filter_keeps_distinct(pre.entities@, keep);
            // The recycled identity was live before, so by the exclusion
            // invariant it sat in no pool slot; and both named labels were
            // just removed, so it is live no longer.
            assert(live_projectile(pre.entities@, l@));
            assert forall|a: int, b: int|
                0 <= a < b < self.ammo_pool@.len() implies (#[trigger] self.ammo_pool@[a])@ != (
            #[trigger] self.ammo_pool@[b])@ by {
                if b == self.ammo_pool@.len() - 1 {
                    assert(self.ammo_pool@[a] == pre.ammo_pool@[a]);
                    assert(self.ammo_pool@[b] == l);
                    assert(!live_projectile(pre.entities@, pre.ammo_pool@[a]@));
                } else {
                    assert(self.ammo_pool@[a] == pre.ammo_pool@[a]);
                    assert(self.ammo_pool@[b] == pre.ammo_pool@[b]);
                }
            }
            assert forall|k: int| 0 <= k < self.ammo_pool@.len() implies !live_projectile(
                self.entities@,
                (#[trigger] self.ammo_pool@[k])@,
            ) by {
                if k < self.ammo_pool@.len() - 1 {
                    assert(self.ammo_pool@[k] == pre.ammo_pool@[k]);
                    assert(!live_projectile(pre.entities@, pre.ammo_pool@[k]@));
                    lemma_filter_keeps_not_live(pre.entities@, keep, pre.ammo_pool@[k]@);
                } else {
                    assert(self.ammo_pool@[k] == l);
                    if live_projectile(self.entities@, l@) {
                        let w = choose|w: int|
                            0 <= w < self.entities@.len() && (#[trigger] self.entities@[w]).kind
                                is Projectile && self.entities@[w].label@ == l@;
                        assert(keep(self.entities@[w]));
                    }
                }
            }
        }
    }

    /// Consume the tick's whole batch of collision events, in order, each
    /// exactly once.
    pub fn process_collisions(&mut self, events: &Vec<CollisionEvent>, actions: &mut Vec<Action>)
        requires
            well_formed(*old(self)),
            old(self).points + events@.len() <= u32::MAX,
        ensures
            events_rel(
                *old(self),
                *final(self),
                events@,
                final(actions)@.skip(old(actions)@.len() as int),
            ),
            old(actions)@.is_prefix_of(final(actions)@),
            well_formed(*final(self)),
            old(self).points <= final(self).points <= old(self).points + events@.len(),
            final(self).cars_remaining == old(self).cars_remaining,
            final(self).spawn_delay_ms == old(self).spawn_delay_ms,
    {
        let ghost base = old(actions)@.len() as int;
        let n = events.len();
        let mut i: usize = 0;
        proof {
            assert(events@.subrange(0, 0) =~= Seq::<CollisionEvent>::empty());
            assert(actions@.skip(base) =~= Seq::<Action>::empty());
        }
        while i < n
            invariant
                n == events@.len(),
                0 <= i <= n,
                well_formed(*self),
                base == old(actions)@.len() as int,
                old(actions)@.is_prefix_of(actions@),
                events_rel(*old(self), *self, events@.subrange(0, i as int), actions@.skip(base)),
                old(self).points <= self.points <= old(self).points + i,
                old(self).points + events@.len() <= u32::MAX,
                self.cars_remaining == old(self).cars_remaining,
                self.spawn_delay_ms == old(self).spawn_delay_ms,
            decreases n - i,
        {
            let ghost mid = *self;
            let ghost acts_mid = actions@;
            let ev = &events[i];
            self.process_event(ev, actions);
            proof {
                lemma_events_rel_snoc(
                    *old(self),
                    mid,
                    *self,
                    events@.subrange(0, i as int),
                    *ev,
                    acts_mid.skip(base),
                );
                assert(events@.subrange(0, i + 1) =~= events@.subrange(0, i as int).push(
                    events@[i as int],
                ));
                assert(actions@.skip(base) =~= acts_mid.skip(base) + event_actions(mid, *ev));
                assert(old(actions)@.is_prefix_of(actions@)) by {
                    assert(actions@.subrange(0, base) =~= acts_mid.subrange(0, base));
                }
            }
            i = i + 1;
        }
        proof {
            assert(events@.subrange(0, n as int) =~= events@);
        }
    }
}

} // verus!
