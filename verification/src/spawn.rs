//! The spawn scheduler: a countdown timer with a randomized duration. When
//! it fires it redraws its delay, and, while the car countdown is positive,
//! decrements the countdown and spawns a car on the left edge at a random
//! height, in a random visual variant.

use vstd::prelude::*;

use crate::entity::CAR_LAYER;
use crate::entity::CAR_SPAWN_X;
use crate::entity::CAR_SPAWN_Y_MAX;
use crate::entity::CAR_SPAWN_Y_MIN;
use crate::entity::CarVariant;
use crate::entity::Entity;
use crate::entity::Kind;
use crate::entity::in_bounds;
use crate::events::Action;
use crate::label::car_label;
use crate::label::spec_car_label;
use crate::rng::random_in_range;
use crate::state::GameState;
use crate::state::live_projectile;
use crate::state::well_formed;

verus! {

/// Least delay, in milliseconds, the scheduler redraws after firing.
pub const SPAWN_DELAY_MIN_MS: u64 = 100;

/// Greatest delay (exclusive), in milliseconds, the scheduler redraws after
/// firing.
pub const SPAWN_DELAY_MAX_MS: u64 = 1250;

/// Width of the half-open range car spawn heights are drawn from.
pub const CAR_SPAWN_Y_SPAN: u64 = 425_000;

/// How many visual variants a car can spawn in.
pub const CAR_VARIANT_COUNT: u64 = 5;

/// The entity a scheduler firing creates while the countdown reads `n + 1`:
/// a collidable car labeled after the decremented countdown `n`, on the left
/// edge at the drawn height, in the drawn variant.
pub open spec fn is_fresh_car(e: Entity, n: nat, car_y: i64, variant: CarVariant) -> bool {
    &&& e.label@ == spec_car_label(n)
    &&& e.kind is Car
    &&& e.variant == Some(variant)
    &&& e.x == CAR_SPAWN_X
    &&& e.y == car_y
    &&& e.layer == CAR_LAYER
    &&& e.collidable
}

/// How one scheduler firing relates the state after it to the state before
/// it, given the values drawn for the new delay, the spawn height and the
/// variant: the delay is reset in any case; the countdown and the entity set
/// change only while the countdown is positive.
pub open spec fn spawn_fire_rel(
    pre: GameState,
    post: GameState,
    new_delay_ms: u64,
    car_y: i64,
    variant: CarVariant,
) -> bool {
    &&& post.spawn_delay_ms == new_delay_ms
    &&& post.ammo_pool == pre.ammo_pool
    &&& post.points == pre.points
    &&& if pre.cars_remaining == 0 {
        post.cars_remaining == 0 && post.entities == pre.entities
    } else {
        &&& post.cars_remaining == pre.cars_remaining - 1
        &&& exists|e: Entity|
            post.entities@ == pre.entities@.push(e) && #[trigger] is_fresh_car(
                e,
                (pre.cars_remaining - 1) as nat,
                car_y,
                variant,
            )
    }
}

/// How the scheduler relates the state after a tick to the state before it:
/// while the delay outlasts the tick it merely counts down; otherwise it
/// fires with some delay, height and variant drawn from the fixed ranges.
pub open spec fn scheduler_rel(pre: GameState, post: GameState, dt: u64) -> bool {
    if pre.spawn_delay_ms > dt {
        &&& post.spawn_delay_ms == pre.spawn_delay_ms - dt
        &&& post.entities == pre.entities
        &&& post.ammo_pool == pre.ammo_pool
        &&& post.cars_remaining == pre.cars_remaining
        &&& post.points == pre.points
    } else {
        exists|new_delay_ms: u64, car_y: i64, variant: CarVariant|
            {
                &&& SPAWN_DELAY_MIN_MS <= new_delay_ms < SPAWN_DELAY_MAX_MS
                &&& CAR_SPAWN_Y_MIN <= car_y < CAR_SPAWN_Y_MAX
                &&& #[trigger] spawn_fire_rel(pre, post, new_delay_ms, car_y, variant)
            }
    }
}

/// The actions one scheduler firing appends: none once the countdown is
/// exhausted; otherwise the refreshed countdown text and the new car.
pub open spec fn spawn_actions(pre: GameState, post: GameState) -> Seq<Action> {
    if pre.cars_remaining == 0 {
        Seq::empty()
    } else {
        seq![
            Action::ShowCarsRemaining((pre.cars_remaining - 1) as u32),
            Action::SpawnSprite(post.entities@.last()),
        ]
    }
}

/// The actions the scheduler's share of a tick appends: none while the
/// delay outlasts the tick, those of one firing otherwise.
pub open spec fn scheduler_actions(pre: GameState, post: GameState, dt: u64) -> Seq<Action> {
    if pre.spawn_delay_ms > dt {
        Seq::empty()
    } else {
        spawn_actions(pre, post)
    }
}

/// The car variant behind each drawn index.
pub fn variant_from_index(index: u64) -> (v: CarVariant)
    requires
        index < CAR_VARIANT_COUNT,
    ensures
        index == 0 ==> v == CarVariant::Black,
        index == 1 ==> v == CarVariant::Blue,
        index == 2 ==> v == CarVariant::Green,
        index == 3 ==> v == CarVariant::Red,
        index == 4 ==> v == CarVariant::Yellow,
{
    if index == 0 {
        CarVariant::Black
    } else if index == 1 {
        CarVariant::Blue
    } else if index == 2 {
        CarVariant::Green
    } else if index == 3 {
        CarVariant::Red
    } else {
        CarVariant::Yellow
    }
}

impl GameState {
    /// One scheduler firing with the drawn values handed in, so that the
    /// effect of a firing is deterministic and testable. Resets the delay;
    /// while the countdown is positive, decrements it, spawns a car, and
    /// asks the host to refresh the countdown text and show the car.
    pub fn spawn_fire(
        &mut self,
        new_delay_ms: u64,
        car_y: i64,
        variant: CarVariant,
        actions: &mut Vec<Action>,
    )
        requires
            well_formed(*old(self)),
            CAR_SPAWN_Y_MIN <= car_y < CAR_SPAWN_Y_MAX,
        ensures
            spawn_fire_rel(*old(self), *final(self), new_delay_ms, car_y, variant),
            well_formed(*final(self)),
            final(actions)@ == old(actions)@ + spawn_actions(*old(self), *final(self)),
    {
        self.spawn_delay_ms = new_delay_ms;
        if self.cars_remaining == 0 {
            proof {
                assert(actions@ =~= actions@ + Seq::<Action>::empty());
            }
            return ;
        }
        self.cars_remaining = self.cars_remaining - 1;
        actions.push(Action::ShowCarsRemaining(self.cars_remaining));
        let car = Entity {
            label: car_label(self.cars_remaining),
            kind: Kind::Car,
            variant: Some(variant),
            x: CAR_SPAWN_X,
            y: car_y,
            layer: CAR_LAYER,
            collidable: true,
        };
        let shown = car.duplicate();
        let ghost pre = *old(self);
        let ghost c = car;
        self.entities.push(car);
        actions.push(Action::SpawnSprite(shown));
        proof {
            assert(is_fresh_car(c, (pre.cars_remaining - 1) as nat, car_y, variant));
            assert(actions@ =~= old(actions)@ + spawn_actions(pre, *self));
            assert(in_bounds(c));
            assert forall|k: int| 0 <= k < self.entities@.len() implies in_bounds(
                #[trigger] self.entities@[k],
            ) by {
                if k < pre.entities@.len() {
                    assert(in_bounds(pre.entities@[k]));
                }
            }
            // The new entity is a car, so the set of live projectile labels
            // is untouched and the pool invariant carries over.
            assert forall|k: int| 0 <= k < self.ammo_pool@.len() implies !live_projectile(
                self.entities@,
                (#[trigger] self.ammo_pool@[k])@,
            ) by {
                assert(!live_projectile(pre.entities@, pre.ammo_pool@[k]@));
                if live_projectile(self.entities@, self.ammo_pool@[k]@) {
                    let w = choose|w: int|
                        0 <= w < self.entities@.len() && (#[trigger] self.entities@[w]).kind
                            is Projectile && self.entities@[w].label@ == self.ammo_pool@[k]@;
                    assert(w < pre.entities@.len());
                    assert(live_projectile(pre.entities@, pre.ammo_pool@[k]@));
                }
            }
            assert forall|a: int, b: int|
                0 <= a < b < self.entities@.len() && (#[trigger] self.entities@[a]).kind
                    is Projectile && (#[trigger] self.entities@[b]).kind
                    is Projectile implies self.entities@[a].label@ != self.entities@[b].label@ by {
                assert(self.entities@[a] == pre.entities@[a]);
                if b < pre.entities@.len() {
                    assert(self.entities@[b] == pre.entities@[b]);
                } else {
                    assert(self.entities@[b] == c);
                }
            }
        }
    }

    /// The spawn scheduler's share of a tick: count the delay down by the
    /// elapsed time, and on expiry fire once, with the new delay, the spawn
    /// height and the variant drawn uniformly from their fixed ranges.
    pub fn run_spawn_scheduler(&mut self, dt: u64, actions: &mut Vec<Action>)
        requires
            well_formed(*old(self)),
        ensures
            scheduler_rel(*old(self), *final(self), dt),
            well_formed(*final(self)),
            final(actions)@ == old(actions)@ + scheduler_actions(*old(self), *final(self), dt),
    {
        if self.spawn_delay_ms > dt {
            self.spawn_delay_ms = self.spawn_delay_ms - dt;
            proof {
                assert(actions@ =~= actions@ + Seq::<Action>::empty());
            }
            return ;
        }
        let new_delay_ms = random_in_range(SPAWN_DELAY_MIN_MS, SPAWN_DELAY_MAX_MS);
        let y_offset = random_in_range(0, CAR_SPAWN_Y_SPAN);
        let car_y = CAR_SPAWN_Y_MIN + (y_offset as i64);
        let variant = variant_from_index(random_in_range(0, CAR_VARIANT_COUNT));
        self.spawn_fire(new_delay_ms, car_y, variant, actions);
    }
}

} // verus!
