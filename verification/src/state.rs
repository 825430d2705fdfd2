//! The owned simulation state and its well-formedness invariant.

use vstd::prelude::*;

use crate::entity::Entity;
use crate::entity::Kind;
use crate::entity::in_bounds;

verus! {

/// Longest single tick the simulation accepts, in milliseconds; keeps one
/// tick of motion from overflowing a position.
pub const MAX_TICK_MS: u64 = 1_000_000_000;

/// The whole mutable state of the simulation, owned by it and mutated only
/// inside the per-tick update.
pub struct GameState {
    /// Every live entity, the player included.
    pub entities: Vec<Entity>,
    /// The ammo pool: marble identities available to be fired, popped from
    /// the end (most recently returned first).
    pub ammo_pool: Vec<String>,
    /// Milliseconds left until the spawn scheduler next fires.
    pub spawn_delay_ms: u64,
    /// Cars still to be spawned; spawning stops for good at zero.
    pub cars_remaining: u32,
    /// Points scored so far.
    pub points: u32,
}

/// Some live entity of kind `Projectile` carries this label.
pub open spec fn live_projectile(entities: Seq<Entity>, label: Seq<char>) -> bool {
    exists|i: int|
        0 <= i < entities.len() && (#[trigger] entities[i]).kind is Projectile
            && entities[i].label@ == label
}

/// No two live projectiles share a label.
pub open spec fn projectile_labels_distinct(entities: Seq<Entity>) -> bool {
    forall|i: int, j: int|
        0 <= i < j < entities.len() && (#[trigger] entities[i]).kind is Projectile
            && (#[trigger] entities[j]).kind is Projectile ==> entities[i].label@
            != entities[j].label@
}

/// No two pool slots hold the same identity.
pub open spec fn pool_distinct(pool: Seq<String>) -> bool {
    forall|i: int, j: int|
        0 <= i < j < pool.len() ==> (#[trigger] pool[i])@ != (#[trigger] pool[j])@
}

/// No identity sits in the pool while a live projectile carries it.
pub open spec fn pool_disjoint_from_live(s: GameState) -> bool {
    forall|i: int|
        0 <= i < s.ammo_pool@.len() ==> !live_projectile(
            s.entities@,
            (#[trigger] s.ammo_pool@[i])@,
        )
}

/// The ammo-pool mutual-exclusion invariant: an identity is never both in
/// the pool and bound to a live projectile, pool slots are pairwise
/// distinct, and so are the labels of live projectiles.
pub open spec fn ammo_exclusive(s: GameState) -> bool {
    &&& pool_distinct(s.ammo_pool@)
    &&& pool_disjoint_from_live(s)
    &&& projectile_labels_distinct(s.entities@)
}

/// Every live entity sits inside the play-area bounds.
pub open spec fn entities_in_bounds(s: GameState) -> bool {
    forall|i: int| 0 <= i < s.entities@.len() ==> in_bounds(#[trigger] s.entities@[i])
}

/// The state invariant: it holds of the initial state and every component
/// of the per-tick update preserves it (motion re-establishes it only
/// together with the bounds cleanup that follows it).
pub open spec fn well_formed(s: GameState) -> bool {
    &&& entities_in_bounds(s)
    &&& ammo_exclusive(s)
}

/// Some live entity is the player.
pub open spec fn has_player(entities: Seq<Entity>) -> bool {
    exists|i: int| 0 <= i < entities.len() && (#[trigger] entities[i]).kind is Player
}

/// Index `i` holds the first live entity of kind `Player`.
pub open spec fn is_first_player(entities: Seq<Entity>, i: int) -> bool {
    &&& 0 <= i < entities.len()
    &&& entities[i].kind is Player
    &&& forall|j: int| 0 <= j < i ==> !((#[trigger] entities[j]).kind is Player)
}

/// The mutual-exclusion law of the ammo pool: in a well-formed state, no
/// identity sits in the pool while a live projectile carries it.
pub proof fn lemma_ammo_mutual_exclusion(s: GameState, k: int, w: int)
    requires
        well_formed(s),
        0 <= k < s.ammo_pool@.len(),
        0 <= w < s.entities@.len(),
        s.entities@[w].kind is Projectile,
    ensures
        s.ammo_pool@[k]@ != s.entities@[w].label@,
{
    if s.ammo_pool@[k]@ == s.entities@[w].label@ {
        assert(live_projectile(s.entities@, s.ammo_pool@[k]@));
    }
}

/// Every element of a filtered sequence is an element of the original.
pub proof fn lemma_filter_subset<A>(s: Seq<A>, pred: spec_fn(A) -> bool)
    ensures
        forall|i: int|
            0 <= i < s.filter(pred).len() ==> s.contains(#[trigger] s.filter(pred)[i]),
    decreases s.len(),
{
    reveal(Seq::filter);
    if s.len() > 0 {
        lemma_filter_subset(s.drop_last(), pred);
        let f = s.filter(pred);
        let fd = s.drop_last().filter(pred);
        assert forall|i: int| 0 <= i < f.len() implies s.contains(#[trigger] f[i]) by {
            if pred(s.last()) && i == f.len() - 1 {
                assert(f[i] == s.last());
                assert(s[s.len() - 1] == s.last());
            } else {
                assert(f[i] == fd[i]);
                assert(s.drop_last().contains(fd[i]));
                let w = choose|w: int|
                    0 <= w < s.drop_last().len() && s.drop_last()[w] == fd[i];
                assert(s[w] == fd[i]);
            }
        }
    }
}

/// Filtering cannot make an identity live that was not.
pub proof fn lemma_filter_keeps_not_live(
    s: Seq<Entity>,
    pred: spec_fn(Entity) -> bool,
    label: Seq<char>,
)
    requires
        !live_projectile(s, label),
    ensures
        !live_projectile(s.filter(pred), label),
{
    lemma_filter_subset(s, pred);
    if live_projectile(s.filter(pred), label) {
        let f = s.filter(pred);
        let w = choose|w: int|
            0 <= w < f.len() && (#[trigger] f[w]).kind is Projectile && f[w].label@ == label;
        assert(s.contains(f[w]));
        let v = choose|v: int| 0 <= v < s.len() && s[v] == f[w];
        assert(live_projectile(s, label));
    }
}

/// Filtering keeps the live projectile labels pairwise distinct.
pub proof fn lemma_filter_keeps_distinct(s: Seq<Entity>, pred: spec_fn(Entity) -> bool)
    requires
        projectile_labels_distinct(s),
    ensures
        projectile_labels_distinct(s.filter(pred)),
    decreases s.len(),
{
    reveal(Seq::filter);
    if s.len() > 0 {
        assert(projectile_labels_distinct(s.drop_last()));
        lemma_filter_keeps_distinct(s.drop_last(), pred);
        lemma_filter_subset(s.drop_last(), pred);
        let f = s.filter(pred);
        let fd = s.drop_last().filter(pred);
        assert forall|a: int, b: int|
            0 <= a < b < f.len() && (#[trigger] f[a]).kind is Projectile && (#[trigger] f[b]).kind
                is Projectile implies f[a].label@ != f[b].label@ by {
            if pred(s.last()) && b == f.len() - 1 {
                assert(f[b] == s.last());
                assert(f[a] == fd[a]);
                assert(s.drop_last().contains(fd[a]));
                let w = choose|w: int|
                    0 <= w < s.drop_last().len() && s.drop_last()[w] == fd[a];
                assert(s[w] == f[a]);
                assert(s[s.len() - 1] == s.last());
            } else {
                assert(f[a] == fd[a]);
                assert(f[b] == fd[b]);
            }
        }
    }
}

impl GameState {
    /// The fresh state the game starts from: the given entities (the host
    /// seeds the player), a full ammo pool, a spawn delay of zero so that
    /// the first car spawns on the very first tick, the full car countdown,
    /// and no points.
    pub fn new(entities: Vec<Entity>, ammo_pool: Vec<String>, cars_remaining: u32) -> (s:
        GameState)
        ensures
            s.entities == entities,
            s.ammo_pool == ammo_pool,
            s.spawn_delay_ms == 0,
            s.cars_remaining == cars_remaining,
            s.points == 0,
    {
        GameState { entities, ammo_pool, spawn_delay_ms: 0, cars_remaining, points: 0 }
    }

    /// Horizontal position of the first live player entity.
    pub fn player_x(&self) -> (r: i64)
        requires
            has_player(self.entities@),
        ensures
            exists|i: int|
                #[trigger] is_first_player(self.entities@, i) && r == self.entities@[i].x,
    {
        let n = self.entities.len();
        let mut i: usize = 0;
        loop
            invariant
                has_player(self.entities@),
                n == self.entities@.len(),
                0 <= i <= n,
                forall|j: int| 0 <= j < i ==> !((#[trigger] self.entities@[j]).kind is Player),
            decreases n - i,
        {
            if i == n {
                // Unreachable: some entity is the player and every index
                // below n has been ruled out.
                proof {
                    let w = choose|w: int|
                        0 <= w < self.entities@.len() && (#[trigger] self.entities@[w]).kind
                            is Player;
                    assert(!(self.entities@[w].kind is Player));
                }
                unreached()
            } else {
                if matches!(self.entities[i].kind, Kind::Player) {
                    proof {
                        assert(is_first_player(self.entities@, i as int));
                    }
                    return self.entities[i].x;
                }
                i = i + 1;
            }
        }
    }
}

} // verus!
