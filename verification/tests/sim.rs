//! End-to-end tests of the simulation core, driven through its public
//! functions the way the host drives them.

use car_shooter::entity::{CarVariant, Entity, Kind};
use car_shooter::events::{Action, CollisionEvent, Transition};
use car_shooter::label::{car_label, decimal_string};
use car_shooter::spawn::variant_from_index;
use car_shooter::state::GameState;

fn player() -> Entity {
    Entity {
        label: "player".to_string(),
        kind: Kind::Player,
        variant: None,
        x: 0,
        y: -325_000,
        layer: 10,
        collidable: false,
    }
}

fn marble(label: &str, x: i64, y: i64) -> Entity {
    Entity {
        label: label.to_string(),
        kind: Kind::Projectile,
        variant: None,
        x,
        y,
        layer: 5,
        collidable: true,
    }
}

fn car(label: &str, x: i64, y: i64) -> Entity {
    Entity {
        label: label.to_string(),
        kind: Kind::Car,
        variant: Some(CarVariant::Red),
        x,
        y,
        layer: 0,
        collidable: true,
    }
}

fn pool(labels: &[&str]) -> Vec<String> {
    labels.iter().map(|l| l.to_string()).collect()
}

fn begin(a: &str, b: &str) -> CollisionEvent {
    CollisionEvent { first: a.to_string(), second: b.to_string(), transition: Transition::Begin }
}

#[test]
fn three_fires_pop_in_reverse_then_noop() {
    let mut s = GameState::new(vec![player()], pool(&["m1", "m2", "m3"]), 25);
    let mut actions: Vec<Action> = Vec::new();

    s.fire(true, &mut actions);
    assert_eq!(s.entities.len(), 2);
    assert_eq!(s.entities[1].label, "m3");
    assert_eq!(s.ammo_pool, pool(&["m1", "m2"]));

    s.fire(true, &mut actions);
    assert_eq!(s.entities[2].label, "m2");
    assert_eq!(s.ammo_pool, pool(&["m1"]));

    s.fire(true, &mut actions);
    assert_eq!(s.entities[3].label, "m1");
    assert!(s.ammo_pool.is_empty());

    // A fourth fire edge on an empty pool is a no-op.
    let before = s.entities.len();
    s.fire(true, &mut actions);
    assert_eq!(s.entities.len(), before);
    assert!(s.ammo_pool.is_empty());
}

#[test]
fn fire_without_edge_is_noop() {
    let mut s = GameState::new(vec![player()], pool(&["m1"]), 25);
    let mut actions: Vec<Action> = Vec::new();
    s.fire(false, &mut actions);
    assert_eq!(s.entities.len(), 1);
    assert_eq!(s.ammo_pool.len(), 1);
    assert!(actions.is_empty());
}

#[test]
fn fired_marble_spawns_above_player() {
    let mut s = GameState::new(vec![player()], pool(&["m1"]), 25);
    let mut actions: Vec<Action> = Vec::new();
    s.fire(true, &mut actions);
    let m = &s.entities[1];
    assert_eq!(m.kind, Kind::Projectile);
    assert_eq!(m.x, 0);
    assert_eq!(m.y, -275_000);
    assert_eq!(m.layer, 5);
    assert!(m.collidable);
    assert!(matches!(actions[0], Action::SpawnSprite(ref e) if e.label == "m1"));
    assert!(matches!(actions[1], Action::PlayFireSound));
}

#[test]
fn last_spawn_firing_decrements_to_zero_then_spawns_nothing() {
    let mut s = GameState::new(vec![player()], pool(&["m1"]), 1);
    let mut actions: Vec<Action> = Vec::new();

    s.spawn_fire(500, 0, CarVariant::Blue, &mut actions);
    assert_eq!(s.cars_remaining, 0);
    assert_eq!(s.entities.len(), 2);
    assert_eq!(s.entities[1].label, "car0");
    assert_eq!(s.entities[1].kind, Kind::Car);
    assert_eq!(s.entities[1].variant, Some(CarVariant::Blue));
    assert_eq!(s.entities[1].x, -740_000);
    assert!(s.entities[1].collidable);
    assert_eq!(s.spawn_delay_ms, 500);
    assert!(matches!(actions[0], Action::ShowCarsRemaining(0)));
    assert!(matches!(actions[1], Action::SpawnSprite(ref e) if e.label == "car0"));

    // The next firing resets the delay but creates no entity.
    s.spawn_fire(700, 0, CarVariant::Red, &mut actions);
    assert_eq!(s.cars_remaining, 0);
    assert_eq!(s.entities.len(), 2);
    assert_eq!(s.spawn_delay_ms, 700);
    assert_eq!(actions.len(), 2);
}

#[test]
fn scheduler_counts_down_without_firing() {
    let mut s = GameState::new(vec![player()], pool(&[]), 5);
    s.spawn_delay_ms = 1_000;
    let mut actions: Vec<Action> = Vec::new();
    s.run_spawn_scheduler(300, &mut actions);
    assert_eq!(s.spawn_delay_ms, 700);
    assert_eq!(s.cars_remaining, 5);
    assert_eq!(s.entities.len(), 1);
    assert!(actions.is_empty());
}

#[test]
fn scheduler_firing_redraws_delay_in_range() {
    let mut s = GameState::new(vec![player()], pool(&[]), 0);
    let mut actions: Vec<Action> = Vec::new();
    // The countdown is exhausted: the delay is still redrawn, but no car
    // appears.
    s.run_spawn_scheduler(0, &mut actions);
    assert!((100..1250).contains(&s.spawn_delay_ms));
    assert_eq!(s.entities.len(), 1);
    assert!(actions.is_empty());
}

#[test]
fn scheduler_spawns_car_in_drawn_ranges() {
    let mut s = GameState::new(vec![player()], pool(&[]), 3);
    let mut actions: Vec<Action> = Vec::new();
    s.run_spawn_scheduler(0, &mut actions);
    assert_eq!(s.cars_remaining, 2);
    assert_eq!(s.entities.len(), 2);
    let c = &s.entities[1];
    assert_eq!(c.label, "car2");
    assert_eq!(c.x, -740_000);
    assert!((-100_000..325_000).contains(&c.y));
    assert!(c.variant.is_some());
}

#[test]
fn motion_moves_cars_right_and_marbles_up() {
    let mut s = GameState::new(
        vec![player(), car("car7", -740_000, 10_000), marble("m1", 2_000, -275_000)],
        pool(&[]),
        25,
    );
    s.advance_entities(100);
    assert_eq!(s.entities[0].x, 0);
    assert_eq!(s.entities[0].y, -325_000);
    assert_eq!(s.entities[1].x, -740_000 + 250 * 100);
    assert_eq!(s.entities[1].y, 10_000);
    assert_eq!(s.entities[2].x, 2_000);
    assert_eq!(s.entities[2].y, -275_000 + 600 * 100);
}

#[test]
fn cleanup_removes_only_entities_beyond_bounds() {
    let mut s = GameState::new(
        vec![
            player(),
            car("gone_right", 750_001, 0),
            car("at_right", 750_000, 0),
            marble("gone_top", 0, 400_001),
            marble("at_top", 0, 400_000),
        ],
        pool(&[]),
        25,
    );
    s.cleanup_out_of_bounds();
    let labels: Vec<&str> = s.entities.iter().map(|e| e.label.as_str()).collect();
    assert_eq!(labels, vec!["player", "at_right", "at_top"]);
}

#[test]
fn lost_marble_is_not_recycled() {
    // A marble crosses the top bound: bounds cleanup discards it and the
    // pool stays as it was — the identity is lost, not recycled.
    let mut s = GameState::new(vec![player(), marble("m3", 0, 399_500)], pool(&["m1", "m2"]), 0);
    let events: Vec<CollisionEvent> = Vec::new();
    s.update(10, false, &events);
    // 399_500 + 600 * 10 = 405_500 > 400_000.
    assert_eq!(s.entities.len(), 1);
    assert_eq!(s.entities[0].label, "player");
    assert_eq!(s.ammo_pool, pool(&["m1", "m2"]));
    assert_eq!(s.points, 0);
}

#[test]
fn begin_collision_scores_removes_and_recycles() {
    let mut s = GameState::new(
        vec![player(), marble("marble2", 1_000, 5_000), car("car7", 900, 4_500)],
        pool(&["marble1"]),
        25,
    );
    let mut actions: Vec<Action> = Vec::new();
    let ev = begin("marble2", "car7");
    s.process_event(&ev, &mut actions);
    assert_eq!(s.points, 1);
    assert_eq!(s.entities.len(), 1);
    assert_eq!(s.entities[0].label, "player");
    assert_eq!(s.ammo_pool, pool(&["marble1", "marble2"]));
    assert!(matches!(actions[0], Action::ShowPoints(1)));
    assert!(matches!(actions[1], Action::RemoveSprite(ref l) if l == "marble2"));
    assert!(matches!(actions[2], Action::RemoveSprite(ref l) if l == "car7"));
    assert!(matches!(actions[3], Action::PlayScoreSound));
}

#[test]
fn begin_collision_with_marble_second_recycles_it() {
    let mut s = GameState::new(
        vec![player(), marble("m9", 1_000, 5_000), car("car3", 900, 4_500)],
        pool(&[]),
        25,
    );
    let mut actions: Vec<Action> = Vec::new();
    s.process_event(&begin("car3", "m9"), &mut actions);
    assert_eq!(s.points, 1);
    assert_eq!(s.ammo_pool, pool(&["m9"]));
    assert_eq!(s.entities.len(), 1);
}

#[test]
fn begin_collision_between_non_marbles_changes_nothing() {
    let mut s = GameState::new(
        vec![player(), car("car1", 0, 0), car("car2", 100, 0)],
        pool(&["m1"]),
        25,
    );
    let mut actions: Vec<Action> = Vec::new();
    s.process_event(&begin("car1", "car2"), &mut actions);
    assert_eq!(s.points, 0);
    assert_eq!(s.entities.len(), 3);
    assert_eq!(s.ammo_pool, pool(&["m1"]));
    assert!(actions.is_empty());
}

#[test]
fn end_collision_is_ignored() {
    let mut s = GameState::new(
        vec![player(), marble("m1", 0, 0), car("car1", 0, 0)],
        pool(&[]),
        25,
    );
    let mut actions: Vec<Action> = Vec::new();
    let ev = CollisionEvent {
        first: "m1".to_string(),
        second: "car1".to_string(),
        transition: Transition::End,
    };
    s.process_event(&ev, &mut actions);
    assert_eq!(s.points, 0);
    assert_eq!(s.entities.len(), 3);
    assert!(actions.is_empty());
}

#[test]
fn collision_batch_is_consumed_in_order() {
    let mut s = GameState::new(
        vec![
            player(),
            marble("m1", 0, 0),
            marble("m2", 10, 0),
            car("car1", 0, 0),
            car("car2", 10, 0),
        ],
        pool(&[]),
        25,
    );
    let mut actions: Vec<Action> = Vec::new();
    let events = vec![begin("m1", "car1"), begin("m2", "car2")];
    s.process_collisions(&events, &mut actions);
    assert_eq!(s.points, 2);
    assert_eq!(s.entities.len(), 1);
    assert_eq!(s.ammo_pool, pool(&["m1", "m2"]));
}

#[test]
fn stale_event_for_removed_marble_is_skipped() {
    // Two events name the same marble: the first consumes it, the second
    // finds no live marble and changes nothing, so the identity is not
    // recycled twice.
    let mut s = GameState::new(
        vec![player(), marble("m1", 0, 0), car("car1", 0, 0), car("car2", 10, 0)],
        pool(&[]),
        25,
    );
    let mut actions: Vec<Action> = Vec::new();
    let events = vec![begin("m1", "car1"), begin("m1", "car2")];
    s.process_collisions(&events, &mut actions);
    assert_eq!(s.points, 1);
    assert_eq!(s.ammo_pool, pool(&["m1"]));
    let labels: Vec<&str> = s.entities.iter().map(|e| e.label.as_str()).collect();
    assert_eq!(labels, vec!["player", "car2"]);
}

#[test]
fn update_tick_keeps_counters_monotonic() {
    let mut s = GameState::new(
        vec![player(), marble("m1", 0, 0), car("car9", 0, 0)],
        pool(&["m2"]),
        2,
    );
    s.spawn_delay_ms = 10_000;
    let events = vec![begin("m1", "car9")];
    let points_before = s.points;
    let cars_before = s.cars_remaining;
    let actions = s.update(16, true, &events);
    assert!(s.points >= points_before);
    assert!(s.cars_remaining <= cars_before);
    assert_eq!(s.points, 1);
    assert_eq!(s.spawn_delay_ms, 10_000 - 16);
    // Fire control's actions come first, then (no spawn this tick) those of
    // the collision.
    assert_eq!(actions.len(), 6);
    assert!(matches!(actions[0], Action::SpawnSprite(ref e) if e.label == "m2"));
    assert!(matches!(actions[1], Action::PlayFireSound));
    assert!(matches!(actions[2], Action::ShowPoints(1)));
    assert!(matches!(actions[3], Action::RemoveSprite(ref l) if l == "m1"));
    assert!(matches!(actions[4], Action::RemoveSprite(ref l) if l == "car9"));
    assert!(matches!(actions[5], Action::PlayScoreSound));
}

#[test]
fn invariants_hold_across_many_ticks() {
    let mut s = GameState::new(
        vec![player()],
        pool(&["marble1", "marble2", "marble3"]),
        5,
    );
    let events: Vec<CollisionEvent> = Vec::new();
    let mut cars_before = s.cars_remaining;
    let mut points_before = s.points;
    // 250 ticks of 40 ms outlast five spawn delays of at most 1249 ms each.
    for tick in 0..250 {
        let fire_edge = tick % 3 == 0;
        s.update(40, fire_edge, &events);
        // The car countdown never grows and the points never shrink.
        assert!(s.cars_remaining <= cars_before);
        assert!(s.points >= points_before);
        cars_before = s.cars_remaining;
        points_before = s.points;
        // No identity is both in the pool and on a live marble.
        for label in s.ammo_pool.iter() {
            assert!(!s
                .entities
                .iter()
                .any(|e| matches!(e.kind, Kind::Projectile) && &e.label == label));
        }
        // Every live entity sits inside the play area.
        for e in s.entities.iter() {
            assert!((-750_000..=750_000).contains(&e.x));
            assert!((-400_000..=400_000).contains(&e.y));
        }
    }
    // Five cars at most were spawned, and the countdown is exhausted.
    assert_eq!(s.cars_remaining, 0);
}

#[test]
fn decimal_rendering_is_exact() {
    assert_eq!(decimal_string(0), "0");
    assert_eq!(decimal_string(7), "7");
    assert_eq!(decimal_string(10), "10");
    assert_eq!(decimal_string(25), "25");
    assert_eq!(decimal_string(4_294_967_295), "4294967295");
    assert_eq!(car_label(24), "car24");
    assert_eq!(car_label(0), "car0");
}

#[test]
fn variant_mapping_is_exact() {
    assert_eq!(variant_from_index(0), CarVariant::Black);
    assert_eq!(variant_from_index(1), CarVariant::Blue);
    assert_eq!(variant_from_index(2), CarVariant::Green);
    assert_eq!(variant_from_index(3), CarVariant::Red);
    assert_eq!(variant_from_index(4), CarVariant::Yellow);
}

#[test]
fn live_projectile_lookup_goes_by_kind_and_label() {
    let s = GameState::new(
        vec![player(), marble("m1", 0, 0), car("car1", 0, 0)],
        pool(&[]),
        25,
    );
    assert!(s.is_live_projectile(&"m1".to_string()));
    assert!(!s.is_live_projectile(&"car1".to_string()));
    assert!(!s.is_live_projectile(&"absent".to_string()));
}

#[test]
fn player_x_reads_the_player() {
    let mut p = player();
    p.x = 12_345;
    let s = GameState::new(vec![car("car1", 0, 0), p], pool(&[]), 25);
    assert_eq!(s.player_x(), 12_345);
}
