//! The obstacle arena, the expiry sweep and the barrier spawner.
use sunskim::obstacle::{revolution_ms, spawn_barriers, Barrier, DeathReason, Obstacle, ObstacleArena};
use sunskim::supernova::NovaTimer;

fn rock(destroy_at_ms: i64) -> Obstacle {
    Obstacle { radius: 10_000, theta: 0, speed: -20_000, destroy_at_ms }
}

#[test]
fn arena_insert_get_remove() {
    let mut arena = ObstacleArena::new();
    let id = arena.insert(rock(5_000));
    assert_eq!(arena.get(id), Some(rock(5_000)));
    assert_eq!(arena.live_count(), 1);
    arena.remove(id);
    assert_eq!(arena.get(id), None);
    assert_eq!(arena.live_count(), 0);
}

#[test]
fn removing_twice_is_a_noop() {
    let mut arena = ObstacleArena::new();
    let id = arena.insert(rock(5_000));
    arena.remove(id);
    arena.remove(id);
    assert_eq!(arena.get(id), None);
    arena.remove(17);
    assert_eq!(arena.live_count(), 0);
}

#[test]
fn arena_reuses_freed_slots() {
    let mut arena = ObstacleArena::new();
    let a = arena.insert(rock(1_000));
    let b = arena.insert(rock(2_000));
    arena.remove(a);
    let c = arena.insert(rock(3_000));
    assert_eq!(c, a);
    assert_eq!(arena.get(b), Some(rock(2_000)));
    assert_eq!(arena.live_count(), 2);
    assert_eq!(arena.capacity(), 2);
}

#[test]
fn sweep_removes_exactly_the_expired() {
    let mut arena = ObstacleArena::new();
    let a = arena.insert(rock(5_000));
    let b = arena.insert(rock(6_000));
    arena.sweep_expired(5_000);
    assert_eq!(arena.get(a), None); // destroy_at <= elapsed
    assert_eq!(arena.get(b), Some(rock(6_000)));
}

#[test]
fn sweep_skips_slots_already_freed() {
    let mut arena = ObstacleArena::new();
    let a = arena.insert(rock(5_000));
    let b = arena.insert(rock(5_000));
    arena.remove(a);
    arena.sweep_expired(10_000);
    assert_eq!(arena.get(a), None);
    assert_eq!(arena.get(b), None);
    assert_eq!(arena.live_count(), 0);
}

#[test]
fn revolution_time_at_nominal_speed() {
    // TAU / 0.45 rad/s = 13.962 seconds
    assert_eq!(revolution_ms(450), 13_962);
}

#[test]
fn death_reason_messages() {
    assert_eq!(DeathReason::BurnedUp.message(), "You burned up in the sun.");
    assert_eq!(DeathReason::BlackHole.message(), "You flew into a black hole.");
    assert_eq!(DeathReason::default(), DeathReason::BurnedUp);
}

#[test]
fn barriers_shrink_as_the_nova_recedes() {
    let b = Barrier { theta: 0, radius: 1_000, scale: 24_000 };
    // the after phase lasts 4 seconds
    assert_eq!(b.display_scale(&NovaTimer { remaining_ms: 4_000 }), 24_000);
    assert_eq!(b.display_scale(&NovaTimer { remaining_ms: 1_000 }), 6_000);
    assert_eq!(b.display_scale(&NovaTimer { remaining_ms: 1 }), 0);
}

#[test]
fn barrier_field_spawns_in_bounds() {
    let barriers = spawn_barriers(1_000_000);
    assert_eq!(barriers.len(), 11);
    for b in &barriers {
        assert!((0..6_283_185).contains(&b.theta));
        assert!((0..560_000).contains(&b.radius));
        assert!((20_000..30_000).contains(&b.scale));
    }
}
