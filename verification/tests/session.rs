//! Whole-session ticks: collisions, thresholds, game over and the nova
//! cycle's entry effects.
use sunskim::obstacle::{Barrier, DeathReason, Obstacle};
use sunskim::session::{Contact, GameEvent, GameSession};
use sunskim::supernova::{Nova, NovaTimer};

fn rock(destroy_at_ms: i64) -> Obstacle {
    Obstacle { radius: 10_000, theta: 0, speed: -20_000, destroy_at_ms }
}

fn no_contacts() -> Vec<Contact> {
    Vec::new()
}

#[test]
fn new_session_defaults() {
    let s = GameSession::new();
    assert_eq!(s.player.radius, 250_000);
    assert_eq!(s.player.theta, 0);
    assert_eq!(s.player.speed, 450);
    assert_eq!(s.sun.radius, 1_000_000);
    assert_eq!(s.power.0, 0);
    assert_eq!(s.shield.0, 100_000);
    assert_eq!(s.score.score, 0);
    assert_eq!(s.score.multiplier, 1);
    assert_eq!(s.phase, Nova::Idle);
    assert_eq!(s.nova_timer.remaining_ms, 30_000);
    assert_eq!(s.elapsed_ms, 0);
    assert!(s.over.is_none());
    assert!(!s.alarm);
    assert_eq!(s.obstacles.live_count(), 0);
    assert_eq!(s.barriers.len(), 0);
}

#[test]
fn first_tick_spawns_a_burst() {
    let mut session = GameSession::new();
    let events = session.tick(false, 100, &no_contacts());
    assert!(events.is_empty());
    let live = session.obstacles.live_count();
    assert!((1..=3).contains(&live));
    assert!((100..400).contains(&session.spawn_timer_ms));
    // after 100 ms the player sits at 0.045 rad; the burst lands half a
    // turn ahead, within the 0.05 rad jitter window
    let player_theta = session.player.theta;
    assert_eq!(player_theta, 45_000);
    for id in 0..session.obstacles.capacity() {
        if let Some(ob) = session.obstacles.get(id) {
            // one revolution at 0.45 rad/s after the spawn instant
            assert_eq!(ob.destroy_at_ms, 100 + 13_962);
            assert!((-135_000..420_000).contains(&ob.radius));
            assert!((-30_000..-15_000).contains(&ob.speed));
            let lo = player_theta + 3_141_592 - 50_000;
            let hi = player_theta + 3_141_592 + 50_000;
            assert!((lo..hi).contains(&ob.theta));
        }
    }
}

#[test]
fn obstacle_hit_costs_power_and_shield() {
    let mut session = GameSession::new();
    session.spawn_timer_ms = 300;
    session.power.0 = 50_000;
    let id = session.obstacles.insert(rock(60_000));
    let contacts = vec![Contact::Obstacle(id)];
    let events = session.tick(false, 0, &contacts);
    assert_eq!(session.power.0, 25_000);
    assert_eq!(session.shield.0, 70_000);
    assert_eq!(session.obstacles.get(id), None);
    assert_eq!(events, vec![GameEvent::ObstacleHit]);
    assert!(session.over.is_none());
}

#[test]
fn stale_contact_is_a_noop() {
    let mut session = GameSession::new();
    session.spawn_timer_ms = 300;
    session.power.0 = 50_000;
    let id = session.obstacles.insert(rock(60_000));
    session.obstacles.remove(id);
    let contacts = vec![Contact::Obstacle(id)];
    let events = session.tick(false, 0, &contacts);
    assert_eq!(session.power.0, 50_000);
    assert_eq!(session.shield.0, 100_000);
    assert!(events.is_empty());
}

#[test]
fn barrier_contact_mid_nova_ends_the_session() {
    let mut session = GameSession::new();
    session.phase = Nova::During;
    session.nova_timer = NovaTimer { remaining_ms: 10_000 };
    session.barriers.push(Barrier { theta: 0, radius: 1_000, scale: 20_000 });
    let contacts = vec![Contact::Barrier(0)];
    let events = session.tick(false, 0, &contacts);
    assert_eq!(session.over, Some(DeathReason::BlackHole));
    assert_eq!(events, vec![GameEvent::GameOver(DeathReason::BlackHole)]);
    // a finished session never moves again
    let events = session.tick(true, 500, &no_contacts());
    assert!(events.is_empty());
    assert_eq!(session.phase, Nova::During);
}

#[test]
fn barrier_contact_while_arriving_is_inert() {
    let mut session = GameSession::new();
    session.phase = Nova::After;
    session.nova_timer = NovaTimer { remaining_ms: 4_000 };
    session.barriers.push(Barrier { theta: 0, radius: 1_000, scale: 20_000 });
    let contacts = vec![Contact::Barrier(0)];
    let events = session.tick(false, 0, &contacts);
    assert!(session.over.is_none());
    assert!(events.is_empty());
}

#[test]
fn multiplier_steps_up_at_power_threshold() {
    let mut session = GameSession::new();
    session.spawn_timer_ms = 300;
    session.power.0 = 99_000;
    let events = session.tick(false, 0, &no_contacts());
    assert_eq!(session.score.multiplier, 2);
    assert_eq!(session.power.0, 0);
    assert_eq!(events, vec![GameEvent::MultiplierUp(2)]);
}

#[test]
fn multiplier_waits_below_the_threshold() {
    let mut session = GameSession::new();
    session.spawn_timer_ms = 300;
    session.power.0 = 98_999;
    let events = session.tick(false, 0, &no_contacts());
    assert_eq!(session.score.multiplier, 1);
    assert_eq!(session.power.0, 98_999);
    assert!(events.is_empty());
}

#[test]
fn score_accrues_from_power_and_multiplier() {
    let mut session = GameSession::new();
    session.spawn_timer_ms = 300;
    session.power.0 = 50_000;
    session.tick(false, 1000, &no_contacts());
    // the radius moves to 70 over this second, so power integrates at
    // 10 - 0.05 * 70 = +6.5 to 56.5; the score then gains
    // 1s * 7 * 0.565 * 1 = 3.955
    assert_eq!(session.player.radius, 70_000);
    assert_eq!(session.power.0, 56_500);
    assert_eq!(session.score.score, 3_955);
}

#[test]
fn shield_depletion_ends_the_session() {
    let mut session = GameSession::new();
    session.spawn_timer_ms = 300;
    session.player.radius = 500;
    session.shield.0 = 200;
    let events = session.tick(false, 20, &no_contacts());
    assert_eq!(session.over, Some(DeathReason::BurnedUp));
    assert_eq!(events, vec![GameEvent::GameOver(DeathReason::BurnedUp)]);
    assert_eq!(session.shield.0, 0);
    let power_at_death = session.power.0;
    // no further integration after termination
    let events = session.tick(false, 1000, &no_contacts());
    assert!(events.is_empty());
    assert_eq!(session.power.0, power_at_death);
    assert_eq!(session.shield.0, 0);
}

#[test]
fn expired_obstacle_vanishes_without_a_collision() {
    let mut session = GameSession::new();
    // keep the spawner quiet by leaving the idle phase
    session.phase = Nova::BuildingUp;
    session.nova_timer = NovaTimer { remaining_ms: 6_000 };
    let a = session.obstacles.insert(rock(5_000));
    let b = session.obstacles.insert(rock(5_200));
    session.tick(false, 5_100, &no_contacts());
    assert_eq!(session.obstacles.get(a), None);
    assert_eq!(session.obstacles.get(b), Some(rock(5_200)));
    assert_eq!(session.obstacles.live_count(), 1);
}

#[test]
fn entering_the_nova_swaps_obstacles_for_barriers() {
    let mut session = GameSession::new();
    session.phase = Nova::BuildingUp;
    session.nova_timer = NovaTimer { remaining_ms: 50 };
    session.obstacles.insert(rock(60_000));
    let events = session.tick(false, 50, &no_contacts());
    assert_eq!(session.phase, Nova::During);
    assert_eq!(session.obstacles.live_count(), 0);
    assert_eq!(session.barriers.len(), 11);
    assert_eq!(events, vec![GameEvent::PhaseEntered(Nova::During)]);
}

#[test]
fn leaving_the_nova_cycle_clears_barriers() {
    let mut session = GameSession::new();
    session.phase = Nova::After;
    session.nova_timer = NovaTimer { remaining_ms: 10 };
    session.barriers.push(Barrier { theta: 0, radius: 1_000, scale: 20_000 });
    let events = session.tick(false, 10, &no_contacts());
    assert_eq!(session.phase, Nova::Idle);
    assert_eq!(session.barriers.len(), 0);
    assert_eq!(session.nova_timer.remaining_ms, 30_000);
    assert_eq!(events, vec![GameEvent::PhaseEntered(Nova::Idle)]);
}

#[test]
fn alarm_starts_once_and_stops_on_recovery() {
    let mut session = GameSession::new();
    session.spawn_timer_ms = 300;
    session.player.radius = 100_000;
    session.shield.0 = 20_000;
    // first low tick raises the cue
    let events = session.tick(false, 10, &no_contacts());
    assert!(events.contains(&GameEvent::AlarmStarted));
    assert!(session.alarm);
    // still low: no second cue
    let events = session.tick(false, 10, &no_contacts());
    assert!(!events.contains(&GameEvent::AlarmStarted));
    assert!(session.alarm);
    // recovery stops it exactly once (engage outward, toward safety)
    let events = session.tick(true, 1000, &no_contacts());
    assert!(events.contains(&GameEvent::AlarmStopped));
    assert!(!session.alarm);
}
