//! The supernova phase cycle and its countdown timer.
use sunskim::session::{Contact, GameEvent, GameSession};
use sunskim::supernova::{after_blend, buildup_blend, phase_duration, tick_nova_timer, Nova, NovaTimer};

#[test]
fn phase_cycle_order() {
    assert_eq!(Nova::Idle.next_state(), Nova::BuildingUp);
    assert_eq!(Nova::BuildingUp.next_state(), Nova::During);
    assert_eq!(Nova::During.next_state(), Nova::After);
    assert_eq!(Nova::After.next_state(), Nova::Idle);
}

#[test]
fn phase_durations_are_fixed() {
    assert_eq!(phase_duration(Nova::Idle), 30_000);
    assert_eq!(phase_duration(Nova::BuildingUp), 6_000);
    assert_eq!(phase_duration(Nova::During), 10_000);
    assert_eq!(phase_duration(Nova::After), 4_000);
}

#[test]
fn timer_transitions_exactly_on_expiry() {
    let mut phase = Nova::Idle;
    let mut timer = NovaTimer { remaining_ms: 30_000 };
    assert!(!tick_nova_timer(&mut phase, &mut timer, 29_999));
    assert_eq!(phase, Nova::Idle);
    assert_eq!(timer.remaining_ms, 1);
    assert!(tick_nova_timer(&mut phase, &mut timer, 1));
    assert_eq!(phase, Nova::BuildingUp);
    assert_eq!(timer.remaining_ms, 6_000);
}

#[test]
fn one_huge_step_advances_one_phase_only() {
    // the cycle is timer-driven, not frame-count-driven: however large the
    // step, only the next phase is entered, with a fresh full timer
    let mut phase = Nova::Idle;
    let mut timer = NovaTimer { remaining_ms: 5 };
    assert!(tick_nova_timer(&mut phase, &mut timer, 3_600_000));
    assert_eq!(phase, Nova::BuildingUp);
    assert_eq!(timer.remaining_ms, 6_000);
}

#[test]
fn reentering_idle_rearms_a_full_timer() {
    let mut phase = Nova::After;
    let mut timer = NovaTimer { remaining_ms: 10 };
    assert!(tick_nova_timer(&mut phase, &mut timer, 10));
    assert_eq!(phase, Nova::Idle);
    assert_eq!(timer.remaining_ms, 30_000);
}

#[test]
fn blend_counters_follow_the_timer() {
    let timer = NovaTimer { remaining_ms: 3_000 };
    assert_eq!(buildup_blend(&timer), 0); // 1 - 2 * 0.5
    let timer = NovaTimer { remaining_ms: 6_000 };
    assert_eq!(buildup_blend(&timer), -1000); // phase just started
    let timer = NovaTimer { remaining_ms: 1_000 };
    assert_eq!(after_blend(&timer), 750); // 1 - 0.25
}

#[test]
fn session_walks_the_cycle_in_order() {
    let mut session = GameSession::new();
    let contacts: Vec<Contact> = Vec::new();
    let mut entered: Vec<Nova> = Vec::new();
    let mut t: i64 = 0;
    // hold the engage input: the player rides out at the radius ceiling,
    // where the shield only recovers, so the session outlives the cycle
    // with 777 ms ticks each phase overshoots by at most one tick, so two
    // full cycles take at most 102_564 ms
    while t < 103_000 {
        let events = session.tick(true, 777, &contacts);
        for e in events {
            if let GameEvent::PhaseEntered(p) = e {
                entered.push(p);
            }
        }
        t += 777;
    }
    assert!(session.over.is_none());
    // two full cycles and the start of a third
    assert_eq!(
        entered,
        vec![
            Nova::BuildingUp,
            Nova::During,
            Nova::After,
            Nova::Idle,
            Nova::BuildingUp,
            Nova::During,
            Nova::After,
            Nova::Idle,
        ]
    );
}
