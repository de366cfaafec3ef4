//! Longer whole-session runs with the engage input held one way.
use sunskim::session::{Contact, GameSession};

fn no_contacts() -> Vec<Contact> {
    Vec::new()
}

#[test]
fn coasting_inward_raises_power_until_the_floor() {
    // with the engage input released the control signal saturates inward:
    // the radius falls monotonically to its floor clamp of 0.5 while power
    // never decreases (it sits clamped at zero far out, then rises)
    let mut session = GameSession::new();
    let mut prev_radius = session.player.radius;
    let mut prev_power = session.power.0;
    for _ in 0..50 {
        session.tick(false, 100, &no_contacts());
        assert!(session.player.radius <= prev_radius);
        assert!(session.power.0 >= prev_power);
        prev_radius = session.player.radius;
        prev_power = session.power.0;
    }
    assert!(session.over.is_none());
    assert_eq!(session.player.radius, 500);
    assert!(session.power.0 > 0);
    assert!(session.shield.0 < 100_000); // the hot zone has begun to bite
}

#[test]
fn holding_engage_rides_out_to_the_ceiling() {
    let mut session = GameSession::new();
    for _ in 0..50 {
        session.tick(true, 100, &no_contacts());
    }
    assert_eq!(session.player.radius, 800_000);
    assert_eq!(session.shield.0, 100_000);
    assert_eq!(session.power.0, 0);
    assert!(session.over.is_none());
}
