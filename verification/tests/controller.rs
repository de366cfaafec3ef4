//! The input-to-radius controller: smoothing, clamps and phase overrides.
use sunskim::input::{control_player, PlayerInputAngle};
use sunskim::player::{steering_offset, ItemPosition};
use sunskim::supernova::Nova;

fn player_at(radius: i64) -> ItemPosition {
    ItemPosition { radius, theta: 0, speed: 450 }
}

#[test]
fn input_delta_accumulates_while_engaged() {
    let mut delta = PlayerInputAngle(0);
    let mut pos = player_at(250_000);
    control_player(&mut delta, &mut pos, Nova::Idle, true, 50);
    assert_eq!(delta.0, 700); // 14 * 50
    assert_eq!(pos.radius, 256_300); // 250_000 + 700 * 50 * 180 / 1000
}

#[test]
fn input_delta_clamps_at_one() {
    let mut delta = PlayerInputAngle(900);
    let mut pos = player_at(250_000);
    control_player(&mut delta, &mut pos, Nova::Idle, true, 100);
    assert_eq!(delta.0, 1000);
}

#[test]
fn input_delta_decays_when_released() {
    let mut delta = PlayerInputAngle(0);
    let mut pos = player_at(250_000);
    control_player(&mut delta, &mut pos, Nova::Idle, false, 50);
    assert_eq!(delta.0, -700);
    assert_eq!(pos.radius, 243_700);
}

#[test]
fn input_delta_clamps_at_minus_one() {
    let mut delta = PlayerInputAngle(-900);
    let mut pos = player_at(250_000);
    control_player(&mut delta, &mut pos, Nova::Idle, false, 100);
    assert_eq!(delta.0, -1000);
}

#[test]
fn buildup_phase_forces_outward() {
    let mut delta = PlayerInputAngle(-500);
    let mut pos = player_at(250_000);
    control_player(&mut delta, &mut pos, Nova::BuildingUp, false, 100);
    assert_eq!(delta.0, 1000);
    assert_eq!(pos.radius, 268_000); // 250_000 + 1000 * 100 * 180 / 1000
}

#[test]
fn after_phase_forces_inward() {
    let mut delta = PlayerInputAngle(500);
    let mut pos = player_at(250_000);
    control_player(&mut delta, &mut pos, Nova::After, true, 100);
    assert_eq!(delta.0, -1000);
    assert_eq!(pos.radius, 232_000);
}

#[test]
fn during_phase_keeps_normal_control() {
    let mut delta = PlayerInputAngle(0);
    let mut pos = player_at(250_000);
    control_player(&mut delta, &mut pos, Nova::During, true, 50);
    assert_eq!(delta.0, 700);
}

#[test]
fn radius_clamps_at_floor() {
    let mut delta = PlayerInputAngle(-1000);
    let mut pos = player_at(500);
    control_player(&mut delta, &mut pos, Nova::Idle, false, 3_600_000);
    assert_eq!(pos.radius, 500);
}

#[test]
fn radius_clamps_at_ceiling() {
    let mut delta = PlayerInputAngle(1000);
    let mut pos = player_at(800_000);
    control_player(&mut delta, &mut pos, Nova::Idle, true, 3_600_000);
    assert_eq!(pos.radius, 800_000);
}

#[test]
fn radius_stays_in_band_for_many_steps() {
    let mut delta = PlayerInputAngle(0);
    let mut pos = player_at(250_000);
    for i in 0..200 {
        let engaged = (i / 7) % 2 == 0;
        control_player(&mut delta, &mut pos, Nova::Idle, engaged, 33 + (i % 50));
        assert!((500..=800_000).contains(&pos.radius));
        assert!((-1000..=1000).contains(&delta.0));
    }
}

#[test]
fn steering_suppressed_at_radius_bounds() {
    assert_eq!(steering_offset(250_000, 1000), 300_000);
    assert_eq!(steering_offset(250_000, -500), -150_000);
    assert_eq!(steering_offset(1000, 1000), 0);
    assert_eq!(steering_offset(500, 1000), 0);
    assert_eq!(steering_offset(800_000, 1000), 0);
}
