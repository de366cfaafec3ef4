//! Power generation and shield decay: exact rates and clamp invariants.
use sunskim::player::{
    power_generation, shield_decay, update_player_theta, ItemPosition, PlayerPower, PlayerShield,
};

#[test]
fn power_decays_far_from_sun() {
    // rate = clamp(10 - 0.05 * 250, -3, 10) = -2.5 per second
    let mut power = PlayerPower(50_000);
    power_generation(&mut power, 250_000, 1000);
    assert_eq!(power.0, 47_500);

    // further out the rate clamps at -3 per second
    let mut power = PlayerPower(50_000);
    power_generation(&mut power, 300_000, 1000);
    assert_eq!(power.0, 47_000);
}

#[test]
fn power_rises_near_sun() {
    // rate = 10 - 0.05 * 100 = 5 per second
    let mut power = PlayerPower(0);
    power_generation(&mut power, 100_000, 2000);
    assert_eq!(power.0, 10_000);
}

#[test]
fn power_rate_maxes_at_the_edge() {
    // rate = 10 - 0.05 * 0.5 = 9.975 per second
    let mut power = PlayerPower(0);
    power_generation(&mut power, 500, 1000);
    assert_eq!(power.0, 9_975);
}

#[test]
fn power_clamps_at_ceiling() {
    let mut power = PlayerPower(99_000);
    power_generation(&mut power, 500, 3_600_000);
    assert_eq!(power.0, 100_000);
}

#[test]
fn power_clamps_at_floor() {
    let mut power = PlayerPower(1_000);
    power_generation(&mut power, 800_000, 1000);
    assert_eq!(power.0, 0);
}

#[test]
fn shield_recovers_far_from_sun() {
    // raw rate 0.3 * 100 + 23 = 53, clamped to +10 per second
    let mut shield = PlayerShield(50_000);
    shield_decay(&mut shield, 100_000, 1000);
    assert_eq!(shield.0, 60_000);
}

#[test]
fn shield_drains_in_hot_zone() {
    // rate = -2 / (0.005 * 50) = -8 per second
    let mut shield = PlayerShield(100_000);
    shield_decay(&mut shield, 50_000, 1000);
    assert_eq!(shield.0, 92_000);
}

#[test]
fn shield_rate_at_hot_zone_boundary() {
    // radius 55 still counts as the hot zone: -400/55 = -7.272 per second
    let mut shield = PlayerShield(100_000);
    shield_decay(&mut shield, 55_000, 1000);
    assert_eq!(shield.0, 92_728);
}

#[test]
fn shield_spike_clamps_at_the_edge() {
    // raw rate -800 per second, clamped to -10
    let mut shield = PlayerShield(100_000);
    shield_decay(&mut shield, 500, 500);
    assert_eq!(shield.0, 95_000);
}

#[test]
fn shield_clamps_at_floor() {
    let mut shield = PlayerShield(3_000);
    shield_decay(&mut shield, 500, 1000);
    assert_eq!(shield.0, 0);
}

#[test]
fn shield_clamps_at_ceiling() {
    let mut shield = PlayerShield(99_000);
    shield_decay(&mut shield, 100_000, 1000);
    assert_eq!(shield.0, 100_000);
}

#[test]
fn resources_stay_in_band_for_many_steps() {
    let mut power = PlayerPower(50_000);
    let mut shield = PlayerShield(50_000);
    let mut radius: i64 = 500;
    for i in 0..300 {
        power_generation(&mut power, radius, 40 + (i % 90));
        shield_decay(&mut shield, radius, 40 + (i % 90));
        assert!((0..=100_000).contains(&power.0));
        assert!((0..=100_000).contains(&shield.0));
        radius = (radius * 2 + 1).min(800_000);
        if radius == 800_000 {
            radius = 500;
        }
    }
}

#[test]
fn current_frac_scales_resources() {
    assert_eq!(PlayerPower(50_000).current_frac(), 500);
    assert_eq!(PlayerPower(0).current_frac(), 0);
    assert_eq!(PlayerShield(100_000).current_frac(), 1000);
}

#[test]
fn theta_advances_and_wraps() {
    let mut pos = ItemPosition { radius: 250_000, theta: 0, speed: 450 };
    update_player_theta(&mut pos, 1000);
    assert_eq!(pos.theta, 450_000); // 0.45 rad in micro-radians

    // one full revolution takes TAU / 0.45 = 13.96 seconds; after 14 the
    // angle has wrapped
    let mut pos = ItemPosition { radius: 250_000, theta: 0, speed: 450 };
    update_player_theta(&mut pos, 14_000);
    assert_eq!(pos.theta, 6_300_000 - 6_283_185);
}

#[test]
fn tight_orbit_accelerates_theta() {
    let mut pos = ItemPosition { radius: 900, theta: 0, speed: 450 };
    update_player_theta(&mut pos, 1000);
    assert_eq!(pos.theta, 675_000); // 1.5x multiplier below radius 1
}
