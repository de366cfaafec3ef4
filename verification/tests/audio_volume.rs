//! Proximity-driven volume levels.
use sunskim::audio::{decrement_volume, update_volume_based_on_proximity};
use sunskim::supernova::Nova;

#[test]
fn proximity_volume_follows_the_radius() {
    let mut prox: i64 = 0;
    let mut skim: i64 = 0;
    update_volume_based_on_proximity(Nova::Idle, 250_000, &mut prox, &mut skim);
    assert_eq!(prox, 250); // (1 - 250/500) / 2
    assert_eq!(skim, 0);

    update_volume_based_on_proximity(Nova::BuildingUp, 4_000, &mut prox, &mut skim);
    assert_eq!(prox, 496);
    assert_eq!(skim, 650); // skimming right at the sun's edge

    update_volume_based_on_proximity(Nova::Idle, 600_000, &mut prox, &mut skim);
    assert_eq!(prox, 0); // silent past 500 units out
    assert_eq!(skim, 0);
}

#[test]
fn proximity_noise_fades_mid_nova() {
    let mut prox: i64 = 500;
    let mut skim: i64 = 650;
    update_volume_based_on_proximity(Nova::During, 250_000, &mut prox, &mut skim);
    assert_eq!(prox, 490);
    assert_eq!(skim, 0);

    let mut prox: i64 = 0;
    update_volume_based_on_proximity(Nova::During, 250_000, &mut prox, &mut skim);
    assert_eq!(prox, 0); // already silent: stays silent
}

#[test]
fn volumes_rest_while_arriving() {
    let mut prox: i64 = 490;
    let mut skim: i64 = 650;
    update_volume_based_on_proximity(Nova::After, 250_000, &mut prox, &mut skim);
    assert_eq!(prox, 490);
    assert_eq!(skim, 0);
}

#[test]
fn decrement_stops_at_silence() {
    assert_eq!(decrement_volume(500, 10), 490);
    assert_eq!(decrement_volume(5, 10), 0);
    assert_eq!(decrement_volume(0, 10), 0);
}
