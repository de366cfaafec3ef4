//! Volume levels for the two looping gameplay noises, driven by the
//! player's proximity to the sun and the nova phase. The core only computes
//! the levels; playback belongs to the audio layer.
use vstd::prelude::*;

use crate::consts::{
    MAX_PLAYER_RADIUS, MIN_PLAYER_RADIUS, SKIM_RADIUS, SKIM_VOLUME, VOLUME_FADE_STEP,
};
use crate::num::{clamp_i64, spec_clamp};
use crate::supernova::Nova;

verus! {

/// The proximity-noise volume at the given radius, in milli-units of 1:
/// full near the sun, fading to silence 500 units out, at half gain.
pub open spec fn spec_proximity_volume(radius: int) -> int {
    spec_clamp(1000 - radius / 500, 0, 1000) / 2
}

/// A volume lowered by one fade step, never below silence.
pub open spec fn spec_decrement_volume(volume: int, step: int) -> int {
    if volume - step > 0 {
        volume - step
    } else {
        0
    }
}

/// Lowers a volume by one fade step, stopping at silence.
pub fn decrement_volume(volume: i64, step: i64) -> (v: i64)
    requires
        0 <= volume <= 1000,
        0 <= step <= 1000,
    ensures
        v == spec_decrement_volume(volume as int, step as int),
        0 <= v <= volume,
{
    if volume - step > 0 {
        volume - step
    } else {
        0
    }
}

/// Sets the two gameplay volumes for one tick: while skimming, the
/// proximity noise follows the player's distance and the skimming cue plays
/// only right at the sun's edge; mid-nova the proximity noise fades out one
/// step per tick and the skimming cue is silent; while arriving, both rest.
pub fn update_volume_based_on_proximity(
    phase: Nova,
    radius: i64,
    prox_volume: &mut i64,
    skim_volume: &mut i64,
)
    requires
        MIN_PLAYER_RADIUS <= radius <= MAX_PLAYER_RADIUS,
        0 <= *old(prox_volume) <= 1000,
    ensures
        0 <= *final(prox_volume) <= 1000,
        (phase is Idle || phase is BuildingUp) ==> *final(prox_volume) == spec_proximity_volume(
            radius as int,
        ) && *final(skim_volume) == (if radius < SKIM_RADIUS {
            SKIM_VOLUME as int
        } else {
            0
        }),
        phase is During ==> *final(skim_volume) == 0 && *final(prox_volume) == (if *old(
            prox_volume,
        ) <= 0 {
            *old(prox_volume) as int
        } else {
            spec_decrement_volume(*old(prox_volume) as int, VOLUME_FADE_STEP as int)
        }),
        phase is After ==> *final(skim_volume) == 0 && *final(prox_volume) == *old(prox_volume),
{
    match phase {
        Nova::Idle | Nova::BuildingUp => {
            *prox_volume = clamp_i64(1000 - radius / 500, 0, 1000) / 2;
            *skim_volume = if radius < SKIM_RADIUS {
                SKIM_VOLUME
            } else {
                0
            };
        },
        Nova::During => {
            *skim_volume = 0;
            if *prox_volume > 0 {
                *prox_volume = decrement_volume(*prox_volume, VOLUME_FADE_STEP);
            }
        },
        Nova::After => {
            *skim_volume = 0;
        },
    }
}

} // verus!
