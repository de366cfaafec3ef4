//! Maps the discrete engage input into a smoothed radial-velocity delta and
//! advances the player's radius from it, with supernova-phase overrides.
use vstd::prelude::*;

use crate::consts::{
    DT_MAX_MS, INPUT_DELTA_MAX, MAX_PLAYER_RADIUS, MIN_PLAYER_RADIUS, MOVEMENT_ACCEL_SCALE,
    PLAYER_RADIUS_CHANGE_SPEED,
};
use crate::num::{clamp_i64, lemma_mul_signed_nonneg_bounds, spec_clamp};
use crate::player::{spec_div_trunc, ItemPosition};
use crate::supernova::Nova;

verus! {

/// The smoothed control signal driving radial velocity, in milli-units of 1.
/// It persists across frames and is clamped to [-1, 1].
#[derive(Clone, Copy, Debug, PartialEq, Eq, Structural)]
pub struct PlayerInputAngle(pub i64);

impl PlayerInputAngle {
    /// The delta always stays inside [-1, 1].
    pub open spec fn wf(self) -> bool {
        -INPUT_DELTA_MAX <= self.0 <= INPUT_DELTA_MAX
    }
}

impl Default for PlayerInputAngle {
    /// A fresh session starts with a neutral control signal.
    fn default() -> (d: Self)
        ensures
            d.0 == 0,
            d.wf(),
    {
        PlayerInputAngle(0)
    }
}

/// The smoothed delta after one tick of normal control: it accumulates
/// toward +1 while the engage input is held and decays toward -1 otherwise.
pub open spec fn spec_smoothed_delta(delta: int, engaged: bool, dt_ms: int) -> int {
    spec_clamp(
        if engaged {
            delta + MOVEMENT_ACCEL_SCALE * dt_ms
        } else {
            delta - MOVEMENT_ACCEL_SCALE * dt_ms
        },
        -INPUT_DELTA_MAX as int,
        INPUT_DELTA_MAX as int,
    )
}

/// The control signal after one tick, with the phase overrides: forced fully
/// outward while the nova builds up, fully inward while arriving, and under
/// normal smoothed control otherwise.
pub open spec fn spec_input_delta(phase: Nova, delta: int, engaged: bool, dt_ms: int) -> int {
    match phase {
        Nova::Idle => spec_smoothed_delta(delta, engaged, dt_ms),
        Nova::During => spec_smoothed_delta(delta, engaged, dt_ms),
        Nova::BuildingUp => INPUT_DELTA_MAX as int,
        Nova::After => -INPUT_DELTA_MAX as int,
    }
}

/// The radius after one tick: moved by the control signal and clamped into
/// its band, whatever the time step and starting radius.
pub open spec fn spec_new_radius(radius: int, delta: int, dt_ms: int) -> int {
    spec_clamp(
        radius + spec_div_trunc(delta * dt_ms * PLAYER_RADIUS_CHANGE_SPEED, 1000),
        MIN_PLAYER_RADIUS as int,
        MAX_PLAYER_RADIUS as int,
    )
}

/// One controller update: samples the engage input into the smoothed delta
/// (or applies the phase override), then advances the radius by it, clamped
/// into [MIN_PLAYER_RADIUS, MAX_PLAYER_RADIUS].
pub fn control_player(
    delta: &mut PlayerInputAngle,
    pos: &mut ItemPosition,
    phase: Nova,
    engaged: bool,
    dt_ms: i64,
)
    requires
        old(delta).wf(),
        old(pos).wf(),
        0 <= dt_ms <= DT_MAX_MS,
    ensures
        final(delta).wf(),
        final(pos).wf(),
        final(delta).0 == spec_input_delta(phase, old(delta).0 as int, engaged, dt_ms as int),
        final(pos).radius == spec_new_radius(
            old(pos).radius as int,
            final(delta).0 as int,
            dt_ms as int,
        ),
        MIN_PLAYER_RADIUS <= final(pos).radius <= MAX_PLAYER_RADIUS,
        final(pos).theta == old(pos).theta,
        final(pos).speed == old(pos).speed,
{
    match phase {
        Nova::Idle | Nova::During => {
            let moved: i64 = if engaged {
                delta.0 + MOVEMENT_ACCEL_SCALE * dt_ms
            } else {
                delta.0 - MOVEMENT_ACCEL_SCALE * dt_ms
            };
            delta.0 = clamp_i64(moved, -INPUT_DELTA_MAX, INPUT_DELTA_MAX);
        },
        Nova::BuildingUp => {
            delta.0 = INPUT_DELTA_MAX;
        },
        Nova::After => {
            delta.0 = -INPUT_DELTA_MAX;
        },
    }
    proof {
        lemma_mul_signed_nonneg_bounds(
            delta.0 as int,
            -INPUT_DELTA_MAX as int,
            INPUT_DELTA_MAX as int,
            dt_ms as int,
            DT_MAX_MS as int,
        );
    }
    let step: i64 = delta.0 * dt_ms * PLAYER_RADIUS_CHANGE_SPEED / 1000;
    pos.radius = clamp_i64(pos.radius + step, MIN_PLAYER_RADIUS, MAX_PLAYER_RADIUS);
}

/// For every nonnegative time step and every starting radius in its band,
/// one controller update leaves the radius in the band: the clamp invariant
/// holds unconditionally, whatever the control signal.
pub proof fn lemma_radius_stays_clamped(radius: int, delta: int, dt_ms: int)
    requires
        MIN_PLAYER_RADIUS <= radius <= MAX_PLAYER_RADIUS,
        dt_ms >= 0,
    ensures
        MIN_PLAYER_RADIUS <= spec_new_radius(radius, delta, dt_ms) <= MAX_PLAYER_RADIUS,
{
}

} // verus!
