//! The player's orbital position and its two resources, power and shield.
use vstd::prelude::*;

use crate::consts::{
    DT_MAX_MS, MAX_PLAYER_RADIUS, MIN_PLAYER_RADIUS, NORMAL_SPEED_MULT, PLAYER_STARTING_SPEED,
    POWER_RATE_BASE, POWER_RATE_MAX, POWER_RATE_MIN, RESOURCE_MAX, SHIELD_HOT_NUMERATOR,
    SHIELD_HOT_ZONE_RADIUS, SHIELD_RATE_MAX, STEERING_GAIN, TAU_MICRO, TIGHT_ORBIT_RADIUS,
    TIGHT_ORBIT_SPEED_MULT,
};
use crate::num::{clamp_i64, lemma_mul_nonneg_bounds, lemma_mul_signed_nonneg_bounds, spec_clamp};

verus! {

/// Truncating division by a positive divisor, as the machine performs it
/// on signed integers (`int` division in specifications is Euclidean).
pub open spec fn spec_div_trunc(a: int, d: int) -> int
    recommends
        d > 0,
{
    if a >= 0 {
        a / d
    } else {
        -((-a) / d)
    }
}

/// Largest angular speed the model supports, in milli-radians per second:
/// a machine limit so the angle advance cannot overflow.
pub const MAX_ANGULAR_SPEED: i64 = 10_000;

/// Orbital position of the player, relative to the sun's edge.
#[derive(Clone, Copy, Debug, PartialEq, Eq, Structural)]
pub struct ItemPosition {
    /// Distance from the sun's edge, in milli-units.
    pub radius: i64,
    /// Orbital angle, in micro-radians, kept in [0, TAU_MICRO).
    pub theta: i64,
    /// Nominal angular speed, in milli-radians per second.
    pub speed: i64,
}

impl ItemPosition {
    /// The position invariant: radius clamped to its band, angle wrapped
    /// into one turn, speed positive and bounded.
    pub open spec fn wf(self) -> bool {
        &&& MIN_PLAYER_RADIUS <= self.radius <= MAX_PLAYER_RADIUS
        &&& 0 <= self.theta < TAU_MICRO
        &&& 1 <= self.speed <= MAX_ANGULAR_SPEED
    }
}

impl Default for ItemPosition {
    /// A fresh session starts at radius 250, angle 0, nominal speed.
    fn default() -> (d: Self)
        ensures
            d.radius == 250_000,
            d.theta == 0,
            d.speed == PLAYER_STARTING_SPEED,
            d.wf(),
    {
        ItemPosition { radius: 250_000, theta: 0, speed: PLAYER_STARTING_SPEED }
    }
}

/// Power rises near the sun: the rate is linear in the radius,
/// clamped to [-3, 10] units per second (all values in milli-units).
pub open spec fn spec_power_rate(radius: int) -> int {
    spec_clamp(POWER_RATE_BASE - radius / 20, POWER_RATE_MIN as int, POWER_RATE_MAX as int)
}

/// Power after one integration step: the clamped rate scaled by the time
/// step, with the resource itself clamped into [0, 100] units.
pub open spec fn spec_integrate_power(power: int, radius: int, dt_ms: int) -> int {
    spec_clamp(power + spec_div_trunc(spec_power_rate(radius) * dt_ms, 1000), 0, RESOURCE_MAX as int)
}

/// The shield recovers linearly far from the sun and drains sharply in the
/// hot zone near it; the rate is clamped to [-10, 10] units per second.
pub open spec fn spec_shield_rate(radius: int) -> int {
    spec_clamp(
        if radius > SHIELD_HOT_ZONE_RADIUS {
            3 * radius / 10 + 23_000
        } else {
            -(SHIELD_HOT_NUMERATOR as int / radius)
        },
        -(SHIELD_RATE_MAX as int),
        SHIELD_RATE_MAX as int,
    )
}

/// Shield after one integration step, clamped into [0, 100] units.
pub open spec fn spec_integrate_shield(shield: int, radius: int, dt_ms: int) -> int {
    spec_clamp(
        shield + spec_div_trunc(spec_shield_rate(radius) * dt_ms, 1000),
        0,
        RESOURCE_MAX as int,
    )
}

/// Power accumulated by staying close to the sun, in milli-units.
#[derive(Clone, Copy, Debug, PartialEq, Eq, Structural)]
pub struct PlayerPower(pub i64);

impl PlayerPower {
    /// Power always stays inside [0, 100] units.
    pub open spec fn wf(self) -> bool {
        0 <= self.0 <= RESOURCE_MAX
    }

    /// The filled fraction of the power bar, in milli-units of 1.
    pub fn current_frac(&self) -> (r: i64)
        requires
            self.wf(),
        ensures
            r == spec_clamp(self.0 as int / 100, 0, 1000),
            0 <= r <= 1000,
    {
        clamp_i64(self.0 / 100, 0, 1000)
    }
}

impl Default for PlayerPower {
    /// A fresh session starts with no power.
    fn default() -> (d: Self)
        ensures
            d.0 == 0,
            d.wf(),
    {
        PlayerPower(0)
    }
}

/// The shield protecting the player from the sun's heat, in milli-units.
#[derive(Clone, Copy, Debug, PartialEq, Eq, Structural)]
pub struct PlayerShield(pub i64);

impl PlayerShield {
    /// The shield always stays inside [0, 100] units.
    pub open spec fn wf(self) -> bool {
        0 <= self.0 <= RESOURCE_MAX
    }

    /// The filled fraction of the shield bar, in milli-units of 1.
    pub fn current_frac(&self) -> (r: i64)
        requires
            self.wf(),
        ensures
            r == spec_clamp(self.0 as int / 100, 0, 1000),
            0 <= r <= 1000,
    {
        clamp_i64(self.0 / 100, 0, 1000)
    }
}

impl Default for PlayerShield {
    /// A fresh session starts with a full shield.
    fn default() -> (d: Self)
        ensures
            d.0 == RESOURCE_MAX,
            d.wf(),
    {
        PlayerShield(RESOURCE_MAX)
    }
}

/// The angular speed multiplier: orbits tighten and accelerate right at the
/// sun's edge, in milli-units.
pub open spec fn spec_speed_multiplier(radius: int) -> int {
    if radius < TIGHT_ORBIT_RADIUS {
        TIGHT_ORBIT_SPEED_MULT as int
    } else {
        NORMAL_SPEED_MULT as int
    }
}

/// The orbital angle after one tick, wrapped into [0, TAU_MICRO).
pub open spec fn spec_advance_theta(theta: int, radius: int, speed: int, dt_ms: int) -> int {
    (theta + speed * dt_ms * spec_speed_multiplier(radius) / 1000) % (TAU_MICRO as int)
}

/// Advances the orbital angle by the angular speed over one tick, scaled up
/// inside the tight orbit, and wraps it into one turn.
pub fn update_player_theta(pos: &mut ItemPosition, dt_ms: i64)
    requires
        old(pos).wf(),
        0 <= dt_ms <= DT_MAX_MS,
    ensures
        final(pos).wf(),
        final(pos).theta == spec_advance_theta(
            old(pos).theta as int,
            old(pos).radius as int,
            old(pos).speed as int,
            dt_ms as int,
        ),
        final(pos).radius == old(pos).radius,
        final(pos).speed == old(pos).speed,
{
    let mult: i64 = if pos.radius < TIGHT_ORBIT_RADIUS {
        TIGHT_ORBIT_SPEED_MULT
    } else {
        NORMAL_SPEED_MULT
    };
    proof {
        lemma_mul_nonneg_bounds(pos.speed as int, MAX_ANGULAR_SPEED as int, dt_ms as int, DT_MAX_MS as int);
        lemma_mul_nonneg_bounds(
            (pos.speed * dt_ms) as int,
            (MAX_ANGULAR_SPEED * DT_MAX_MS) as int,
            mult as int,
            TIGHT_ORBIT_SPEED_MULT as int,
        );
    }
    let advance: i64 = pos.speed * dt_ms * mult / 1000;
    pos.theta = (pos.theta + advance) % TAU_MICRO;
}

/// The facing offset added on top of the away-from-sun direction,
/// proportional to the input delta and suppressed at both radius bounds,
/// in micro-radians.
pub open spec fn spec_steering_offset(radius: int, input_delta: int) -> int {
    if radius <= TIGHT_ORBIT_RADIUS || radius >= MAX_PLAYER_RADIUS {
        0
    } else {
        input_delta * STEERING_GAIN
    }
}

/// The steering part of the facing direction; the trigonometric part of the
/// conversion to Cartesian coordinates belongs to the renderer.
pub fn steering_offset(radius: i64, input_delta: i64) -> (r: i64)
    requires
        -1000 <= input_delta <= 1000,
    ensures
        r == spec_steering_offset(radius as int, input_delta as int),
{
    if radius <= TIGHT_ORBIT_RADIUS || radius >= MAX_PLAYER_RADIUS {
        0
    } else {
        input_delta * STEERING_GAIN
    }
}

/// Integrates the power resource over one tick from the current radius.
pub fn power_generation(power: &mut PlayerPower, radius: i64, dt_ms: i64)
    requires
        old(power).wf(),
        MIN_PLAYER_RADIUS <= radius <= MAX_PLAYER_RADIUS,
        0 <= dt_ms <= DT_MAX_MS,
    ensures
        final(power).wf(),
        final(power).0 == spec_integrate_power(old(power).0 as int, radius as int, dt_ms as int),
{
    let rate: i64 = clamp_i64(POWER_RATE_BASE - radius / 20, POWER_RATE_MIN, POWER_RATE_MAX);
    proof {
        lemma_mul_signed_nonneg_bounds(
            rate as int,
            POWER_RATE_MIN as int,
            POWER_RATE_MAX as int,
            dt_ms as int,
            DT_MAX_MS as int,
        );
    }
    let scaled: i64 = rate * dt_ms / 1000;
    power.0 = clamp_i64(power.0 + scaled, 0, RESOURCE_MAX);
}

/// Integrates the shield resource over one tick from the current radius.
pub fn shield_decay(shield: &mut PlayerShield, radius: i64, dt_ms: i64)
    requires
        old(shield).wf(),
        MIN_PLAYER_RADIUS <= radius <= MAX_PLAYER_RADIUS,
        0 <= dt_ms <= DT_MAX_MS,
    ensures
        final(shield).wf(),
        final(shield).0 == spec_integrate_shield(old(shield).0 as int, radius as int, dt_ms as int),
{
    let raw: i64 = if radius > SHIELD_HOT_ZONE_RADIUS {
        3 * radius / 10 + 23_000
    } else {
        -(SHIELD_HOT_NUMERATOR / radius)
    };
    let rate: i64 = clamp_i64(raw, -SHIELD_RATE_MAX, SHIELD_RATE_MAX);
    proof {
        lemma_mul_signed_nonneg_bounds(
            rate as int,
            -SHIELD_RATE_MAX as int,
            SHIELD_RATE_MAX as int,
            dt_ms as int,
            DT_MAX_MS as int,
        );
    }
    let scaled: i64 = rate * dt_ms / 1000;
    shield.0 = clamp_i64(shield.0 + scaled, 0, RESOURCE_MAX);
}

/// After every integration step both resources sit inside [0, 100] units:
/// the clamp invariant holds for every radius and time step.
pub proof fn lemma_resources_stay_clamped(power: int, shield: int, radius: int, dt_ms: int)
    ensures
        0 <= spec_integrate_power(power, radius, dt_ms) <= RESOURCE_MAX,
        0 <= spec_integrate_shield(shield, radius, dt_ms) <= RESOURCE_MAX,
{
}

} // verus!
