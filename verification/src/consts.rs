//! Tuning constants for the simulation core.
//!
//! All quantities are fixed-point integers:
//! - scalar game quantities (radius, power, shield, score, input delta)
//!   are stored in thousandths of a unit ("milli"),
//! - angles are stored in millionths of a radian ("micro-radians"),
//! - times are stored in milliseconds.
use vstd::prelude::*;

verus! {

/// The angular speed the player starts with, in milli-radians per second
/// (0.45 rad/s).
pub const PLAYER_STARTING_SPEED: i64 = 450;

/// The radius of the sun at the start of a session, in milli-units.
pub const SUN_STARTING_RADIUS: i64 = 1_000_000;

/// How fast the input delta moves the player along the radius.
/// Milli-units of radius per second per unit of input delta.
pub const PLAYER_RADIUS_CHANGE_SPEED: i64 = 180;

/// How fast the smoothed input delta reacts to the engage input,
/// in whole delta units per second.
pub const MOVEMENT_ACCEL_SCALE: i64 = 14;

/// The largest radius a player can have, measured from the sun's edge,
/// in milli-units.
pub const MAX_PLAYER_RADIUS: i64 = 800_000;

/// The smallest radius a player can have (0.5 units), in milli-units.
pub const MIN_PLAYER_RADIUS: i64 = 500;

/// The smoothed input delta is clamped to [-1, 1], in milli-units.
pub const INPUT_DELTA_MAX: i64 = 1000;

/// Power and shield both live in [0, 100], in milli-units.
pub const RESOURCE_MAX: i64 = 100_000;

/// The rate the score increases each second, per unit of power fraction
/// and multiplier.
pub const SCORE_INCREASE_RATE: i64 = 7;

/// The cost to shields of hitting an obstacle, in milli-units.
pub const SHIELD_COST_ON_OBSTACLE_HIT: i64 = 30_000;

/// The cost to power of hitting an obstacle, in milli-units.
pub const POWER_COST_ON_OBSTACLE_HIT: i64 = 25_000;

/// Power at or above this steps the multiplier up (99 units), in milli-units.
pub const MULTIPLIER_POWER_THRESHOLD: i64 = 99_000;

/// Shield strictly below this ends the session (0.1 units), in milli-units.
pub const LETHAL_SHIELD: i64 = 100;

/// Shield strictly below this raises the low-shield alarm (25 units),
/// in milli-units.
pub const ALARM_SHIELD: i64 = 25_000;

/// Base of the linear power generation rate, in milli-units per second.
pub const POWER_RATE_BASE: i64 = 10_000;

/// The power generation rate is clamped to [-3, 10] units per second.
pub const POWER_RATE_MIN: i64 = -3_000;
/// Upper clamp of the power generation rate, in milli-units per second.
pub const POWER_RATE_MAX: i64 = 10_000;

/// The shield rate is clamped to [-10, 10] units per second.
pub const SHIELD_RATE_MAX: i64 = 10_000;

/// Above this radius (55 units) the shield recovers linearly; at or below
/// it the hot zone drains the shield with a reciprocal spike.
pub const SHIELD_HOT_ZONE_RADIUS: i64 = 55_000;

/// Numerator of the hot-zone drain: the real rate is -2 / (0.005 * radius),
/// which in fixed point is -(400_000_000 / radius_milli) milli-units/second.
pub const SHIELD_HOT_NUMERATOR: i64 = 400_000_000;

/// One full turn, in micro-radians.
pub const TAU_MICRO: i64 = 6_283_185;

/// Half a turn, in micro-radians.
pub const PI_MICRO: i64 = 3_141_592;

/// Below this radius (1 unit) the orbit tightens and angular speed scales up.
pub const TIGHT_ORBIT_RADIUS: i64 = 1000;

/// Angular speed multiplier inside the tight orbit (1.5x), in milli-units.
pub const TIGHT_ORBIT_SPEED_MULT: i64 = 1500;

/// Angular speed multiplier elsewhere (1x), in milli-units.
pub const NORMAL_SPEED_MULT: i64 = 1000;

/// Steering offset gain: micro-radians of facing offset per milli-unit of
/// input delta (0.3 radians at full deflection).
pub const STEERING_GAIN: i64 = 300;

/// Dwell time of the idle nova phase, in milliseconds.
pub const IDLE_PHASE_MS: i64 = 30_000;
/// Dwell time of the build-up nova phase, in milliseconds.
pub const BUILD_PHASE_MS: i64 = 6_000;
/// Dwell time of the during-nova phase, in milliseconds.
pub const DURING_PHASE_MS: i64 = 10_000;
/// Dwell time of the after-nova phase, in milliseconds.
pub const AFTER_PHASE_MS: i64 = 4_000;

/// The spawn timer is re-armed to a random delay in
/// [SPAWN_DELAY_MIN_MS, SPAWN_DELAY_MAX_MS).
pub const SPAWN_DELAY_MIN_MS: i64 = 100;
/// Upper bound (exclusive) of the random spawn delay, in milliseconds.
pub const SPAWN_DELAY_MAX_MS: i64 = 400;

/// At least this many obstacles per spawn burst.
pub const SPAWN_COUNT_MIN: i64 = 1;
/// At most this many obstacles per spawn burst.
pub const SPAWN_COUNT_MAX: i64 = 3;

/// The burst's base radius is random in
/// [SPAWN_BASE_RADIUS_MIN, SPAWN_BASE_RADIUS_MAX), in milli-units.
pub const SPAWN_BASE_RADIUS_MIN: i64 = -75_000;
/// Upper bound (exclusive) of the burst's base radius: half the maximum
/// player radius, in milli-units.
pub const SPAWN_BASE_RADIUS_MAX: i64 = 400_000;

/// Each obstacle jitters its radius by a random amount in
/// [SPAWN_RADIUS_JITTER_MIN, SPAWN_RADIUS_JITTER_MAX), in milli-units.
pub const SPAWN_RADIUS_JITTER_MIN: i64 = -60_000;
/// Upper bound (exclusive) of the per-obstacle radius jitter, in milli-units.
pub const SPAWN_RADIUS_JITTER_MAX: i64 = 20_000;

/// Each obstacle jitters its angle by a random amount in
/// [-SPAWN_THETA_JITTER, SPAWN_THETA_JITTER), in micro-radians (0.05 rad).
pub const SPAWN_THETA_JITTER: i64 = 50_000;

/// Obstacle radial drift speed is random in
/// [OBSTACLE_SPEED_MIN, OBSTACLE_SPEED_MAX), in milli-units per second.
pub const OBSTACLE_SPEED_MIN: i64 = -30_000;
/// Upper bound (exclusive) of the obstacle radial drift speed.
pub const OBSTACLE_SPEED_MAX: i64 = -15_000;

/// Smallest radius an obstacle can spawn with, in milli-units.
pub const OBSTACLE_RADIUS_MIN: i64 = -135_000;
/// Largest radius (exclusive) an obstacle can spawn with, in milli-units.
pub const OBSTACLE_RADIUS_MAX: i64 = 420_000;

/// Number of barrier hazards spawned per nova cycle.
pub const BARRIER_COUNT: usize = 11;

/// Barrier visual scale is random in [BARRIER_SCALE_MIN, BARRIER_SCALE_MAX),
/// in milli-units.
pub const BARRIER_SCALE_MIN: i64 = 20_000;
/// Upper bound (exclusive) of the barrier scale, in milli-units.
pub const BARRIER_SCALE_MAX: i64 = 30_000;

/// Each successive barrier advances around the orbit by a random angle in
/// [BARRIER_STEP_MIN, BARRIER_STEP_MAX), in micro-radians (0.5..0.7 rad).
pub const BARRIER_STEP_MIN: i64 = 500_000;
/// Upper bound (exclusive) of the barrier angular step, in micro-radians.
pub const BARRIER_STEP_MAX: i64 = 700_000;

/// Barriers spawn with a radius from the sun's edge in
/// [0, BARRIER_RADIUS_MAX), in milli-units.
pub const BARRIER_RADIUS_MAX: i64 = 560_000;

/// Largest time step a single tick may take, in milliseconds: a machine
/// limit so that fixed-width products cannot overflow.
pub const DT_MAX_MS: i64 = 3_600_000;

/// Largest elapsed session time the fixed-width clock supports,
/// in milliseconds.
pub const ELAPSED_MAX_MS: i64 = 100_000_000_000_000;

/// The score saturates at this cap instead of overflowing, in milli-units.
pub const SCORE_CAP: i64 = 1_000_000_000_000_000_000;

/// Volume of the skimming cue while inside SKIM_RADIUS, in milli-units.
pub const SKIM_VOLUME: i64 = 650;

/// Radius under which the skimming cue plays (5 units), in milli-units.
pub const SKIM_RADIUS: i64 = 5_000;

/// Per-tick fade step of the proximity volume mid-nova (0.01), in milli-units.
pub const VOLUME_FADE_STEP: i64 = 10;

} // verus!
