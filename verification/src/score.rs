//! The score accumulator and its power-gated multiplier.
use vstd::prelude::*;

use crate::consts::{
    DT_MAX_MS, MULTIPLIER_POWER_THRESHOLD, RESOURCE_MAX, SCORE_CAP, SCORE_INCREASE_RATE,
};
use crate::num::{clamp_i64, lemma_mul_nonneg_bounds, min_i64, spec_clamp, spec_min};
use crate::player::PlayerPower;
use crate::supernova::Nova;

verus! {

/// The session score and its multiplier.
#[derive(Clone, Copy, Debug, PartialEq, Eq, Structural)]
pub struct Score {
    /// Accumulated score, in milli-units, saturating at SCORE_CAP.
    pub score: i64,
    /// Current multiplier; at least 1 and never decreasing in a session.
    pub multiplier: u32,
}

impl Score {
    /// The score invariant: nonnegative, capped, multiplier at least 1.
    pub open spec fn wf(self) -> bool {
        &&& 0 <= self.score <= SCORE_CAP
        &&& self.multiplier >= 1
    }
}

impl Default for Score {
    /// A fresh session starts with no score and a 1x multiplier.
    fn default() -> (d: Self)
        ensures
            d.score == 0,
            d.multiplier == 1,
            d.wf(),
    {
        Score { score: 0, multiplier: 1 }
    }
}

/// One tick's worth of score, in milli-units: the rate scaled by the power
/// fraction, the time step and the multiplier.
pub open spec fn spec_score_increment(power: int, multiplier: int, dt_ms: int) -> int {
    dt_ms * SCORE_INCREASE_RATE * spec_clamp(power / 100, 0, 1000) / 1000 * multiplier
}

/// Whether the score accrues in this phase: it pauses while the supernova
/// builds up and while it is underway.
pub open spec fn spec_score_accrues(phase: Nova) -> bool {
    !(phase is BuildingUp || phase is During)
}

/// Steps the multiplier up by one and resets power to zero whenever power
/// has reached the near-ceiling threshold. Returns whether it stepped.
pub fn increase_multiplier(score: &mut Score, power: &mut PlayerPower) -> (stepped: bool)
    requires
        old(score).wf(),
        old(power).wf(),
        old(score).multiplier < u32::MAX,
    ensures
        final(score).wf(),
        final(power).wf(),
        stepped == (old(power).0 >= MULTIPLIER_POWER_THRESHOLD),
        stepped ==> final(power).0 == 0 && final(score).multiplier == old(score).multiplier + 1,
        !stepped ==> *final(power) == *old(power) && final(score).multiplier == old(
            score,
        ).multiplier,
        final(score).score == old(score).score,
{
    if power.0 >= MULTIPLIER_POWER_THRESHOLD {
        power.0 = 0;
        score.multiplier = score.multiplier + 1;
        true
    } else {
        false
    }
}

/// Accrues score from the current power fraction and multiplier over one
/// tick, saturating at the cap; the score never decreases, and stands still
/// while the supernova builds up or is underway.
pub fn increase_score(score: &mut Score, power: &PlayerPower, phase: Nova, dt_ms: i64)
    requires
        old(score).wf(),
        power.wf(),
        0 <= dt_ms <= DT_MAX_MS,
    ensures
        final(score).wf(),
        final(score).multiplier == old(score).multiplier,
        spec_score_accrues(phase) ==> final(score).score == spec_min(
            old(score).score + spec_score_increment(
                power.0 as int,
                old(score).multiplier as int,
                dt_ms as int,
            ),
            SCORE_CAP as int,
        ),
        !spec_score_accrues(phase) ==> final(score).score == old(score).score,
        final(score).score >= old(score).score,
{
    match phase {
        Nova::BuildingUp | Nova::During => {
        },
        Nova::Idle | Nova::After => {
            let frac: i64 = power.current_frac();
            proof {
                lemma_mul_nonneg_bounds(
                    (dt_ms * SCORE_INCREASE_RATE) as int,
                    (DT_MAX_MS * SCORE_INCREASE_RATE) as int,
                    frac as int,
                    1000,
                );
                lemma_mul_nonneg_bounds(
                    (dt_ms * SCORE_INCREASE_RATE * frac / 1000) as int,
                    (DT_MAX_MS * SCORE_INCREASE_RATE) as int,
                    score.multiplier as int,
                    u32::MAX as int,
                );
            }
            let inc: i64 = dt_ms * SCORE_INCREASE_RATE * frac / 1000 * (score.multiplier as i64);
            score.score = min_i64(score.score + inc, SCORE_CAP);
        },
    }
}

} // verus!
