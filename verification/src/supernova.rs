//! The cyclic four-phase supernova state machine and its countdown timer.
use vstd::prelude::*;

use crate::consts::{AFTER_PHASE_MS, BUILD_PHASE_MS, DT_MAX_MS, DURING_PHASE_MS, IDLE_PHASE_MS};

verus! {

/// The phase of the periodic supernova event.
#[derive(Clone, Copy, Debug, PartialEq, Eq, Structural)]
pub enum Nova {
    /// The default state where we are skimming the star.
    Idle,
    /// The nova has started but we have not yet left the star.
    BuildingUp,
    /// The nova is happening and we are travelling to the next star.
    During,
    /// Arriving at the next star, before we start skimming again.
    After,
}

impl Nova {
    /// The phase that follows this one in the fixed cycle.
    pub open spec fn spec_next(self) -> Nova {
        match self {
            Nova::Idle => Nova::BuildingUp,
            Nova::BuildingUp => Nova::During,
            Nova::During => Nova::After,
            Nova::After => Nova::Idle,
        }
    }

    /// Advances to the next phase of the cycle.
    pub fn next_state(&self) -> (n: Nova)
        ensures
            n == self.spec_next(),
    {
        match self {
            Nova::Idle => Nova::BuildingUp,
            Nova::BuildingUp => Nova::During,
            Nova::During => Nova::After,
            Nova::After => Nova::Idle,
        }
    }
}

impl Default for Nova {
    /// A session starts in the idle phase.
    fn default() -> (d: Self)
        ensures
            d == Nova::Idle,
    {
        Nova::Idle
    }
}

/// The fixed dwell time of each phase, in milliseconds.
pub open spec fn spec_phase_duration(phase: Nova) -> int {
    match phase {
        Nova::Idle => IDLE_PHASE_MS as int,
        Nova::BuildingUp => BUILD_PHASE_MS as int,
        Nova::During => DURING_PHASE_MS as int,
        Nova::After => AFTER_PHASE_MS as int,
    }
}

/// The fixed dwell time of each phase, in milliseconds.
pub fn phase_duration(phase: Nova) -> (d: i64)
    ensures
        d == spec_phase_duration(phase),
        0 < d <= IDLE_PHASE_MS,
{
    match phase {
        Nova::Idle => IDLE_PHASE_MS,
        Nova::BuildingUp => BUILD_PHASE_MS,
        Nova::During => DURING_PHASE_MS,
        Nova::After => AFTER_PHASE_MS,
    }
}

/// The countdown that drives the phase cycle. Exactly one timer exists at a
/// time; entering a phase always starts it at that phase's full duration.
#[derive(Clone, Copy, Debug, PartialEq, Eq, Structural)]
pub struct NovaTimer {
    /// Time left in the active phase, in milliseconds.
    pub remaining_ms: i64,
}

impl NovaTimer {
    /// The timer invariant relative to the active phase: strictly positive
    /// (a transition always re-arms it) and within the phase's duration.
    pub open spec fn wf(self, phase: Nova) -> bool {
        0 < self.remaining_ms <= spec_phase_duration(phase)
    }

    /// A fresh full-duration timer for the given phase.
    pub fn fresh(phase: Nova) -> (t: NovaTimer)
        ensures
            t.remaining_ms == spec_phase_duration(phase),
            t.wf(phase),
    {
        NovaTimer { remaining_ms: phase_duration(phase) }
    }

    /// How much of the phase remains, in milli-units of 1.
    pub fn fraction_remaining(&self, phase: Nova) -> (r: i64)
        requires
            self.wf(phase),
        ensures
            r == self.remaining_ms * 1000 / spec_phase_duration(phase),
            0 <= r <= 1000,
    {
        let d: i64 = phase_duration(phase);
        let r: i64 = self.remaining_ms * 1000 / d;
        proof {
            vstd::arithmetic::div_mod::lemma_div_is_ordered(
                self.remaining_ms * 1000,
                d * 1000,
                d as int,
            );
            vstd::arithmetic::div_mod::lemma_div_multiples_vanish(1000, d as int);
            vstd::arithmetic::div_mod::lemma_div_pos_is_pos(self.remaining_ms * 1000, d as int);
        }
        r
    }
}

/// Counts the phase timer down and, exactly when it runs out, advances the
/// phase to the next one in the cycle and re-arms a fresh full-duration
/// timer for it. Returns whether a transition happened.
pub fn tick_nova_timer(phase: &mut Nova, timer: &mut NovaTimer, dt_ms: i64) -> (transitioned:
    bool)
    requires
        old(timer).wf(*old(phase)),
        0 <= dt_ms <= DT_MAX_MS,
    ensures
        final(timer).wf(*final(phase)),
        transitioned == (dt_ms >= old(timer).remaining_ms),
        !transitioned ==> *final(phase) == *old(phase) && final(timer).remaining_ms == old(
            timer,
        ).remaining_ms - dt_ms,
        transitioned ==> *final(phase) == old(phase).spec_next() && final(timer).remaining_ms
            == spec_phase_duration(*final(phase)),
{
    if dt_ms >= timer.remaining_ms {
        let next = phase.next_state();
        *phase = next;
        *timer = NovaTimer::fresh(next);
        true
    } else {
        timer.remaining_ms = timer.remaining_ms - dt_ms;
        false
    }
}

/// During the build-up phase the visuals blend toward the warning palette as
/// a function of the time already spent: 1 - 2 * fraction_remaining, in
/// milli-units (negative early in the phase, 1000 at its end).
pub fn buildup_blend(timer: &NovaTimer) -> (c: i64)
    requires
        timer.wf(Nova::BuildingUp),
    ensures
        c == 1000 - 2 * (timer.remaining_ms * 1000 / spec_phase_duration(Nova::BuildingUp)),
        -1000 <= c <= 1000,
{
    1000 - 2 * timer.fraction_remaining(Nova::BuildingUp)
}

/// During the after phase the visuals blend back to normal as a function of
/// the time already spent: 1 - fraction_remaining, in milli-units.
pub fn after_blend(timer: &NovaTimer) -> (c: i64)
    requires
        timer.wf(Nova::After),
    ensures
        c == 1000 - timer.remaining_ms * 1000 / spec_phase_duration(Nova::After),
        0 <= c <= 1000,
{
    1000 - timer.fraction_remaining(Nova::After)
}

/// The nova phases cycle in the fixed order Idle, BuildingUp, During, After
/// and back to Idle; no phase is skipped or revisited out of order, and four
/// steps return any phase to itself.
pub proof fn lemma_phase_cycle(p: Nova)
    ensures
        Nova::Idle.spec_next() == Nova::BuildingUp,
        Nova::BuildingUp.spec_next() == Nova::During,
        Nova::During.spec_next() == Nova::After,
        Nova::After.spec_next() == Nova::Idle,
        p.spec_next().spec_next().spec_next().spec_next() == p,
{
}

} // verus!
