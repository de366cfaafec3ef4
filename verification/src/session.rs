//! One gameplay session: the shared state record every subsystem works on,
//! the discrete events the core emits, and the per-tick update that runs the
//! subsystems in a fixed order.
use vstd::prelude::*;

use crate::consts::{
    ALARM_SHIELD, BARRIER_COUNT, DT_MAX_MS, ELAPSED_MAX_MS, LETHAL_SHIELD,
    MULTIPLIER_POWER_THRESHOLD, POWER_COST_ON_OBSTACLE_HIT, RESOURCE_MAX, SCORE_CAP,
    SHIELD_COST_ON_OBSTACLE_HIT, SPAWN_COUNT_MAX, SPAWN_COUNT_MIN, SPAWN_DELAY_MAX_MS,
    SPAWN_DELAY_MIN_MS,
};
use crate::input::{control_player, spec_input_delta, spec_new_radius, PlayerInputAngle};
use crate::num::{clamp_i64, spec_clamp, spec_min};
use crate::obstacle::{
    periodically_spawn_obstacles, spawn_barriers, spec_barrier_ok, spec_live_count,
    spec_obstacle_ok, spec_sweep, Barrier, DeathReason, Obstacle, ObstacleArena,
};
use crate::player::{
    power_generation, shield_decay, spec_advance_theta, spec_integrate_power,
    spec_integrate_shield, update_player_theta, ItemPosition, PlayerPower, PlayerShield,
};
use crate::score::{
    increase_multiplier, increase_score, spec_score_accrues, spec_score_increment, Score,
};
use crate::sun::Sun;
use crate::supernova::{spec_phase_duration, tick_nova_timer, Nova, NovaTimer};

verus! {

/// A discrete one-shot event emitted by the core for the audio and UI
/// layers; the core never handles playback itself.
#[derive(Clone, Copy, Debug, PartialEq, Eq, Structural)]
pub enum GameEvent {
    /// The player hit an ordinary obstacle and paid the resource penalty.
    ObstacleHit,
    /// The multiplier stepped up to the carried value.
    MultiplierUp(u32),
    /// The nova cycle entered the carried phase.
    PhaseEntered(Nova),
    /// The shield fell into the low band and the alarm cue started.
    AlarmStarted,
    /// The shield recovered and the alarm cue stopped.
    AlarmStopped,
    /// The session ended for the carried reason.
    GameOver(DeathReason),
}

/// A collision contact reported by the physics layer for the current tick,
/// referring to a hazard by its stable identifier.
#[derive(Clone, Copy, Debug, PartialEq, Eq, Structural)]
pub enum Contact {
    /// Contact with the obstacle in the given arena slot.
    Obstacle(usize),
    /// Contact with the barrier at the given index.
    Barrier(usize),
}

/// Power after paying the obstacle-hit penalty.
pub open spec fn spec_hit_power(power: int) -> int {
    spec_clamp(power - POWER_COST_ON_OBSTACLE_HIT, 0, RESOURCE_MAX as int)
}

/// Shield after paying the obstacle-hit penalty.
pub open spec fn spec_hit_shield(shield: int) -> int {
    spec_clamp(shield - SHIELD_COST_ON_OBSTACLE_HIT, 0, RESOURCE_MAX as int)
}

/// The slice of session state that collision resolution reads and writes.
#[verifier::ext_equal]
pub struct ResolveState {
    /// The obstacle arena's slots.
    pub slots: Seq<Option<Obstacle>>,
    /// Player power, in milli-units.
    pub power: int,
    /// Player shield, in milli-units.
    pub shield: int,
    /// The terminal state, if the session has ended.
    pub over: Option<DeathReason>,
    /// The events emitted so far this tick.
    pub events: Seq<GameEvent>,
}

/// Resolves a single contact. A live obstacle costs power and shield and is
/// destroyed; a contact with a slot already freed is a no-op, never an
/// error. A barrier is lethal only while the nova is underway; afterwards it
/// is inert.
pub open spec fn spec_resolve_one(
    st: ResolveState,
    c: Contact,
    during: bool,
    nbarriers: int,
) -> ResolveState {
    match c {
        Contact::Obstacle(id) => if id < st.slots.len() && st.slots[id as int] is Some {
            ResolveState {
                slots: st.slots.update(id as int, None),
                power: spec_hit_power(st.power),
                shield: spec_hit_shield(st.shield),
                over: st.over,
                events: st.events.push(GameEvent::ObstacleHit),
            }
        } else {
            st
        },
        Contact::Barrier(id) => if during && id < nbarriers && st.over is None {
            ResolveState {
                slots: st.slots,
                power: st.power,
                shield: st.shield,
                over: Some(DeathReason::BlackHole),
                events: st.events.push(GameEvent::GameOver(DeathReason::BlackHole)),
            }
        } else {
            st
        },
    }
}

/// Resolves a tick's contacts in the order the physics layer reported them.
pub open spec fn spec_resolve(
    st: ResolveState,
    contacts: Seq<Contact>,
    during: bool,
    nbarriers: int,
) -> ResolveState
    decreases contacts.len(),
{
    if contacts.len() == 0 {
        st
    } else {
        spec_resolve(
            spec_resolve_one(st, contacts.first(), during, nbarriers),
            contacts.drop_first(),
            during,
            nbarriers,
        )
    }
}

/// Collision resolution never grows or shrinks the arena: it only frees
/// slots, so identifiers stay stable.
pub proof fn lemma_resolve_keeps_len(
    st: ResolveState,
    contacts: Seq<Contact>,
    during: bool,
    nbarriers: int,
)
    ensures
        spec_resolve(st, contacts, during, nbarriers).slots.len() == st.slots.len(),
    decreases contacts.len(),
{
    if contacts.len() > 0 {
        lemma_resolve_keeps_len(
            spec_resolve_one(st, contacts.first(), during, nbarriers),
            contacts.drop_first(),
            during,
            nbarriers,
        );
    }
}

/// The alarm state after one look at the shield: active exactly while the
/// shield sits in the low band.
pub open spec fn spec_alarm_after(alarm: bool, shield: int) -> bool {
    shield < ALARM_SHIELD
}

/// Whether one look at the shield starts the alarm cue: only on the
/// crossing into the low band, never while the alarm is already active.
pub open spec fn spec_alarm_started(alarm: bool, shield: int) -> bool {
    !alarm && shield < ALARM_SHIELD
}

/// Whether one look at the shield stops the alarm cue: only on recovery
/// while the alarm is active.
pub open spec fn spec_alarm_stopped(alarm: bool, shield: int) -> bool {
    alarm && shield >= ALARM_SHIELD
}

/// Entering the low-shield band twice in a row without recovering raises
/// the alarm cue at most once: after any low-shield look the alarm is
/// active, so a second look with the shield still low starts nothing.
pub proof fn lemma_alarm_idempotent(alarm0: bool, shield1: int, shield2: int)
    requires
        shield1 < ALARM_SHIELD,
        shield2 < ALARM_SHIELD,
    ensures
        !spec_alarm_started(spec_alarm_after(alarm0, shield1), shield2),
{
}

/// The whole state of one gameplay session. All subsystems read and write
/// this one record; a fresh session starts from `GameSession::new()`.
#[derive(Debug)]
pub struct GameSession {
    /// The sun at the centre of the orbit.
    pub sun: Sun,
    /// The player's orbital position.
    pub player: ItemPosition,
    /// The smoothed control signal.
    pub input_delta: PlayerInputAngle,
    /// The power resource.
    pub power: PlayerPower,
    /// The shield resource.
    pub shield: PlayerShield,
    /// Whether the low-shield alarm cue is currently active.
    pub alarm: bool,
    /// The score and multiplier.
    pub score: Score,
    /// The active nova phase.
    pub phase: Nova,
    /// The countdown driving the nova phase cycle.
    pub nova_timer: NovaTimer,
    /// Countdown until the next obstacle burst, in milliseconds.
    pub spawn_timer_ms: i64,
    /// The transient obstacles.
    pub obstacles: ObstacleArena,
    /// The barrier hazards of the current nova cycle, if any.
    pub barriers: Vec<Barrier>,
    /// Session time elapsed so far, in milliseconds.
    pub elapsed_ms: i64,
    /// The terminal state: `Some` once the session has ended.
    pub over: Option<DeathReason>,
}

impl GameSession {
    /// The session invariant, preserved by every tick.
    pub open spec fn wf(self) -> bool {
        &&& self.sun.wf()
        &&& self.player.wf()
        &&& self.input_delta.wf()
        &&& self.power.wf()
        &&& self.shield.wf()
        &&& self.score.wf()
        &&& self.nova_timer.wf(self.phase)
        &&& 0 <= self.spawn_timer_ms < SPAWN_DELAY_MAX_MS
        &&& self.obstacles.wf()
        &&& forall|k: int| 0 <= k < self.barriers@.len() ==> (#[trigger] self.barriers@[k]).wf()
        &&& 0 <= self.elapsed_ms <= ELAPSED_MAX_MS
    }

    /// A fresh session at its defaults: the nominal sun, the player at
    /// radius 250 with full shield and no power, a 1x multiplier, the idle
    /// phase with a full timer, no obstacles and no barriers.
    pub fn new() -> (s: GameSession)
        ensures
            s.wf(),
            s.sun.radius == crate::consts::SUN_STARTING_RADIUS,
            s.player.radius == 250_000,
            s.player.theta == 0,
            s.player.speed == crate::consts::PLAYER_STARTING_SPEED,
            s.input_delta.0 == 0,
            s.power.0 == 0,
            s.shield.0 == RESOURCE_MAX,
            !s.alarm,
            s.score.score == 0,
            s.score.multiplier == 1,
            s.phase == Nova::Idle,
            s.nova_timer.remaining_ms == crate::supernova::spec_phase_duration(Nova::Idle),
            s.spawn_timer_ms == 0,
            s.obstacles.slots@.len() == 0,
            s.barriers@.len() == 0,
            s.elapsed_ms == 0,
            s.over is None,
    {
        GameSession {
            sun: Sun::default(),
            player: ItemPosition::default(),
            input_delta: PlayerInputAngle::default(),
            power: PlayerPower::default(),
            shield: PlayerShield::default(),
            alarm: false,
            score: Score::default(),
            phase: Nova::Idle,
            nova_timer: NovaTimer::fresh(Nova::Idle),
            spawn_timer_ms: 0,
            obstacles: ObstacleArena::new(),
            barriers: Vec::new(),
            elapsed_ms: 0,
            over: None,
        }
    }

    /// Watches the shield each tick: strictly below the lethal threshold
    /// the session ends at once; otherwise the low-shield alarm cue is
    /// started or stopped exactly on the band crossings, so holding the
    /// shield low never raises a second cue.
    pub fn shield_monitor(&mut self, events: &mut Vec<GameEvent>)
        requires
            old(self).wf(),
        ensures
            final(self).wf(),
            final(self).sun == old(self).sun,
            final(self).player == old(self).player,
            final(self).input_delta == old(self).input_delta,
            final(self).power == old(self).power,
            final(self).shield == old(self).shield,
            final(self).score == old(self).score,
            final(self).phase == old(self).phase,
            final(self).nova_timer == old(self).nova_timer,
            final(self).spawn_timer_ms == old(self).spawn_timer_ms,
            final(self).obstacles.slots@ == old(self).obstacles.slots@,
            final(self).barriers@ == old(self).barriers@,
            final(self).elapsed_ms == old(self).elapsed_ms,
            old(self).over is Some ==> final(self).over == old(self).over && final(self).alarm
                == old(self).alarm && final(events)@ == old(events)@,
            old(self).over is None && old(self).shield.0 < LETHAL_SHIELD ==> final(self).over
                == Some(DeathReason::BurnedUp) && final(self).alarm == old(self).alarm
                && final(events)@ == old(events)@.push(GameEvent::GameOver(DeathReason::BurnedUp)),
            old(self).over is None && old(self).shield.0 >= LETHAL_SHIELD ==> {
                &&& final(self).over is None
                &&& final(self).alarm == spec_alarm_after(old(self).alarm, old(self).shield.0 as int)
                &&& final(events)@ == (if spec_alarm_started(
                    old(self).alarm,
                    old(self).shield.0 as int,
                ) {
                    old(events)@.push(GameEvent::AlarmStarted)
                } else if spec_alarm_stopped(old(self).alarm, old(self).shield.0 as int) {
                    old(events)@.push(GameEvent::AlarmStopped)
                } else {
                    old(events)@
                })
            },
    {
        if self.over.is_some() {
            return ;
        }
        if self.shield.0 < LETHAL_SHIELD {
            self.over = Some(DeathReason::BurnedUp);
            events.push(GameEvent::GameOver(DeathReason::BurnedUp));
            return ;
        }
        if self.shield.0 < ALARM_SHIELD {
            if !self.alarm {
                self.alarm = true;
                events.push(GameEvent::AlarmStarted);
            }
        } else {
            if self.alarm {
                self.alarm = false;
                events.push(GameEvent::AlarmStopped);
            }
        }
    }

    /// The collision-relevant slice of this session.
    pub open spec fn spec_resolve_state(self, events: Seq<GameEvent>) -> ResolveState {
        ResolveState {
            slots: self.obstacles.slots@,
            power: self.power.0 as int,
            shield: self.shield.0 as int,
            over: self.over,
            events: events,
        }
    }

    /// Resolves this tick's contact reports in the order the physics layer
    /// gave them: each contact with a live obstacle costs power and shield
    /// and destroys the obstacle (a slot already freed is skipped, so the
    /// expiry sweep and the collision path never double-destroy); a barrier
    /// contact ends the session while the nova is underway and is inert in
    /// every other phase.
    pub fn resolve_collisions(&mut self, contacts: &Vec<Contact>, events: &mut Vec<GameEvent>)
        requires
            old(self).wf(),
        ensures
            final(self).wf(),
            final(self).sun == old(self).sun,
            final(self).player == old(self).player,
            final(self).input_delta == old(self).input_delta,
            final(self).alarm == old(self).alarm,
            final(self).score == old(self).score,
            final(self).phase == old(self).phase,
            final(self).nova_timer == old(self).nova_timer,
            final(self).spawn_timer_ms == old(self).spawn_timer_ms,
            final(self).barriers@ == old(self).barriers@,
            final(self).elapsed_ms == old(self).elapsed_ms,
            final(self).spec_resolve_state(final(events)@) == spec_resolve(
                old(self).spec_resolve_state(old(events)@),
                contacts@,
                old(self).phase is During,
                old(self).barriers@.len() as int,
            ),
    {
        let ghost during_spec = old(self).phase is During;
        let ghost nb_spec = old(self).barriers@.len() as int;
        let during = self.phase == Nova::During;
        let nb = self.barriers.len();
        let n = contacts.len();
        proof {
            assert(contacts@.skip(0) =~= contacts@);
        }
        let mut i: usize = 0;
        while i < n
            invariant
                self.wf(),
                n == contacts@.len(),
                i <= n,
                during == during_spec,
                nb == nb_spec,
                self.sun == old(self).sun,
                self.player == old(self).player,
                self.input_delta == old(self).input_delta,
                self.alarm == old(self).alarm,
                self.score == old(self).score,
                self.phase == old(self).phase,
                self.nova_timer == old(self).nova_timer,
                self.spawn_timer_ms == old(self).spawn_timer_ms,
                self.barriers@ == old(self).barriers@,
                self.elapsed_ms == old(self).elapsed_ms,
                spec_resolve(
                    old(self).spec_resolve_state(old(events)@),
                    contacts@,
                    during_spec,
                    nb_spec,
                ) == spec_resolve(
                    self.spec_resolve_state(events@),
                    contacts@.skip(i as int),
                    during_spec,
                    nb_spec,
                ),
            decreases n - i,
        {
            let ghost st_pre = self.spec_resolve_state(events@);
            let ghost rest = contacts@.skip(i as int);
            let c = contacts[i];
            proof {
                assert(rest.len() > 0);
                assert(rest.first() == contacts@[i as int]);
                assert(rest.drop_first() =~= contacts@.skip(i as int + 1));
            }
            match c {
                Contact::Obstacle(id) => {
                    let live = self.obstacles.get(id).is_some();
                    if live {
                        let ghost slots_pre = self.obstacles.slots@;
                        self.obstacles.remove(id);
                        proof {
                            assert(self.obstacles.slots@ =~= slots_pre.update(id as int, None));
                        }
                        self.power.0 = clamp_i64(
                            self.power.0 - POWER_COST_ON_OBSTACLE_HIT,
                            0,
                            RESOURCE_MAX,
                        );
                        self.shield.0 = clamp_i64(
                            self.shield.0 - SHIELD_COST_ON_OBSTACLE_HIT,
                            0,
                            RESOURCE_MAX,
                        );
                        events.push(GameEvent::ObstacleHit);
                    }
                    proof {
                        assert(self.spec_resolve_state(events@) =~= spec_resolve_one(
                            st_pre,
                            c,
                            during_spec,
                            nb_spec,
                        ));
                    }
                },
                Contact::Barrier(id) => {
                    if during && id < nb && self.over.is_none() {
                        self.over = Some(DeathReason::BlackHole);
                        events.push(GameEvent::GameOver(DeathReason::BlackHole));
                    }
                    proof {
                        assert(self.spec_resolve_state(events@) =~= spec_resolve_one(
                            st_pre,
                            c,
                            during_spec,
                            nb_spec,
                        ));
                    }
                },
            }
            i = i + 1;
        }
        proof {
            assert(contacts@.skip(n as int) =~= Seq::<Contact>::empty());
        }
    }
}

/// What one tick does to the spawn timer: untouched outside the idle phase,
/// counted down toward zero while armed, re-armed to a random delay in its
/// window once it expires.
pub open spec fn spec_spawn_timer_step(phase: Nova, pre_timer: int, post_timer: int, dt: int) -> bool {
    if !(phase is Idle) {
        post_timer == pre_timer
    } else if pre_timer > 0 {
        post_timer == (if pre_timer - dt > 0 {
            pre_timer - dt
        } else {
            0
        })
    } else {
        SPAWN_DELAY_MIN_MS <= post_timer < SPAWN_DELAY_MAX_MS
    }
}

/// What one tick does to the obstacle slots after the sweep: outside the
/// idle phase, or while the spawn timer is still armed, nothing; on expiry a
/// burst of one to three obstacles lands in free or new slots, each placed
/// ahead of the player and expiring one revolution later, and every slot
/// already live is untouched.
pub open spec fn spec_spawn_slots_step(
    phase: Nova,
    pre_timer: int,
    swept: Seq<Option<Obstacle>>,
    post: Seq<Option<Obstacle>>,
    player_theta: int,
    elapsed: int,
    speed: int,
) -> bool {
    if phase is Idle && pre_timer <= 0 {
        &&& post.len() >= swept.len()
        &&& forall|j: int|
            0 <= j < swept.len() && (#[trigger] swept[j]) is Some ==> post[j] == swept[j]
        &&& forall|j: int|
            0 <= j < post.len() && (j >= swept.len() || post[j] != swept[j]) ==> ((
            #[trigger] post[j]) matches Some(ob) && spec_obstacle_ok(
                ob,
                player_theta,
                elapsed,
                speed,
            ))
        &&& SPAWN_COUNT_MIN <= spec_live_count(post) - spec_live_count(swept) <= SPAWN_COUNT_MAX
    } else {
        post == swept
    }
}

/// The whole per-tick relation between the session before and after one call
/// of `GameSession::tick` on a live session: the fixed update order is input
/// sampling, angular advance, radial advance, resource integration,
/// collision resolution, the shield monitor, the expiry sweep, the obstacle
/// spawner, the phase timer with its entry effects, and score integration.
/// A tick that ends the session (lethal shield, or a barrier mid-nova) stops
/// right after the step that ended it. Everything is exact except the
/// randomized spawns, which are pinned to their documented windows.
pub open spec fn spec_tick_rel(
    pre: GameSession,
    post: GameSession,
    engaged: bool,
    dt: int,
    contacts: Seq<Contact>,
    events: Seq<GameEvent>,
) -> bool {
    let theta1 = spec_advance_theta(
        pre.player.theta as int,
        pre.player.radius as int,
        pre.player.speed as int,
        dt,
    );
    let delta1 = spec_input_delta(pre.phase, pre.input_delta.0 as int, engaged, dt);
    let radius1 = spec_new_radius(pre.player.radius as int, delta1, dt);
    let power1 = spec_integrate_power(pre.power.0 as int, radius1, dt);
    let shield1 = spec_integrate_shield(pre.shield.0 as int, radius1, dt);
    let elapsed1 = pre.elapsed_ms + dt;
    let gated = pre.phase is Idle || pre.phase is During;
    let rs0 = ResolveState {
        slots: pre.obstacles.slots@,
        power: power1,
        shield: shield1,
        over: None,
        events: Seq::empty(),
    };
    let rs1 = if gated {
        spec_resolve(rs0, contacts, pre.phase is During, pre.barriers@.len() as int)
    } else {
        rs0
    };
    &&& post.sun == pre.sun
    &&& post.player.speed == pre.player.speed
    &&& post.player.theta == theta1
    &&& post.player.radius == radius1
    &&& post.input_delta.0 == delta1
    &&& post.elapsed_ms == elapsed1
    &&& if rs1.over is Some {
        // hit a barrier mid-nova: the tick ends after collision resolution
        &&& post.over == rs1.over
        &&& post.alarm == pre.alarm
        &&& post.power.0 == rs1.power
        &&& post.shield.0 == rs1.shield
        &&& post.obstacles.slots@ == rs1.slots
        &&& post.barriers@ == pre.barriers@
        &&& post.score == pre.score
        &&& post.phase == pre.phase
        &&& post.nova_timer == pre.nova_timer
        &&& post.spawn_timer_ms == pre.spawn_timer_ms
        &&& events == rs1.events
    } else if rs1.shield < LETHAL_SHIELD {
        // burned up: the tick ends at the shield monitor
        &&& post.over == Some(DeathReason::BurnedUp)
        &&& post.alarm == pre.alarm
        &&& post.power.0 == rs1.power
        &&& post.shield.0 == rs1.shield
        &&& post.obstacles.slots@ == rs1.slots
        &&& post.barriers@ == pre.barriers@
        &&& post.score == pre.score
        &&& post.phase == pre.phase
        &&& post.nova_timer == pre.nova_timer
        &&& post.spawn_timer_ms == pre.spawn_timer_ms
        &&& events == rs1.events.push(GameEvent::GameOver(DeathReason::BurnedUp))
    } else {
        let alarm2 = spec_alarm_after(pre.alarm, rs1.shield);
        let ev2 = if spec_alarm_started(pre.alarm, rs1.shield) {
            rs1.events.push(GameEvent::AlarmStarted)
        } else if spec_alarm_stopped(pre.alarm, rs1.shield) {
            rs1.events.push(GameEvent::AlarmStopped)
        } else {
            rs1.events
        };
        let swept = spec_sweep(rs1.slots, elapsed1);
        let transitioned = dt >= pre.nova_timer.remaining_ms;
        let phase2 = if transitioned {
            pre.phase.spec_next()
        } else {
            pre.phase
        };
        let stepped = phase2 is Idle && rs1.power >= MULTIPLIER_POWER_THRESHOLD;
        let power3 = if stepped {
            0int
        } else {
            rs1.power
        };
        let mult2: int = if stepped {
            pre.score.multiplier + 1
        } else {
            pre.score.multiplier as int
        };
        let inc = if spec_score_accrues(phase2) {
            spec_score_increment(power3, mult2, dt)
        } else {
            0int
        };
        let ev3 = if transitioned {
            ev2.push(GameEvent::PhaseEntered(phase2))
        } else {
            ev2
        };
        &&& post.over is None
        &&& post.alarm == alarm2
        &&& post.shield.0 == rs1.shield
        &&& post.power.0 == power3
        &&& post.score.multiplier == mult2
        &&& post.score.score == spec_min(pre.score.score + inc, SCORE_CAP as int)
        &&& post.phase == phase2
        &&& post.nova_timer.remaining_ms == (if transitioned {
            spec_phase_duration(phase2)
        } else {
            pre.nova_timer.remaining_ms - dt
        })
        &&& spec_spawn_timer_step(pre.phase, pre.spawn_timer_ms as int, post.spawn_timer_ms as int, dt)
        &&& (if transitioned && phase2 is During {
            // entering the nova: obstacles cleared, a fresh barrier field
            &&& post.obstacles.slots@.len() == 0
            &&& post.barriers@.len() == BARRIER_COUNT
            &&& forall|k: int|
                0 <= k < post.barriers@.len() ==> spec_barrier_ok(
                    #[trigger] post.barriers@[k],
                    theta1,
                    k,
                )
        } else {
            &&& spec_spawn_slots_step(
                pre.phase,
                pre.spawn_timer_ms as int,
                swept,
                post.obstacles.slots@,
                theta1,
                elapsed1,
                pre.player.speed as int,
            )
            &&& (if transitioned && phase2 is Idle {
                // leaving the nova cycle: barriers despawn
                post.barriers@.len() == 0
            } else {
                post.barriers@ == pre.barriers@
            })
        })
        &&& events == (if stepped {
            ev3.push(GameEvent::MultiplierUp(mult2 as u32))
        } else {
            ev3
        })
    }
}

/// Across one tick the phase either stays put or advances to the next one
/// in the cycle, whatever the frame time: no phase is ever skipped or
/// revisited out of order.
pub proof fn lemma_tick_keeps_phase_order(
    pre: GameSession,
    post: GameSession,
    engaged: bool,
    dt: int,
    contacts: Seq<Contact>,
    events: Seq<GameEvent>,
)
    requires
        spec_tick_rel(pre, post, engaged, dt, contacts, events),
    ensures
        post.phase == pre.phase || post.phase == pre.phase.spec_next(),
{
}

/// Across one tick of a live session the score never falls and the
/// multiplier never decreases.
pub proof fn lemma_tick_score_monotone(
    pre: GameSession,
    post: GameSession,
    engaged: bool,
    dt: int,
    contacts: Seq<Contact>,
    events: Seq<GameEvent>,
)
    requires
        pre.wf(),
        0 <= dt,
        spec_tick_rel(pre, post, engaged, dt, contacts, events),
    ensures
        post.score.score >= pre.score.score,
        post.score.multiplier >= pre.score.multiplier,
{
    let a = dt * crate::consts::SCORE_INCREASE_RATE;
    assert forall|power: int, mult: int|
        0 <= mult implies #[trigger] spec_score_increment(power, mult, dt) >= 0 by {
        let frac = spec_clamp(power / 100, 0, 1000);
        crate::num::lemma_mul_nonneg_bounds(a, a, frac, 1000);
        vstd::arithmetic::div_mod::lemma_div_pos_is_pos(a * frac, 1000);
        crate::num::lemma_mul_nonneg_bounds(a * frac / 1000, a * frac / 1000, mult, mult);
    }
}

impl GameSession {
    /// One simulation tick on a live session: runs every subsystem once in
    /// the fixed order over the given time step, engage input and contact
    /// reports, and returns the discrete events the tick emitted. A session
    /// that is already over does nothing. The session invariant (radius,
    /// power and shield clamped into their bands among it) holds
    /// unconditionally afterwards.
    #[verifier::rlimit(100)]
    pub fn tick(&mut self, engaged: bool, dt_ms: i64, contacts: &Vec<Contact>) -> (events: Vec<
        GameEvent,
    >)
        requires
            old(self).wf(),
            0 <= dt_ms <= DT_MAX_MS,
            old(self).elapsed_ms + dt_ms <= ELAPSED_MAX_MS,
            old(self).score.multiplier < u32::MAX,
            old(self).obstacles.slots@.len() + 4 < usize::MAX,
        ensures
            final(self).wf(),
            old(self).over is Some ==> *final(self) == *old(self) && events@ == Seq::<
                GameEvent,
            >::empty(),
            old(self).over is None ==> spec_tick_rel(
                *old(self),
                *final(self),
                engaged,
                dt_ms as int,
                contacts@,
                events@,
            ),
    {
        let mut events: Vec<GameEvent> = Vec::new();
        if self.over.is_some() {
            return events;
        }
        // input sampling and motion
        update_player_theta(&mut self.player, dt_ms);
        control_player(&mut self.input_delta, &mut self.player, self.phase, engaged, dt_ms);
        // resource integration
        power_generation(&mut self.power, self.player.radius, dt_ms);
        shield_decay(&mut self.shield, self.player.radius, dt_ms);
        self.elapsed_ms = self.elapsed_ms + dt_ms;
        // collision resolution
        if self.phase == Nova::Idle || self.phase == Nova::During {
            proof {
                lemma_resolve_keeps_len(
                    self.spec_resolve_state(events@),
                    contacts@,
                    self.phase is During,
                    self.barriers@.len() as int,
                );
            }
            self.resolve_collisions(contacts, &mut events);
        }
        if self.over.is_some() {
            return events;
        }
        // shield thresholds
        self.shield_monitor(&mut events);
        if self.over.is_some() {
            return events;
        }
        // obstacle lifetime sweep
        self.obstacles.sweep_expired(self.elapsed_ms);
        // obstacle spawner
        if self.phase == Nova::Idle {
            periodically_spawn_obstacles(
                &mut self.obstacles,
                &mut self.spawn_timer_ms,
                &self.player,
                self.elapsed_ms,
                dt_ms,
            );
        }
        // phase timer and phase-entry effects
        let transitioned = tick_nova_timer(&mut self.phase, &mut self.nova_timer, dt_ms);
        if transitioned {
            events.push(GameEvent::PhaseEntered(self.phase));
            match self.phase {
                Nova::During => {
                    self.obstacles.clear();
                    self.barriers = spawn_barriers(self.player.theta);
                },
                Nova::Idle => {
                    self.barriers.clear();
                },
                _ => {
                },
            }
        }
        // score integration
        if self.phase == Nova::Idle {
            let stepped = increase_multiplier(&mut self.score, &mut self.power);
            if stepped {
                events.push(GameEvent::MultiplierUp(self.score.multiplier));
            }
        }
        increase_score(&mut self.score, &self.power, self.phase, dt_ms);
        events
    }
}

} // verus!
