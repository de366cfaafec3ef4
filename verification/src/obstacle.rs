//! Obstacles: transient hazards spawned ahead of the player's orbit, the
//! arena that owns them, the expiry sweep, and the lethal barrier hazards of
//! the nova cycle.
use vstd::prelude::*;

use crate::consts::{
    BARRIER_COUNT, BARRIER_RADIUS_MAX, BARRIER_SCALE_MAX, BARRIER_SCALE_MIN, BARRIER_STEP_MAX,
    BARRIER_STEP_MIN, DT_MAX_MS, ELAPSED_MAX_MS, OBSTACLE_RADIUS_MAX, OBSTACLE_RADIUS_MIN,
    OBSTACLE_SPEED_MAX, OBSTACLE_SPEED_MIN, PI_MICRO, SPAWN_BASE_RADIUS_MAX, SPAWN_BASE_RADIUS_MIN,
    SPAWN_COUNT_MAX, SPAWN_COUNT_MIN, SPAWN_DELAY_MAX_MS, SPAWN_DELAY_MIN_MS,
    SPAWN_RADIUS_JITTER_MAX, SPAWN_RADIUS_JITTER_MIN, SPAWN_THETA_JITTER, TAU_MICRO,
};
use crate::num::lemma_mul_nonneg_bounds;
use crate::player::ItemPosition;
use crate::rng::rand_range;

verus! {

/// Why a session ended.
#[derive(Clone, Copy, Debug, PartialEq, Eq, Structural)]
pub enum DeathReason {
    /// The shield ran out while skimming the sun.
    BurnedUp,
    /// The player hit a barrier while travelling between stars.
    BlackHole,
}

impl DeathReason {
    /// The human-readable message shown on the game-over screen.
    pub fn message(&self) -> (m: String)
        ensures
            *self is BurnedUp ==> m@ == "You burned up in the sun."@,
            *self is BlackHole ==> m@ == "You flew into a black hole."@,
    {
        match self {
            DeathReason::BurnedUp => String::from_str("You burned up in the sun."),
            DeathReason::BlackHole => String::from_str("You flew into a black hole."),
        }
    }
}

impl Default for DeathReason {
    /// Burning up is the default reason; a session resets to it on start.
    fn default() -> (d: Self)
        ensures
            d == DeathReason::BurnedUp,
    {
        DeathReason::BurnedUp
    }
}

/// A transient obstacle on the player's orbital path.
#[derive(Clone, Copy, Debug, PartialEq, Eq, Structural)]
pub struct Obstacle {
    /// Distance from the sun's edge, in milli-units; may be negative
    /// (visually inside the sun's corona).
    pub radius: i64,
    /// Orbital angle, in micro-radians, in [0, TAU_MICRO).
    pub theta: i64,
    /// Radial drift speed handed to the physics layer, in milli-units per
    /// second; always inward.
    pub speed: i64,
    /// Session time at which the expiry sweep removes the obstacle even if
    /// it is never hit: one player revolution after it spawned.
    pub destroy_at_ms: i64,
}

impl Obstacle {
    /// Bounds every spawned obstacle satisfies.
    pub open spec fn wf(self) -> bool {
        &&& OBSTACLE_RADIUS_MIN <= self.radius < OBSTACLE_RADIUS_MAX
        &&& 0 <= self.theta < TAU_MICRO
        &&& OBSTACLE_SPEED_MIN <= self.speed < OBSTACLE_SPEED_MAX
        &&& 0 <= self.destroy_at_ms <= ELAPSED_MAX_MS + TAU_MICRO
    }
}

/// How long one full player revolution takes at the given angular speed,
/// in milliseconds.
pub open spec fn spec_revolution_ms(speed: int) -> int {
    TAU_MICRO as int / speed
}

/// One full player revolution at the given angular speed, in milliseconds.
pub fn revolution_ms(speed: i64) -> (r: i64)
    requires
        1 <= speed,
    ensures
        r == spec_revolution_ms(speed as int),
        0 <= r <= TAU_MICRO,
{
    proof {
        vstd::arithmetic::div_mod::lemma_div_nonincreasing(TAU_MICRO as int, speed as int);
        vstd::arithmetic::div_mod::lemma_div_pos_is_pos(TAU_MICRO as int, speed as int);
    }
    TAU_MICRO / speed
}

/// The spawn angle of an obstacle: opposite the player (ahead on its path)
/// plus a small jitter, wrapped into one turn.
pub open spec fn spec_spawn_theta(player_theta: int, jitter: int) -> int {
    (player_theta + PI_MICRO + jitter) % (TAU_MICRO as int)
}

/// Everything the spawner guarantees of a freshly spawned obstacle, whatever
/// the random draws were: in bounds, placed ahead of the player's orbit, and
/// expiring exactly one player revolution after it spawned.
pub open spec fn spec_obstacle_ok(ob: Obstacle, player_theta: int, elapsed_ms: int, speed: int) -> bool {
    &&& ob.wf()
    &&& ob.destroy_at_ms == elapsed_ms + spec_revolution_ms(speed)
    &&& exists|j: int|
        -SPAWN_THETA_JITTER <= j < SPAWN_THETA_JITTER && ob.theta == #[trigger] spec_spawn_theta(
            player_theta,
            j,
        )
}

/// The number of live obstacles in a sequence of slots.
pub open spec fn spec_live_count(s: Seq<Option<Obstacle>>) -> int
    decreases s.len(),
{
    if s.len() == 0 {
        0
    } else {
        spec_live_count(s.drop_last()) + (if s.last() is Some {
            1int
        } else {
            0int
        })
    }
}

/// Updating one slot changes the live count exactly as the slot's occupancy
/// changes.
pub proof fn lemma_live_count_update(s: Seq<Option<Obstacle>>, i: int, v: Option<Obstacle>)
    requires
        0 <= i < s.len(),
    ensures
        spec_live_count(s.update(i, v)) == spec_live_count(s) + (if v is Some {
            1int
        } else {
            0int
        }) - (if s[i] is Some {
            1int
        } else {
            0int
        }),
    decreases s.len(),
{
    if i == s.len() - 1 {
        assert(s.update(i, v).drop_last() =~= s.drop_last());
    } else {
        assert(s.update(i, v).drop_last() =~= s.drop_last().update(i, v));
        lemma_live_count_update(s.drop_last(), i, v);
    }
}

/// Appending a slot adds its occupancy to the live count.
pub proof fn lemma_live_count_push(s: Seq<Option<Obstacle>>, v: Option<Obstacle>)
    ensures
        spec_live_count(s.push(v)) == spec_live_count(s) + (if v is Some {
            1int
        } else {
            0int
        }),
{
    assert(s.push(v).drop_last() =~= s);
}

/// The arena owning all transient obstacles: a vector of stable slots,
/// addressed by index; a removed obstacle leaves an empty slot behind so
/// that identifiers stay stable.
#[derive(Debug)]
pub struct ObstacleArena {
    /// The slots; `None` marks a free slot.
    pub slots: Vec<Option<Obstacle>>,
}

/// An arena slot is in order when it is free or holds an obstacle in bounds.
pub open spec fn spec_slot_ok(slot: Option<Obstacle>) -> bool {
    slot matches Some(ob) ==> ob.wf()
}

impl ObstacleArena {
    /// Every live obstacle in the arena is in bounds.
    pub open spec fn wf(self) -> bool {
        forall|j: int| 0 <= j < self.slots@.len() ==> spec_slot_ok(#[trigger] self.slots@[j])
    }

    /// A fresh, empty arena.
    pub fn new() -> (a: ObstacleArena)
        ensures
            a.slots@.len() == 0,
            a.wf(),
    {
        ObstacleArena { slots: Vec::new() }
    }

    /// The obstacle in the given slot, if the slot exists and is occupied.
    pub fn get(&self, id: usize) -> (r: Option<Obstacle>)
        ensures
            r == (if id < self.slots@.len() {
                self.slots@[id as int]
            } else {
                None::<Obstacle>
            }),
    {
        if id < self.slots.len() {
            self.slots[id]
        } else {
            None
        }
    }

    /// The number of slots (live or free) the arena has ever grown to.
    pub fn capacity(&self) -> (n: usize)
        ensures
            n == self.slots@.len(),
    {
        self.slots.len()
    }

    /// The number of live obstacles.
    pub fn live_count(&self) -> (n: usize)
        ensures
            n == spec_live_count(self.slots@),
    {
        let len = self.slots.len();
        let mut n: usize = 0;
        let mut i: usize = 0;
        while i < len
            invariant
                len == self.slots@.len(),
                i <= len,
                n <= i,
                n == spec_live_count(self.slots@.take(i as int)),
            decreases len - i,
        {
            proof {
                assert(self.slots@.take(i + 1int).drop_last() =~= self.slots@.take(i as int));
                assert(self.slots@.take(i + 1int).last() == self.slots@[i as int]);
            }
            if self.slots[i].is_some() {
                n = n + 1;
            }
            i = i + 1;
        }
        proof {
            assert(self.slots@.take(len as int) =~= self.slots@);
        }
        n
    }

    /// Stores an obstacle in the first free slot, or in a new slot at the
    /// end, and returns its stable identifier.
    pub fn insert(&mut self, ob: Obstacle) -> (id: usize)
        requires
            old(self).wf(),
            ob.wf(),
            old(self).slots@.len() < usize::MAX,
        ensures
            final(self).wf(),
            id < final(self).slots@.len(),
            final(self).slots@[id as int] == Some(ob),
            forall|j: int|
                0 <= j < old(self).slots@.len() && j != id ==> final(self).slots@[j] == old(
                    self,
                ).slots@[j],
            final(self).slots@.len() == old(self).slots@.len() || (id == old(self).slots@.len()
                && final(self).slots@.len() == old(self).slots@.len() + 1),
            id < old(self).slots@.len() ==> old(self).slots@[id as int] is None,
            spec_live_count(final(self).slots@) == spec_live_count(old(self).slots@) + 1,
    {
        let len = self.slots.len();
        let mut i: usize = 0;
        while i < len
            invariant
                len == self.slots@.len(),
                i <= len,
                self.slots@ == old(self).slots@,
                old(self).wf(),
                ob.wf(),
                spec_live_count(old(self).slots@) == spec_live_count(self.slots@),
                forall|j: int| 0 <= j < i ==> (#[trigger] self.slots@[j]) is Some,
            decreases len - i,
        {
            if self.slots[i].is_none() {
                proof {
                    lemma_live_count_update(self.slots@, i as int, Some(ob));
                }
                let slot = &mut self.slots[i];
                *slot = Some(ob);
                proof {
                    assert(self.slots@ =~= old(self).slots@.update(i as int, Some(ob)));
                    assert forall|j: int|
                        0 <= j < self.slots@.len() implies spec_slot_ok(
                        #[trigger] self.slots@[j],
                    ) by {
                        if j != i {
                            assert(self.slots@[j] == old(self).slots@[j]);
                        } else {
                            assert(self.slots@[j] == Some(ob));
                        }
                    }
                }
                return i;
            }
            i = i + 1;
        }
        proof {
            lemma_live_count_push(self.slots@, Some(ob));
        }
        self.slots.push(Some(ob));
        len
    }

    /// Frees the given slot. Removing a slot that is already free, or one
    /// that never existed, is a no-op rather than an error, so the collision
    /// path and the expiry sweep can never double-destroy.
    pub fn remove(&mut self, id: usize)
        requires
            old(self).wf(),
        ensures
            final(self).wf(),
            final(self).slots@.len() == old(self).slots@.len(),
            forall|j: int|
                0 <= j < old(self).slots@.len() && j != id ==> final(self).slots@[j] == old(
                    self,
                ).slots@[j],
            id < old(self).slots@.len() ==> final(self).slots@[id as int] is None,
    {
        if id < self.slots.len() {
            let slot = &mut self.slots[id];
            *slot = None;
        }
    }

    /// Empties the arena wholesale (entering the mid-nova phase clears all
    /// ordinary obstacles).
    pub fn clear(&mut self)
        ensures
            final(self).slots@.len() == 0,
            final(self).wf(),
    {
        self.slots.clear();
    }
}

/// What the expiry sweep leaves in one slot: an obstacle whose destroy time
/// has been reached is removed, everything else is untouched.
pub open spec fn spec_sweep_slot(slot: Option<Obstacle>, elapsed_ms: int) -> Option<Obstacle> {
    match slot {
        Some(ob) => if ob.destroy_at_ms <= elapsed_ms {
            None
        } else {
            slot
        },
        None => None,
    }
}

/// What the expiry sweep leaves of a whole arena.
pub open spec fn spec_sweep(s: Seq<Option<Obstacle>>, elapsed_ms: int) -> Seq<Option<Obstacle>> {
    Seq::new(s.len(), |j: int| spec_sweep_slot(s[j], elapsed_ms))
}

impl ObstacleArena {
    /// The periodic expiry sweep: removes every obstacle whose destroy time
    /// has been reached, independent of the collision path; slots already
    /// freed stay free.
    pub fn sweep_expired(&mut self, elapsed_ms: i64)
        requires
            old(self).wf(),
        ensures
            final(self).wf(),
            final(self).slots@.len() == old(self).slots@.len(),
            forall|j: int|
                0 <= j < old(self).slots@.len() ==> final(self).slots@[j] == spec_sweep_slot(
                    old(self).slots@[j],
                    elapsed_ms as int,
                ),
            final(self).slots@ == spec_sweep(old(self).slots@, elapsed_ms as int),
    {
        let len = self.slots.len();
        let mut i: usize = 0;
        while i < len
            invariant
                len == self.slots@.len(),
                i <= len,
                forall|j: int|
                    0 <= j < i ==> self.slots@[j] == spec_sweep_slot(
                        old(self).slots@[j],
                        elapsed_ms as int,
                    ),
                forall|j: int| i <= j < len ==> self.slots@[j] == old(self).slots@[j],
            decreases len - i,
        {
            let expired = match self.slots[i] {
                Some(ob) => ob.destroy_at_ms <= elapsed_ms,
                None => false,
            };
            if expired {
                let slot = &mut self.slots[i];
                *slot = None;
            }
            i = i + 1;
        }
        proof {
            assert(self.slots@ =~= spec_sweep(old(self).slots@, elapsed_ms as int));
        }
    }
}

/// An obstacle whose destroy time has been reached is removed by the sweep
/// even if it was never hit; a slot already freed (by a collision, or by an
/// earlier sweep) stays free, so the two removal paths never conflict.
pub proof fn lemma_sweep_removes_expired(s: Seq<Option<Obstacle>>, elapsed_ms: int, j: int)
    requires
        0 <= j < s.len(),
    ensures
        (s[j] matches Some(ob) && ob.destroy_at_ms <= elapsed_ms) ==> spec_sweep(s, elapsed_ms)[j]
            is None,
        s[j] is None ==> spec_sweep(s, elapsed_ms)[j] is None,
{
}

/// A lethal barrier hazard spawned once per nova cycle, only dangerous while
/// the nova is underway.
#[derive(Clone, Copy, Debug, PartialEq, Eq, Structural)]
pub struct Barrier {
    /// Orbital angle, in micro-radians, in [0, TAU_MICRO).
    pub theta: i64,
    /// Distance from the sun's edge, in milli-units.
    pub radius: i64,
    /// Visual scale, in milli-units.
    pub scale: i64,
}

impl Barrier {
    /// Bounds every spawned barrier satisfies.
    pub open spec fn wf(self) -> bool {
        &&& 0 <= self.theta < TAU_MICRO
        &&& 0 <= self.radius < BARRIER_RADIUS_MAX
        &&& BARRIER_SCALE_MIN <= self.scale < BARRIER_SCALE_MAX
    }
}

impl Barrier {
    /// The scale a barrier is drawn at while the nova recedes: it shrinks
    /// with the fraction of the after phase remaining and vanishes at the
    /// phase's end, in milli-units.
    pub fn display_scale(&self, timer: &crate::supernova::NovaTimer) -> (s: i64)
        requires
            self.wf(),
            timer.wf(crate::supernova::Nova::After),
        ensures
            s == self.scale * (timer.remaining_ms * 1000 / crate::supernova::spec_phase_duration(
                crate::supernova::Nova::After,
            )) / 1000,
            0 <= s <= self.scale,
    {
        let frac = timer.fraction_remaining(crate::supernova::Nova::After);
        proof {
            lemma_mul_nonneg_bounds(self.scale as int, BARRIER_SCALE_MAX as int, frac as int, 1000);
            lemma_mul_nonneg_bounds(self.scale as int, self.scale as int, frac as int, 1000);
            vstd::arithmetic::div_mod::lemma_div_pos_is_pos((self.scale * frac) as int, 1000);
            vstd::arithmetic::div_mod::lemma_div_is_ordered(
                (self.scale * frac) as int,
                (self.scale * 1000) as int,
                1000,
            );
            vstd::arithmetic::div_mod::lemma_div_multiples_vanish(self.scale as int, 1000);
        }
        self.scale * frac / 1000
    }
}

/// The angle of the barrier at the given rank: the player's angle advanced
/// by the rank (counted from 4) times a random step, wrapped into one turn.
pub open spec fn spec_barrier_theta(player_theta: int, rank: int, step: int) -> int {
    (player_theta + rank * step) % (TAU_MICRO as int)
}

/// Everything the barrier spawner guarantees of the barrier at index `k`,
/// whatever the random draws were.
pub open spec fn spec_barrier_ok(b: Barrier, player_theta: int, k: int) -> bool {
    &&& b.wf()
    &&& exists|s: int|
        BARRIER_STEP_MIN <= s < BARRIER_STEP_MAX && b.theta == #[trigger] spec_barrier_theta(
            player_theta,
            4 + k,
            s,
        )
}

/// Spawns the barrier field for one nova cycle: a chain of barriers strung
/// around the orbit ahead of the player, at random radii and scales.
pub fn spawn_barriers(player_theta: i64) -> (barriers: Vec<Barrier>)
    requires
        0 <= player_theta < TAU_MICRO,
    ensures
        barriers@.len() == BARRIER_COUNT,
        forall|k: int|
            0 <= k < BARRIER_COUNT ==> spec_barrier_ok(
                #[trigger] barriers@[k],
                player_theta as int,
                k,
            ),
{
    let mut barriers: Vec<Barrier> = Vec::new();
    let mut k: usize = 0;
    while k < BARRIER_COUNT
        invariant
            0 <= player_theta < TAU_MICRO,
            k <= BARRIER_COUNT,
            barriers@.len() == k,
            forall|j: int|
                0 <= j < k ==> spec_barrier_ok(#[trigger] barriers@[j], player_theta as int, j),
        decreases BARRIER_COUNT - k,
    {
        let scale = rand_range(BARRIER_SCALE_MIN, BARRIER_SCALE_MAX);
        let step = rand_range(BARRIER_STEP_MIN, BARRIER_STEP_MAX);
        let radius = rand_range(0, BARRIER_RADIUS_MAX);
        let rank: i64 = 4 + (k as i64);
        proof {
            lemma_mul_nonneg_bounds(
                rank as int,
                4 + BARRIER_COUNT as int,
                step as int,
                BARRIER_STEP_MAX as int,
            );
        }
        let theta = (player_theta + rank * step) % TAU_MICRO;
        let b = Barrier { theta, radius, scale };
        proof {
            assert(b.theta == spec_barrier_theta(player_theta as int, rank as int, step as int));
        }
        barriers.push(b);
        k = k + 1;
    }
    barriers
}

/// Counts the spawn timer down and, when it expires, re-arms it to a random
/// delay and spawns a burst of one to three obstacles ahead of the player's
/// orbit, each expiring one player revolution later. Returns how many
/// obstacles were spawned.
pub fn periodically_spawn_obstacles(
    arena: &mut ObstacleArena,
    spawn_timer_ms: &mut i64,
    player: &ItemPosition,
    elapsed_ms: i64,
    dt_ms: i64,
) -> (spawned: usize)
    requires
        old(arena).wf(),
        old(arena).slots@.len() + 4 < usize::MAX,
        player.wf(),
        0 <= *old(spawn_timer_ms) < SPAWN_DELAY_MAX_MS,
        0 <= dt_ms <= DT_MAX_MS,
        0 <= elapsed_ms <= ELAPSED_MAX_MS,
    ensures
        final(arena).wf(),
        0 <= *final(spawn_timer_ms) < SPAWN_DELAY_MAX_MS,
        *old(spawn_timer_ms) > 0 ==> spawned == 0 && final(arena).slots@ == old(arena).slots@
            && *final(spawn_timer_ms) == (if *old(spawn_timer_ms) - dt_ms > 0 {
            *old(spawn_timer_ms) - dt_ms
        } else {
            0
        }),
        *old(spawn_timer_ms) <= 0 ==> {
            &&& SPAWN_DELAY_MIN_MS <= *final(spawn_timer_ms) < SPAWN_DELAY_MAX_MS
            &&& SPAWN_COUNT_MIN <= spawned <= SPAWN_COUNT_MAX
            &&& final(arena).slots@.len() >= old(arena).slots@.len()
            &&& forall|j: int|
                0 <= j < old(arena).slots@.len() && (#[trigger] old(arena).slots@[j]) is Some
                    ==> final(arena).slots@[j] == old(arena).slots@[j]
            &&& forall|j: int|
                0 <= j < final(arena).slots@.len() && (j >= old(arena).slots@.len()
                    || final(arena).slots@[j] != old(arena).slots@[j]) ==> ((
                #[trigger] final(arena).slots@[j]) matches Some(ob) && spec_obstacle_ok(
                    ob,
                    player.theta as int,
                    elapsed_ms as int,
                    player.speed as int,
                ))
            &&& spec_live_count(final(arena).slots@) == spec_live_count(old(arena).slots@)
                + spawned
        },
{
    if *spawn_timer_ms > 0 {
        let next = *spawn_timer_ms - dt_ms;
        *spawn_timer_ms = if next > 0 {
            next
        } else {
            0
        };
        return 0;
    }
    *spawn_timer_ms = rand_range(SPAWN_DELAY_MIN_MS, SPAWN_DELAY_MAX_MS);
    let count = rand_range(SPAWN_COUNT_MIN, SPAWN_COUNT_MAX + 1);
    let base_radius = rand_range(SPAWN_BASE_RADIUS_MIN, SPAWN_BASE_RADIUS_MAX);
    let revolution = revolution_ms(player.speed);
    let destroy_at = elapsed_ms + revolution;
    let mut k: i64 = 0;
    while k < count
        invariant
            0 <= k <= count,
            SPAWN_COUNT_MIN <= count <= SPAWN_COUNT_MAX,
            arena.wf(),
            player.wf(),
            old(arena).slots@.len() + 4 < usize::MAX,
            0 <= elapsed_ms <= ELAPSED_MAX_MS,
            SPAWN_BASE_RADIUS_MIN <= base_radius < SPAWN_BASE_RADIUS_MAX,
            destroy_at == elapsed_ms + spec_revolution_ms(player.speed as int),
            0 <= revolution <= TAU_MICRO,
            arena.slots@.len() >= old(arena).slots@.len(),
            arena.slots@.len() <= old(arena).slots@.len() + k,
            forall|j: int|
                0 <= j < old(arena).slots@.len() && (#[trigger] old(arena).slots@[j]) is Some
                    ==> arena.slots@[j] == old(arena).slots@[j],
            forall|j: int|
                0 <= j < arena.slots@.len() && (j >= old(arena).slots@.len() || arena.slots@[j]
                    != old(arena).slots@[j]) ==> ((#[trigger] arena.slots@[j]) matches Some(ob)
                    && spec_obstacle_ok(
                    ob,
                    player.theta as int,
                    elapsed_ms as int,
                    player.speed as int,
                )),
            spec_live_count(arena.slots@) == spec_live_count(old(arena).slots@) + k,
        decreases count - k,
    {
        let jr = rand_range(SPAWN_RADIUS_JITTER_MIN, SPAWN_RADIUS_JITTER_MAX);
        let jt = rand_range(-SPAWN_THETA_JITTER, SPAWN_THETA_JITTER);
        let sp = rand_range(OBSTACLE_SPEED_MIN, OBSTACLE_SPEED_MAX);
        let radius = base_radius + jr;
        let theta = (player.theta + PI_MICRO + jt) % TAU_MICRO;
        let ob = Obstacle { radius, theta, speed: sp, destroy_at_ms: destroy_at };
        proof {
            assert(ob.theta == spec_spawn_theta(player.theta as int, jt as int));
            assert(spec_obstacle_ok(
                ob,
                player.theta as int,
                elapsed_ms as int,
                player.speed as int,
            ));
        }
        arena.insert(ob);
        k = k + 1;
    }
    count as usize
}

} // verus!
