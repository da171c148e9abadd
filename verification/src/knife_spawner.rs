//! The periodic knife spawner and its difficulty ramp.
//!
//! The knife cadence is mutable, persistent state: every level-up
//! shrinks the current period by a fixed decrement until a floor period
//! is reached, and later level-ups compound from the current value, not
//! from a base formula.  Once at the floor, further level-ups change
//! nothing: difficulty plateaus rather than diverging.

use vstd::prelude::*;

use crate::coin_spawner::{spawn_x_max, spawn_x_min, spawn_top_y};
use crate::flow::LevelUpEvent;
use crate::knife::{knife_entity, spawn_knife};
use crate::math::Vec2;
use crate::rng::random_in_range;
use crate::timer::{Timer, DT_MAX, PERIOD_MAX};
use crate::world::World;
use crate::{Window, SPRITE_SIZE_MICRO};

verus! {

/// Starting period of the knife spawner, in milliseconds.
pub const KNIFE_SPAWN_TIMER_MS: u64 = 200;

/// Floor period of the knife spawner, in milliseconds.
pub const MIN_KNIFE_SPAWN_TIMER_MS: u64 = 50;

/// How much one level-up shrinks the knife period, in milliseconds.
pub const KNIFE_SPAWN_DECREMENT_MS: u64 = 10;

/// The knife spawner's pacing state: the running timer, the current
/// period it was built with, and the floor the period never drops below.
#[derive(Clone, Copy, PartialEq, Eq, Structural, Debug)]
pub struct KnifeSpawnTimer {
    pub timer: Timer,
    pub current_spawn_timer: u64,
    pub min_spawn_cd: u64,
}

impl KnifeSpawnTimer {
    /// The timer runs at the current period, which never drops below the
    /// (positive) floor.
    pub open spec fn wf(self) -> bool {
        &&& self.timer.wf()
        &&& self.timer.period_ms == self.current_spawn_timer
        &&& 1 <= self.min_spawn_cd <= self.current_spawn_timer <= PERIOD_MAX
    }
}

impl Default for KnifeSpawnTimer {
    /// A fresh knife spawner at the starting cadence.
    fn default() -> (r: KnifeSpawnTimer)
        ensures
            r == (KnifeSpawnTimer {
                timer: Timer { period_ms: KNIFE_SPAWN_TIMER_MS, elapsed_ms: 0, finished: false },
                current_spawn_timer: KNIFE_SPAWN_TIMER_MS,
                min_spawn_cd: MIN_KNIFE_SPAWN_TIMER_MS,
            }),
            r.wf(),
    {
        KnifeSpawnTimer {
            timer: Timer::new(KNIFE_SPAWN_TIMER_MS),
            current_spawn_timer: KNIFE_SPAWN_TIMER_MS,
            min_spawn_cd: MIN_KNIFE_SPAWN_TIMER_MS,
        }
    }
}

/// Advances the knife spawn timer by `dt` milliseconds.
pub fn tick_knife_spawn_timer(knife_spawn_timer: &mut KnifeSpawnTimer, dt: u64)
    requires
        old(knife_spawn_timer).wf(),
        dt <= DT_MAX,
    ensures
        *final(knife_spawn_timer) == (KnifeSpawnTimer {
            timer: old(knife_spawn_timer).timer.ticked(dt),
            ..*old(knife_spawn_timer)
        }),
        final(knife_spawn_timer).wf(),
{
    knife_spawn_timer.timer.tick(dt);
}

/// The spawner after one level-up: the period shrinks by the decrement,
/// clamped at the floor, and the timer starts over at the new cadence.
/// At the floor nothing changes, so difficulty plateaus.
pub open spec fn level_up_step(t: KnifeSpawnTimer) -> KnifeSpawnTimer {
    if t.current_spawn_timer > t.min_spawn_cd {
        let shorter = if t.current_spawn_timer >= t.min_spawn_cd + KNIFE_SPAWN_DECREMENT_MS {
            (t.current_spawn_timer - KNIFE_SPAWN_DECREMENT_MS) as u64
        } else {
            t.min_spawn_cd
        };
        KnifeSpawnTimer {
            timer: Timer { period_ms: shorter, elapsed_ms: 0, finished: false },
            current_spawn_timer: shorter,
            min_spawn_cd: t.min_spawn_cd,
        }
    } else {
        t
    }
}

/// The spawner after `n` level-ups in a row.
pub open spec fn level_ups_applied(t: KnifeSpawnTimer, n: nat) -> KnifeSpawnTimer
    decreases n,
{
    if n == 0 {
        t
    } else {
        level_up_step(level_ups_applied(t, (n - 1) as nat))
    }
}

/// Tightens the knife cadence once per level-up received this tick.
pub fn listen_for_level_up(knife_spawn_timer: &mut KnifeSpawnTimer, events: &Vec<LevelUpEvent>)
    requires
        old(knife_spawn_timer).wf(),
    ensures
        *final(knife_spawn_timer) == level_ups_applied(*old(knife_spawn_timer), events@.len()),
        final(knife_spawn_timer).wf(),
{
    let n = events.len();
    let mut i: usize = 0;
    while i < n
        invariant
            i <= n,
            knife_spawn_timer.wf(),
            *knife_spawn_timer == level_ups_applied(*old(knife_spawn_timer), i as nat),
        decreases n - i,
    {
        if knife_spawn_timer.current_spawn_timer > knife_spawn_timer.min_spawn_cd {
            let shorter = if knife_spawn_timer.current_spawn_timer >= knife_spawn_timer.min_spawn_cd
                + KNIFE_SPAWN_DECREMENT_MS {
                knife_spawn_timer.current_spawn_timer - KNIFE_SPAWN_DECREMENT_MS
            } else {
                knife_spawn_timer.min_spawn_cd
            };
            knife_spawn_timer.timer = Timer::new(shorter);
            knife_spawn_timer.current_spawn_timer = shorter;
        }
        i = i + 1;
    }
}

/// One level-up never lengthens the knife period, never crosses the
/// floor, and leaves the floor itself untouched.
pub proof fn lemma_level_up_step_bounds(t: KnifeSpawnTimer)
    requires
        t.wf(),
    ensures
        level_up_step(t).wf(),
        level_up_step(t).current_spawn_timer <= t.current_spawn_timer,
        level_up_step(t).current_spawn_timer >= t.min_spawn_cd,
        level_up_step(t).min_spawn_cd == t.min_spawn_cd,
{
}

/// Law of the difficulty ramp: across any run of level-ups the knife
/// spawn period is monotonically non-increasing and never drops below
/// the configured floor.
pub proof fn lemma_knife_period_ramp(t: KnifeSpawnTimer, n: nat)
    requires
        t.wf(),
    ensures
        level_ups_applied(t, n).wf(),
        level_ups_applied(t, n).current_spawn_timer <= t.current_spawn_timer,
        level_ups_applied(t, n).current_spawn_timer >= t.min_spawn_cd,
        level_ups_applied(t, n).min_spawn_cd == t.min_spawn_cd,
        level_ups_applied(t, (n + 1) as nat).current_spawn_timer <= level_ups_applied(
            t,
            n,
        ).current_spawn_timer,
    decreases n,
{
    if n == 0 {
        lemma_level_up_step_bounds(t);
    } else {
        lemma_knife_period_ramp(t, (n - 1) as nat);
        lemma_level_up_step_bounds(level_ups_applied(t, (n - 1) as nat));
        lemma_level_up_step_bounds(level_ups_applied(t, n));
    }
}

/// When the knife timer has just finished, spawns one knife at the top
/// edge, at a uniformly random horizontal position within the insets;
/// otherwise leaves the registry alone.
pub fn spawn_knife_over_time(
    world: &mut World,
    knife_spawn_timer: &KnifeSpawnTimer,
    window: &Window,
)
    requires
        old(world).wf(),
        window.valid(),
        old(world).next_id < u64::MAX,
    ensures
        final(world).wf(),
        !knife_spawn_timer.timer.finished ==> *final(world) == *old(world),
        knife_spawn_timer.timer.finished ==> {
            &&& final(world).next_id == old(world).next_id + 1
            &&& exists|x: int|
                spawn_x_min(*window) <= x < spawn_x_max(*window) && final(world).entities@ == old(
                    world,
                ).entities@.push(
                    #[trigger] knife_entity(
                        Vec2 { x: x as i64, y: spawn_top_y(*window) as i64 },
                        old(world).next_id,
                    ),
                )
        },
{
    if knife_spawn_timer.timer.finished {
        let lo: i64 = -(window.width / 2) + SPRITE_SIZE_MICRO;
        let hi: i64 = window.width / 2 - SPRITE_SIZE_MICRO;
        let random_x = random_in_range(lo, hi);
        let spawn_y: i64 = window.height / 2 - SPRITE_SIZE_MICRO;
        spawn_knife(world, Vec2 { x: random_x, y: spawn_y });
        proof {
            let xw: int = random_x as int;
            assert(spawn_x_min(*window) <= xw < spawn_x_max(*window) && world.entities@ == old(
                world,
            ).entities@.push(
                knife_entity(
                    Vec2 { x: xw as i64, y: spawn_top_y(*window) as i64 },
                    old(world).next_id,
                ),
            ));
        }
    }
}

} // verus!
