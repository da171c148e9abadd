//! The periodic coin spawner.

use vstd::prelude::*;

use crate::coin::{coin_entity, spawn_coin};
use crate::math::Vec2;
use crate::rng::random_in_range;
use crate::timer::{Timer, DT_MAX};
use crate::world::World;
use crate::{Window, SPRITE_SIZE_MICRO};

verus! {

/// Period of the coin spawner, in milliseconds.
pub const COIN_SPAWN_TIMER_MS: u64 = 3000;

/// The repeating timer that paces coin spawns.
#[derive(Clone, Copy, PartialEq, Eq, Structural, Debug)]
pub struct CoinSpawnTimer {
    pub timer: Timer,
}

impl Default for CoinSpawnTimer {
    /// A fresh coin spawn timer over the standard period.
    fn default() -> (r: CoinSpawnTimer)
        ensures
            r == (CoinSpawnTimer {
                timer: Timer { period_ms: COIN_SPAWN_TIMER_MS, elapsed_ms: 0, finished: false },
            }),
            r.timer.wf(),
    {
        CoinSpawnTimer { timer: Timer::new(COIN_SPAWN_TIMER_MS) }
    }
}

/// Advances the coin spawn timer by `dt` milliseconds.
pub fn tick_coin_spawn_timer(coin_spawn_timer: &mut CoinSpawnTimer, dt: u64)
    requires
        old(coin_spawn_timer).timer.wf(),
        dt <= DT_MAX,
    ensures
        final(coin_spawn_timer).timer == old(coin_spawn_timer).timer.ticked(dt),
        final(coin_spawn_timer).timer.wf(),
{
    coin_spawn_timer.timer.tick(dt);
}

/// Leftmost horizontal spawn position, in micro-units: one sprite inset
/// from the window's left edge.
pub open spec fn spawn_x_min(window: Window) -> int {
    -(window.width / 2) + SPRITE_SIZE_MICRO
}

/// Rightmost horizontal spawn bound (exclusive), in micro-units: one
/// sprite inset from the window's right edge.
pub open spec fn spawn_x_max(window: Window) -> int {
    window.width / 2 - SPRITE_SIZE_MICRO
}

/// Vertical spawn position, in micro-units: one sprite inset below the
/// window's top edge.
pub open spec fn spawn_top_y(window: Window) -> int {
    window.height / 2 - SPRITE_SIZE_MICRO
}

/// When the coin timer has just finished, spawns one coin at the top
/// edge, at a uniformly random horizontal position within the insets;
/// otherwise leaves the registry alone.  The draw is the only
/// nondeterminism: everything else about the new coin is fixed.
pub fn spawn_coin_over_time(world: &mut World, coin_spawn_timer: &CoinSpawnTimer, window: &Window)
    requires
        old(world).wf(),
        window.valid(),
        old(world).next_id < u64::MAX,
    ensures
        final(world).wf(),
        !coin_spawn_timer.timer.finished ==> *final(world) == *old(world),
        coin_spawn_timer.timer.finished ==> {
            &&& final(world).next_id == old(world).next_id + 1
            &&& exists|x: int|
                spawn_x_min(*window) <= x < spawn_x_max(*window) && final(world).entities@ == old(
                    world,
                ).entities@.push(
                    #[trigger] coin_entity(
                        Vec2 { x: x as i64, y: spawn_top_y(*window) as i64 },
                        old(world).next_id,
                    ),
                )
        },
{
    if coin_spawn_timer.timer.finished {
        let lo: i64 = -(window.width / 2) + SPRITE_SIZE_MICRO;
        let hi: i64 = window.width / 2 - SPRITE_SIZE_MICRO;
        let random_x = random_in_range(lo, hi);
        let spawn_y: i64 = window.height / 2 - SPRITE_SIZE_MICRO;
        spawn_coin(world, Vec2 { x: random_x, y: spawn_y });
        proof {
            let xw: int = random_x as int;
            assert(spawn_x_min(*window) <= xw < spawn_x_max(*window) && world.entities@ == old(
                world,
            ).entities@.push(
                coin_entity(
                    Vec2 { x: xw as i64, y: spawn_top_y(*window) as i64 },
                    old(world).next_id,
                ),
            ));
        }
    }
}

} // verus!
