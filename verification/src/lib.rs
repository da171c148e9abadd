//! Simulation core of a small 2D arcade survival game: a player avoids
//! falling knives and collects falling coins while the difficulty ramps up.
//!
//! The library holds the verified game logic: movement and gravity
//! integration, axis-aligned collision detection, timed spawning with
//! difficulty scaling, score and level bookkeeping, and the top-level
//! game-state machine with scoped entity cleanup.  Rendering, audio,
//! windowing and raw input polling are outside collaborators: callers feed
//! the library plain values (frame delta, input direction, asset readiness)
//! and act on what it returns.
//!
//! All continuous quantities are fixed-point integers: positions and sizes
//! in micro-units (one millionth of a world unit), velocities in
//! milli-units per second, scales in milli (1000 = 1.0), durations in
//! milliseconds.  With those units position integration is a pure
//! multiply-add: a velocity in milli-units per second times a delta in
//! milliseconds is a distance in micro-units.

use vstd::prelude::*;

pub mod coin;
pub mod coin_spawner;
pub mod collision;
pub mod flow;
pub mod gravity;
pub mod knife;
pub mod knife_spawner;
pub mod main_menu;
pub mod math;
pub mod movement;
pub mod player;
pub mod player_input;
pub mod points;
pub mod rng;
pub mod terrain;
pub mod timer;
pub mod ui;
pub mod world;

verus! {

/// Base size of the square 16x16 sprites, in micro-units.
pub const SPRITE_SIZE_MICRO: i64 = 16_000_000;

/// Scale every sprite entity is drawn at, in milli (4.0).
pub const SPRITE_SCALE_MILLI: i64 = 4000;

/// Default window width in micro-units (1200 world units).
pub const WINDOW_WIDTH: i64 = 1_200_000_000;

/// Default window height in micro-units (700 world units).
pub const WINDOW_HEIGHT: i64 = 700_000_000;

/// Smallest window dimension the simulation accepts, in micro-units
/// (100 world units): room for the spawn insets and the player sprite.
pub const WINDOW_MIN: i64 = 100_000_000;

/// Largest window dimension the simulation accepts, in micro-units
/// (one million world units).
pub const WINDOW_MAX: i64 = 1_000_000_000_000;

/// The window bounds the simulation is told each tick, in micro-units.
#[derive(Clone, Copy, PartialEq, Eq, Structural, Debug)]
pub struct Window {
    pub width: i64,
    pub height: i64,
}

impl Window {
    /// Bounds the spawners and the player clamp can work within.
    pub open spec fn valid(self) -> bool {
        &&& WINDOW_MIN <= self.width <= WINDOW_MAX
        &&& WINDOW_MIN <= self.height <= WINDOW_MAX
    }

    /// The default window the game opens with.
    pub fn standard() -> (r: Window)
        ensures
            r == (Window { width: WINDOW_WIDTH, height: WINDOW_HEIGHT }),
            r.valid(),
    {
        Window { width: WINDOW_WIDTH, height: WINDOW_HEIGHT }
    }
}

} // verus!
