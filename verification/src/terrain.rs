//! The single static terrain strip entities rest on.

use vstd::prelude::*;

use crate::math::{Transform, Vec2};
use crate::world::{Entity, Scope, World};
use crate::{Window, SPRITE_SIZE_MICRO};

verus! {

/// Marker component of the terrain strip.  There is at most one terrain
/// entity; collision systems skip their pass when it is absent.
#[derive(Clone, Copy, PartialEq, Eq, Structural, Debug)]
pub struct Terrain;

/// Thickness scale of the terrain strip, in milli (4.0).
pub const TERRAIN_THICKNESS_MILLI: i64 = 4000;

/// The entity entering the playing state creates for the terrain: an
/// immobile strip along the bottom-left of the window, stretched to the
/// window's width.  Having no body, it neither falls nor moves.
pub open spec fn terrain_entity(window: Window, id: u64) -> Entity {
    Entity {
        id,
        scope: Scope::Playing,
        transform: Transform {
            translation: Vec2 {
                x: -((window.width - SPRITE_SIZE_MICRO) / 2) as i64,
                y: -((window.height - SPRITE_SIZE_MICRO) / 2) as i64,
            },
            scale: Vec2 { x: (window.width / 1000) as i64, y: TERRAIN_THICKNESS_MILLI },
        },
        sprite_size: Vec2 { x: SPRITE_SIZE_MICRO, y: SPRITE_SIZE_MICRO },
        movement: Option::None,
        player: Option::None,
        terrain: Option::Some(Terrain),
        coin: Option::None,
        knife: Option::None,
        animation: Option::None,
        points_text: Option::None,
        level_text: Option::None,
        menu_button: Option::None,
    }
}

/// Creates the terrain strip for this window.
pub fn spawn_terrain(world: &mut World, window: &Window)
    requires
        old(world).wf(),
        window.valid(),
        old(world).next_id < u64::MAX,
    ensures
        final(world).wf(),
        final(world).entities@ == old(world).entities@.push(
            terrain_entity(*window, old(world).next_id),
        ),
        final(world).next_id == old(world).next_id + 1,
{
    let x: i64 = -((window.width - SPRITE_SIZE_MICRO) / 2);
    let y: i64 = -((window.height - SPRITE_SIZE_MICRO) / 2);
    let e = Entity {
        id: 0,
        scope: Scope::Playing,
        transform: Transform {
            translation: Vec2 { x, y },
            scale: Vec2 { x: window.width / 1000, y: TERRAIN_THICKNESS_MILLI },
        },
        sprite_size: Vec2 { x: SPRITE_SIZE_MICRO, y: SPRITE_SIZE_MICRO },
        movement: Option::None,
        player: Option::None,
        terrain: Option::Some(Terrain),
        coin: Option::None,
        knife: Option::None,
        animation: Option::None,
        points_text: Option::None,
        level_text: Option::None,
        menu_button: Option::None,
    };
    let ghost next = world.next_id;
    world.spawn(e);
    proof {
        assert(world.entities@.last() == terrain_entity(*window, next));
        assert(world.entities@ =~= old(world).entities@.push(terrain_entity(*window, next)));
    }
}

} // verus!
