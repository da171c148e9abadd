//! The in-game score and level readouts.
//!
//! The library tracks these widgets' existence and lifecycle scope, so
//! that leaving the playing state provably tears them down with the rest
//! of the run.  Laying them out and drawing their text is the renderer's
//! business; the extents here are nominal.

use vstd::prelude::*;

use crate::math::{Transform, Vec2};
use crate::world::{Entity, Scope, World};

verus! {

/// Marker of the widget showing the score.
#[derive(Clone, Copy, PartialEq, Eq, Structural, Debug)]
pub struct PointsText;

/// Marker of the widget showing the level.
#[derive(Clone, Copy, PartialEq, Eq, Structural, Debug)]
pub struct LevelText;

/// Nominal extent of a widget entity, in micro-units.
pub const WIDGET_EXTENT_MICRO: i64 = 1_000_000;

/// A bare widget entity: playing- or menu-scoped, at rest, with nominal
/// extents and no simulation components.
pub open spec fn widget_entity(scope: Scope, id: u64) -> Entity {
    Entity {
        id,
        scope,
        transform: Transform {
            translation: Vec2 { x: 0, y: 0 },
            scale: Vec2 { x: 1000, y: 1000 },
        },
        sprite_size: Vec2 { x: WIDGET_EXTENT_MICRO, y: WIDGET_EXTENT_MICRO },
        movement: Option::None,
        player: Option::None,
        terrain: Option::None,
        coin: Option::None,
        knife: Option::None,
        animation: Option::None,
        points_text: Option::None,
        level_text: Option::None,
        menu_button: Option::None,
    }
}

/// The widget carrying the score readout.
pub open spec fn points_text_entity(id: u64) -> Entity {
    Entity { points_text: Option::Some(PointsText), ..widget_entity(Scope::Playing, id) }
}

/// The widget carrying the level readout.
pub open spec fn level_text_entity(id: u64) -> Entity {
    Entity { level_text: Option::Some(LevelText), ..widget_entity(Scope::Playing, id) }
}

/// A bare widget as an executable value.
fn make_widget(scope: Scope) -> (e: Entity)
    ensures
        e == widget_entity(scope, 0),
        e.wf(),
{
    Entity {
        id: 0,
        scope,
        transform: Transform {
            translation: Vec2 { x: 0, y: 0 },
            scale: Vec2 { x: 1000, y: 1000 },
        },
        sprite_size: Vec2 { x: WIDGET_EXTENT_MICRO, y: WIDGET_EXTENT_MICRO },
        movement: Option::None,
        player: Option::None,
        terrain: Option::None,
        coin: Option::None,
        knife: Option::None,
        animation: Option::None,
        points_text: Option::None,
        level_text: Option::None,
        menu_button: Option::None,
    }
}

/// Creates the in-game readouts: a root panel, the score text and the
/// level text, all playing-scoped so that leaving the run removes them.
pub fn spawn_game_ui(world: &mut World)
    requires
        old(world).wf(),
        old(world).next_id < u64::MAX - 3,
    ensures
        final(world).wf(),
        final(world).entities@ == old(world).entities@.push(
            widget_entity(Scope::Playing, old(world).next_id),
        ).push(points_text_entity((old(world).next_id + 1) as u64)).push(
            level_text_entity((old(world).next_id + 2) as u64),
        ),
        final(world).next_id == old(world).next_id + 3,
{
    let root = make_widget(Scope::Playing);
    world.spawn(root);
    let base = make_widget(Scope::Playing);
    let points_label = Entity { points_text: Some(PointsText), ..base };
    world.spawn(points_label);
    let base2 = make_widget(Scope::Playing);
    let level_label = Entity { level_text: Some(LevelText), ..base2 };
    world.spawn(level_label);
    proof {
        assert(world.entities@ =~= old(world).entities@.push(
            widget_entity(Scope::Playing, old(world).next_id),
        ).push(points_text_entity((old(world).next_id + 1) as u64)).push(
            level_text_entity((old(world).next_id + 2) as u64),
        ));
    }
}

} // verus!
