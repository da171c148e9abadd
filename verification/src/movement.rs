//! Per-entity movement state and the position integrator.

use vstd::prelude::*;

use crate::gravity::Gravity;
use crate::math::{advance_position, sat64, Transform, Vec2};
use crate::timer::DT_MAX;
use crate::world::{Entity, World};

verus! {

/// Physical state of a moving entity: mass, velocity in milli-units per
/// second, and the facing direction (`1` right, `-1` left) used for sprite
/// mirroring.
#[derive(Clone, Copy, PartialEq, Eq, Structural, Debug)]
pub struct Body {
    pub mass: i64,
    pub velocity: Vec2,
    pub direction: i8,
}

impl Default for Body {
    /// The stock body: mass 100, at rest, facing right.
    fn default() -> (r: Body)
        ensures
            r == (Body { mass: 100, velocity: Vec2 { x: 0, y: 0 }, direction: 1 }),
    {
        Body { mass: 100, velocity: Vec2 { x: 0, y: 0 }, direction: 1 }
    }
}

/// The movement bundle an entity carries to take part in gravity and
/// position integration.
#[derive(Clone, Copy, PartialEq, Eq, Structural, Debug)]
pub struct Movement {
    pub gravity: Gravity,
    pub body: Body,
}

/// One entity after one tick of position integration.  The horizontal
/// position always advances by `velocity.x * dt`; the vertical position
/// advances by `velocity.y * dt` only while the entity is not resting on
/// the terrain (ground contact gates the vertical position update and
/// nothing else).  Entities without a body are untouched.
pub open spec fn integrated(e: Entity, dt: u64) -> Entity {
    match e.movement {
        Option::Some(m) => Entity {
            transform: Transform {
                translation: Vec2 {
                    x: sat64(e.transform.translation.x + m.body.velocity.x * dt) as i64,
                    y: if m.gravity.is_touching_terrain {
                        e.transform.translation.y
                    } else {
                        sat64(e.transform.translation.y + m.body.velocity.y * dt) as i64
                    },
                },
                scale: e.transform.scale,
            },
            ..e
        },
        Option::None => e,
    }
}

/// Integrates every body's position over one tick of `dt` milliseconds.
pub fn move_entity(world: &mut World, dt: u64)
    requires
        old(world).wf(),
        dt <= DT_MAX,
    ensures
        final(world).wf(),
        final(world).entities@ == old(world).entities@.map_values(|e: Entity| integrated(e, dt)),
        final(world).next_id == old(world).next_id,
{
    let ghost orig = world.entities@;
    let n = world.entities.len();
    let mut i: usize = 0;
    while i < n
        invariant
            world.wf(),
            n == world.entities@.len(),
            orig.len() == n,
            i <= n,
            dt <= DT_MAX,
            world.next_id == old(world).next_id,
            forall|j: int| 0 <= j < i ==> world.entities@[j] == integrated(#[trigger] orig[j], dt),
            forall|j: int| i <= j < n ==> world.entities@[j] == #[trigger] orig[j],
        decreases n - i,
    {
        let e = world.entities[i];
        if let Option::Some(m) = e.movement {
            let x = advance_position(e.transform.translation.x, m.body.velocity.x, dt);
            let y = if m.gravity.is_touching_terrain {
                e.transform.translation.y
            } else {
                advance_position(e.transform.translation.y, m.body.velocity.y, dt)
            };
            let updated = Entity {
                transform: Transform { translation: Vec2 { x, y }, scale: e.transform.scale },
                ..e
            };
            world.entities[i] = updated;
        }
        i = i + 1;
    }
    proof {
        assert(world.entities@ =~= orig.map_values(|e: Entity| integrated(e, dt)));
    }
}

/// Law of the integrator: over any tick, a body's vertical position
/// changes only while its ground-contact flag is false, and its
/// horizontal position always advances by `velocity.x * dt`, clamped
/// only at the representable range.  Entities without a body never move.
pub proof fn lemma_contact_gates_vertical_motion(e: Entity, dt: u64)
    ensures
        e.movement.is_some() && e.movement->Some_0.gravity.is_touching_terrain ==> integrated(
            e,
            dt,
        ).transform.translation.y == e.transform.translation.y,
        e.movement.is_some() ==> integrated(e, dt).transform.translation.x as int == sat64(
            e.transform.translation.x + e.movement->Some_0.body.velocity.x * dt,
        ),
        e.movement.is_some() && !e.movement->Some_0.gravity.is_touching_terrain ==> integrated(
            e,
            dt,
        ).transform.translation.y as int == sat64(
            e.transform.translation.y + e.movement->Some_0.body.velocity.y * dt,
        ),
        e.movement.is_none() ==> integrated(e, dt) == e,
{
}

/// One entity after the facing check: the facing direction follows the
/// sign of the horizontal velocity and is left alone while that velocity
/// is zero or the whole velocity is zero (no hysteresis beyond that).
/// The renderer mirrors the sprite whenever the direction is `-1`.
pub open spec fn direction_checked(e: Entity) -> Entity {
    match e.movement {
        Option::Some(m) => {
            if m.body.velocity.x != 0 || m.body.velocity.y != 0 {
                let dir: i8 = if m.body.velocity.x < 0 {
                    -1i8
                } else if m.body.velocity.x > 0 {
                    1i8
                } else {
                    m.body.direction
                };
                Entity {
                    movement: Option::Some(
                        Movement { body: Body { direction: dir, ..m.body }, ..m },
                    ),
                    ..e
                }
            } else {
                e
            }
        },
        Option::None => e,
    }
}

/// Updates every body's facing direction from its velocity.
pub fn check_direction(world: &mut World)
    requires
        old(world).wf(),
    ensures
        final(world).wf(),
        final(world).entities@ == old(world).entities@.map_values(
            |e: Entity| direction_checked(e),
        ),
        final(world).next_id == old(world).next_id,
{
    let ghost orig = world.entities@;
    let n = world.entities.len();
    let mut i: usize = 0;
    while i < n
        invariant
            world.wf(),
            n == world.entities@.len(),
            orig.len() == n,
            i <= n,
            world.next_id == old(world).next_id,
            forall|j: int|
                0 <= j < i ==> world.entities@[j] == direction_checked(#[trigger] orig[j]),
            forall|j: int| i <= j < n ==> world.entities@[j] == #[trigger] orig[j],
        decreases n - i,
    {
        let e = world.entities[i];
        if let Option::Some(m) = e.movement {
            if m.body.velocity.x != 0 || m.body.velocity.y != 0 {
                let dir: i8 = if m.body.velocity.x < 0 {
                    -1
                } else if m.body.velocity.x > 0 {
                    1
                } else {
                    m.body.direction
                };
                let updated = Entity {
                    movement: Option::Some(
                        Movement { body: Body { direction: dir, ..m.body }, ..m },
                    ),
                    ..e
                };
                world.entities[i] = updated;
            }
        }
        i = i + 1;
    }
    proof {
        assert(world.entities@ =~= orig.map_values(|e: Entity| direction_checked(e)));
    }
}

} // verus!
