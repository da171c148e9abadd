//! Gravity accumulation and ground-contact resolution.

use vstd::prelude::*;

use crate::collision::{aabb_overlap, overlaps};
use crate::math::sat64;
use crate::movement::{Body, Movement};
use crate::timer::DT_MAX;
use crate::world::{find_single_terrain, terrain_count, the_terrain, Entity, World, MASS_MAX};

verus! {

/// Ground-contact state of a falling entity: true while its bounding box
/// overlaps the terrain strip, recomputed every tick.
#[derive(Clone, Copy, PartialEq, Eq, Structural, Debug)]
pub struct Gravity {
    pub is_touching_terrain: bool,
}

/// Gravitational acceleration, in milli-units per second squared per unit
/// of mass (9.8 in milli).
pub const GRAVITY_SCALE_MILLI: i64 = 9800;

/// Velocity gained downward over `dt` milliseconds by a body of mass
/// `mass`, in milli-units per second.
pub open spec fn gravity_delta(mass: i64, dt: u64) -> int {
    mass * GRAVITY_SCALE_MILLI * dt / 1000
}

/// One entity after one tick of gravity: a body's downward velocity grows
/// with its mass, whether or not the entity rests on the terrain (contact
/// gates the position update, never the velocity accumulation, so the
/// downward velocity keeps growing while grounded).  Entities without a
/// body are untouched.
pub open spec fn gravity_applied(e: Entity, dt: u64) -> Entity {
    match e.movement {
        Option::Some(m) => Entity {
            movement: Option::Some(
                Movement {
                    gravity: m.gravity,
                    body: Body {
                        velocity: crate::math::Vec2 {
                            x: m.body.velocity.x,
                            y: sat64(m.body.velocity.y - gravity_delta(m.body.mass, dt)) as i64,
                        },
                        ..m.body
                    },
                },
            ),
            ..e
        },
        Option::None => e,
    }
}

/// Accumulates gravity on every body for one tick of `dt` milliseconds.
pub fn apply_gravity(world: &mut World, dt: u64)
    requires
        old(world).wf(),
        dt <= DT_MAX,
    ensures
        final(world).wf(),
        final(world).entities@ == old(world).entities@.map_values(
            |e: Entity| gravity_applied(e, dt),
        ),
        final(world).next_id == old(world).next_id,
{
    let ghost orig = world.entities@;
    let n = world.entities.len();
    let mut i: usize = 0;
    while i < n
        invariant
            world.wf(),
            n == world.entities@.len(),
            orig.len() == n,
            i <= n,
            dt <= DT_MAX,
            world.next_id == old(world).next_id,
            forall|j: int| 0 <= j < i ==> world.entities@[j] == gravity_applied(#[trigger] orig[j], dt),
            forall|j: int| i <= j < n ==> world.entities@[j] == #[trigger] orig[j],
        decreases n - i,
    {
        let e = world.entities[i];
        if let Option::Some(m) = e.movement {
            let dt_scalar: i64 = dt as i64;
            proof {
                assert(0 <= m.body.mass * GRAVITY_SCALE_MILLI <= MASS_MAX * GRAVITY_SCALE_MILLI)
                    by (nonlinear_arith)
                    requires
                        0 <= m.body.mass <= MASS_MAX,
                ;
                assert(0 <= m.body.mass * GRAVITY_SCALE_MILLI * dt_scalar <= MASS_MAX
                    * GRAVITY_SCALE_MILLI * (DT_MAX as i64)) by (nonlinear_arith)
                    requires
                        0 <= m.body.mass <= MASS_MAX,
                        0 <= dt_scalar <= DT_MAX as i64,
                ;
            }
            let delta: i64 = m.body.mass * GRAVITY_SCALE_MILLI * dt_scalar / 1000;
            let vy = crate::math::sat_sub(m.body.velocity.y, delta);
            let updated = Entity {
                movement: Option::Some(
                    Movement {
                        gravity: m.gravity,
                        body: Body {
                            velocity: crate::math::Vec2 { x: m.body.velocity.x, y: vy },
                            ..m.body
                        },
                    },
                ),
                ..e
            };
            world.entities[i] = updated;
        }
        i = i + 1;
    }
    proof {
        assert(world.entities@ =~= orig.map_values(|e: Entity| gravity_applied(e, dt)));
    }
}

/// One entity after ground-contact resolution against the terrain entity
/// `t`: a body's contact flag is overwritten each tick with whether the
/// entity's box overlaps the terrain's, with no hysteresis.
pub open spec fn ground_resolved(e: Entity, t: Entity) -> Entity {
    match e.movement {
        Option::Some(m) => Entity {
            movement: Option::Some(
                Movement { gravity: Gravity { is_touching_terrain: overlaps(e, t) }, ..m },
            ),
            ..e
        },
        Option::None => e,
    }
}

/// Recomputes every body's ground-contact flag against the single terrain
/// strip.  Without exactly one terrain entity the whole pass is skipped
/// for this tick and every flag keeps its value.
pub fn entity_is_touching_terrain(world: &mut World)
    requires
        old(world).wf(),
    ensures
        final(world).wf(),
        final(world).next_id == old(world).next_id,
        terrain_count(old(world).entities@) == 1 ==> final(world).entities@ == old(
            world,
        ).entities@.map_values(|e: Entity| ground_resolved(e, the_terrain(old(world).entities@))),
        terrain_count(old(world).entities@) != 1 ==> final(world).entities@ == old(
            world,
        ).entities@,
{
    let ghost orig = world.entities@;
    let terrain_at = match find_single_terrain(&world.entities) {
        Option::Some(t) => t,
        Option::None => {
            return ;
        },
    };
    let terrain_entity = world.entities[terrain_at];
    proof {
        assert(terrain_entity == the_terrain(orig));
    }
    let n = world.entities.len();
    let mut i: usize = 0;
    while i < n
        invariant
            world.wf(),
            n == world.entities@.len(),
            orig.len() == n,
            i <= n,
            world.next_id == old(world).next_id,
            terrain_entity.wf(),
            forall|j: int|
                0 <= j < i ==> world.entities@[j] == ground_resolved(
                    #[trigger] orig[j],
                    terrain_entity,
                ),
            forall|j: int| i <= j < n ==> world.entities@[j] == #[trigger] orig[j],
        decreases n - i,
    {
        let e = world.entities[i];
        if let Option::Some(m) = e.movement {
            let touching = aabb_overlap(&e, &terrain_entity);
            let updated = Entity {
                movement: Option::Some(
                    Movement { gravity: Gravity { is_touching_terrain: touching }, ..m },
                ),
                ..e
            };
            world.entities[i] = updated;
        }
        i = i + 1;
    }
    proof {
        assert(world.entities@ =~= orig.map_values(
            |e: Entity| ground_resolved(e, orig[terrain_at as int]),
        ));
    }
}

} // verus!
