//! Knives: the falling hazards, their spawn shape, the hit pass and the
//! landing pass.

use vstd::prelude::*;

use crate::collision::{aabb_overlap, overlaps};
use crate::gravity::Gravity;
use crate::math::{sat64, sat_add, Transform, Vec2};
use crate::movement::{Body, Movement};
use crate::points::Points;
use crate::world::{
    count_matching, find_single_player, lemma_count_nonneg, lemma_reject_distinct,
    lemma_reject_sub, lemma_take_succ, player_count, reject_matching, the_player, Entity, Scope,
    World,
};
use crate::{SPRITE_SCALE_MILLI, SPRITE_SIZE_MICRO};

verus! {

/// Damage carried by every spawned knife.
pub const KNIFE_DAMAGE: i64 = 1;

/// Mass of a spawned knife.
pub const KNIFE_MASS: i64 = 50;

/// A knife's damage component.
#[derive(Clone, Copy, PartialEq, Eq, Structural, Debug)]
pub struct Knife {
    pub damage: i64,
}

/// Emitted once when a knife's box overlaps the player's; the knife is
/// destroyed in the same pass.  One hit ends the run.
#[derive(Clone, Copy, PartialEq, Eq, Structural, Debug)]
pub struct PlayerHitEvent {
    pub damage: i64,
}

/// The entity a knife spawn creates: a playing-scoped sprite with a light
/// body, carrying the standard damage.  The renderer draws it point-down;
/// the simulation does not track rotation.
pub open spec fn knife_entity(spawn_position: Vec2, id: u64) -> Entity {
    Entity {
        id,
        scope: Scope::Playing,
        transform: Transform {
            translation: spawn_position,
            scale: Vec2 { x: SPRITE_SCALE_MILLI, y: SPRITE_SCALE_MILLI },
        },
        sprite_size: Vec2 { x: SPRITE_SIZE_MICRO, y: SPRITE_SIZE_MICRO },
        movement: Option::Some(
            Movement {
                gravity: Gravity { is_touching_terrain: false },
                body: Body { mass: KNIFE_MASS, velocity: Vec2 { x: 0, y: 0 }, direction: 1 },
            },
        ),
        player: Option::None,
        terrain: Option::None,
        coin: Option::None,
        knife: Option::Some(Knife { damage: KNIFE_DAMAGE }),
        animation: Option::None,
        points_text: Option::None,
        level_text: Option::None,
        menu_button: Option::None,
    }
}

/// Creates one knife at `spawn_position`.
pub fn spawn_knife(world: &mut World, spawn_position: Vec2)
    requires
        old(world).wf(),
        old(world).next_id < u64::MAX,
    ensures
        final(world).wf(),
        final(world).entities@ == old(world).entities@.push(
            knife_entity(spawn_position, old(world).next_id),
        ),
        final(world).next_id == old(world).next_id + 1,
{
    let e = Entity {
        id: 0,
        scope: Scope::Playing,
        transform: Transform {
            translation: spawn_position,
            scale: Vec2 { x: SPRITE_SCALE_MILLI, y: SPRITE_SCALE_MILLI },
        },
        sprite_size: Vec2 { x: SPRITE_SIZE_MICRO, y: SPRITE_SIZE_MICRO },
        movement: Option::Some(
            Movement {
                gravity: Gravity { is_touching_terrain: false },
                body: Body { mass: KNIFE_MASS, velocity: Vec2 { x: 0, y: 0 }, direction: 1 },
            },
        ),
        player: Option::None,
        terrain: Option::None,
        coin: Option::None,
        knife: Option::Some(Knife { damage: KNIFE_DAMAGE }),
        animation: Option::None,
        points_text: Option::None,
        level_text: Option::None,
        menu_button: Option::None,
    };
    let ghost next = world.next_id;
    world.spawn(e);
    proof {
        assert(world.entities@.last() == knife_entity(spawn_position, next));
        assert(world.entities@ =~= old(world).entities@.push(knife_entity(spawn_position, next)));
    }
}

/// Whether the hit pass takes this entity: a moving knife whose box
/// strictly overlaps the player's.
pub open spec fn knife_hits(e: Entity, p: Entity) -> bool {
    &&& e.knife.is_some()
    &&& e.movement.is_some()
    &&& overlaps(e, p)
}

/// The entities left after every knife overlapping the player `p` is
/// destroyed.
pub open spec fn knives_kept(s: Seq<Entity>, p: Entity) -> Seq<Entity> {
    reject_matching(s, |e: Entity| knife_hits(e, p))
}

/// The hit events of one pass, one per hitting knife in entity order,
/// each carrying that knife's damage.
pub open spec fn hit_events_of(s: Seq<Entity>, p: Entity) -> Seq<PlayerHitEvent>
    decreases s.len(),
{
    if s.len() == 0 {
        Seq::<PlayerHitEvent>::empty()
    } else {
        let rest = hit_events_of(s.drop_last(), p);
        if knife_hits(s.last(), p) {
            rest.push(PlayerHitEvent { damage: s.last().knife->Some_0.damage })
        } else {
            rest
        }
    }
}

/// The hit pass: every knife overlapping the single player emits one
/// `PlayerHitEvent` and is destroyed in the same pass, so no knife can
/// ever produce a second event.  Without exactly one player the pass is
/// skipped for this tick.
pub fn check_if_touch_player(world: &mut World) -> (events: Vec<PlayerHitEvent>)
    requires
        old(world).wf(),
    ensures
        final(world).wf(),
        final(world).next_id == old(world).next_id,
        player_count(old(world).entities@) == 1 ==> {
            &&& final(world).entities@ == knives_kept(
                old(world).entities@,
                the_player(old(world).entities@),
            )
            &&& events@ == hit_events_of(old(world).entities@, the_player(old(world).entities@))
        },
        player_count(old(world).entities@) != 1 ==> final(world).entities@ == old(world).entities@
            && events@ == Seq::<PlayerHitEvent>::empty(),
{
    let ghost orig = world.entities@;
    let player_at = match find_single_player(&world.entities) {
        Option::Some(i) => i,
        Option::None => {
            let events: Vec<PlayerHitEvent> = Vec::new();
            proof {
                assert(events@ =~= Seq::<PlayerHitEvent>::empty());
            }
            return events;
        },
    };
    let p = world.entities[player_at];
    let ghost pred = |e: Entity| knife_hits(e, p);
    let n = world.entities.len();
    let mut kept: Vec<Entity> = Vec::new();
    let mut events: Vec<PlayerHitEvent> = Vec::new();
    let mut i: usize = 0;
    while i < n
        invariant
            world.wf(),
            n == world.entities@.len(),
            orig == world.entities@,
            i <= n,
            p.wf(),
            p == the_player(orig),
            pred == (|e: Entity| knife_hits(e, p)),
            kept@ == reject_matching(orig.take(i as int), pred),
            events@ == hit_events_of(orig.take(i as int), p),
        decreases n - i,
    {
        proof {
            lemma_take_succ(orig, i as int);
        }
        let e = world.entities[i];
        let mut hits = false;
        let mut damage: i64 = 0;
        if let Option::Some(k) = e.knife {
            if e.movement.is_some() && aabb_overlap(&e, &p) {
                hits = true;
                damage = k.damage;
            }
        }
        if hits {
            events.push(PlayerHitEvent { damage });
        } else {
            kept.push(e);
        }
        i = i + 1;
    }
    proof {
        assert(orig.take(n as int) =~= orig);
        lemma_reject_sub(orig, pred);
        lemma_reject_distinct(orig, pred);
        assert forall|k: int| 0 <= k < kept@.len() implies (#[trigger] kept@[k]).wf()
            && kept@[k].id < world.next_id by {
            assert(orig.contains(kept@[k]));
            let oi = choose|oi: int| 0 <= oi < orig.len() && orig[oi] == kept@[k];
            assert(orig[oi].wf());
        }
    }
    world.entities = kept;
    events
}

/// A sequence with no hitting knife yields no hit event.
proof fn lemma_no_hits_no_events(s: Seq<Entity>, p: Entity)
    requires
        forall|i: int| 0 <= i < s.len() ==> !knife_hits(#[trigger] s[i], p),
    ensures
        hit_events_of(s, p).len() == 0,
    decreases s.len(),
{
    if s.len() > 0 {
        assert forall|i: int| 0 <= i < s.drop_last().len() implies !knife_hits(
            #[trigger] s.drop_last()[i],
            p,
        ) by {
            assert(s.drop_last()[i] == s[i]);
        }
        lemma_no_hits_no_events(s.drop_last(), p);
        assert(!knife_hits(s[s.len() - 1], p));
    }
}

/// Law of the hit pass: destruction is atomic with emission, so no
/// knife ever hits twice.  Running the pass again on what the first
/// pass left emits nothing at all.
pub proof fn lemma_hit_at_most_once(s: Seq<Entity>, p: Entity)
    ensures
        hit_events_of(knives_kept(s, p), p) =~= Seq::<PlayerHitEvent>::empty(),
{
    let pred = |e: Entity| knife_hits(e, p);
    crate::world::lemma_reject_none_match(s, pred);
    lemma_no_hits_no_events(knives_kept(s, p), p);
}

/// Law of the hit pass, by identity: a hitting knife's identity is gone
/// from the pass's result, so no later pass can see that entity again
/// (fresh spawns never reuse an identity).
pub proof fn lemma_hitting_knife_removed(s: Seq<Entity>, p: Entity, i: int)
    requires
        forall|a: int, b: int| 0 <= a < b < s.len() ==> s[a].id != s[b].id,
        0 <= i < s.len(),
        knife_hits(s[i], p),
    ensures
        forall|k: int|
            0 <= k < knives_kept(s, p).len() ==> (#[trigger] knives_kept(s, p)[k]).id != s[i].id,
{
    let pred = |e: Entity| knife_hits(e, p);
    lemma_reject_sub(s, pred);
    crate::world::lemma_reject_none_match(s, pred);
    assert forall|k: int| 0 <= k < knives_kept(s, p).len() implies (#[trigger] knives_kept(s, p)[k]).id
        != s[i].id by {
        assert(s.contains(knives_kept(s, p)[k]));
        let j = choose|j: int| 0 <= j < s.len() && s[j] == knives_kept(s, p)[k];
        if j != i {
            if j < i {
                assert(s[j].id != s[i].id);
            } else {
                assert(s[i].id != s[j].id);
            }
        }
    }
}

/// Whether the landing pass takes this entity: a knife resting on the
/// terrain.
pub open spec fn knife_landed(e: Entity) -> bool {
    &&& e.knife.is_some()
    &&& e.movement.is_some()
    &&& e.movement->Some_0.gravity.is_touching_terrain
}

/// The entities left after every landed knife is destroyed.
pub open spec fn landed_knives_removed(s: Seq<Entity>) -> Seq<Entity> {
    reject_matching(s, |e: Entity| knife_landed(e))
}

/// Number of landed knives in `s`.
pub open spec fn landed_knife_count(s: Seq<Entity>) -> int {
    count_matching(s, |e: Entity| knife_landed(e))
}

/// The landing pass: every knife resting on the terrain is destroyed,
/// and, where the survival-scoring rule is switched on, each one awards a
/// point.  Returns how many knives landed, so the caller can sound each
/// impact.
pub fn despawn_on_terrain_touch(world: &mut World, points: &mut Points, award_landing_point: bool)
    -> (landed: usize)
    requires
        old(world).wf(),
    ensures
        final(world).wf(),
        final(world).next_id == old(world).next_id,
        final(world).entities@ == landed_knives_removed(old(world).entities@),
        landed == landed_knife_count(old(world).entities@),
        award_landing_point ==> final(points).value as int == sat64(
            old(points).value + landed_knife_count(old(world).entities@),
        ),
        !award_landing_point ==> final(points).value == old(points).value,
{
    let ghost orig = world.entities@;
    let ghost pred = |e: Entity| knife_landed(e);
    let ghost p0 = points.value as int;
    let n = world.entities.len();
    let mut kept: Vec<Entity> = Vec::new();
    let mut landed: usize = 0;
    let mut i: usize = 0;
    while i < n
        invariant
            world.wf(),
            n == world.entities@.len(),
            orig == world.entities@,
            i <= n,
            landed <= i,
            p0 == old(points).value as int,
            pred == (|e: Entity| knife_landed(e)),
            kept@ == reject_matching(orig.take(i as int), pred),
            landed == count_matching(orig.take(i as int), pred),
            award_landing_point ==> points.value as int == sat64(
                p0 + count_matching(orig.take(i as int), pred),
            ),
            !award_landing_point ==> points.value == old(points).value,
        decreases n - i,
    {
        proof {
            lemma_take_succ(orig, i as int);
            lemma_count_nonneg(orig.take(i as int), pred);
        }
        let e = world.entities[i];
        let mut remove = false;
        if e.knife.is_some() {
            if let Option::Some(m) = e.movement {
                if m.gravity.is_touching_terrain {
                    remove = true;
                }
            }
        }
        if remove {
            landed = landed + 1;
            if award_landing_point {
                points.value = sat_add(points.value, 1);
            }
        } else {
            kept.push(e);
        }
        i = i + 1;
    }
    proof {
        assert(orig.take(n as int) =~= orig);
        lemma_reject_sub(orig, pred);
        lemma_reject_distinct(orig, pred);
        assert forall|k: int| 0 <= k < kept@.len() implies (#[trigger] kept@[k]).wf()
            && kept@[k].id < world.next_id by {
            assert(orig.contains(kept@[k]));
            let oi = choose|oi: int| 0 <= oi < orig.len() && orig[oi] == kept@[k];
            assert(orig[oi].wf());
        }
    }
    world.entities = kept;
    landed
}

} // verus!
