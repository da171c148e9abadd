//! Coins: the collectible reward entities, their spawn shape, the pickup
//! pass and their idle animation.

use vstd::prelude::*;

use crate::collision::{aabb_overlap, overlaps};
use crate::gravity::Gravity;
use crate::math::{Transform, Vec2};
use crate::movement::{Body, Movement};
use crate::timer::{AnimationTimer, DT_MAX};
use crate::world::{
    find_single_player, lemma_reject_distinct, lemma_reject_sub, lemma_take_succ, player_count,
    reject_matching, the_player, Entity, Scope, World,
};
use crate::{SPRITE_SCALE_MILLI, SPRITE_SIZE_MICRO};

verus! {

/// Reward carried by every spawned coin.
pub const COIN_VALUE: i64 = 10;

/// A coin's reward component.
#[derive(Clone, Copy, PartialEq, Eq, Structural, Debug)]
pub struct Coin {
    pub value: i64,
}

/// Emitted once when the player picks a coin up; the coin is destroyed in
/// the same pass.
#[derive(Clone, Copy, PartialEq, Eq, Structural, Debug)]
pub struct CoinTouchedEvent {
    pub value: i64,
}

/// The entity a coin spawn creates: a playing-scoped, animated sprite
/// with a stock body, carrying the standard reward.
pub open spec fn coin_entity(spawn_position: Vec2, id: u64) -> Entity {
    Entity {
        id,
        scope: Scope::Playing,
        transform: Transform {
            translation: spawn_position,
            scale: Vec2 { x: SPRITE_SCALE_MILLI, y: SPRITE_SCALE_MILLI },
        },
        sprite_size: Vec2 { x: SPRITE_SIZE_MICRO, y: SPRITE_SIZE_MICRO },
        movement: Option::Some(
            Movement {
                gravity: Gravity { is_touching_terrain: false },
                body: Body { mass: 100, velocity: Vec2 { x: 0, y: 0 }, direction: 1 },
            },
        ),
        player: Option::None,
        terrain: Option::None,
        coin: Option::Some(Coin { value: COIN_VALUE }),
        knife: Option::None,
        animation: Option::Some(
            AnimationTimer {
                timer: crate::timer::Timer {
                    period_ms: crate::timer::ANIMATION_PERIOD_MS,
                    elapsed_ms: 0,
                    finished: false,
                },
                frame: 0,
            },
        ),
        points_text: Option::None,
        level_text: Option::None,
        menu_button: Option::None,
    }
}

/// Creates one coin at `spawn_position`.
pub fn spawn_coin(world: &mut World, spawn_position: Vec2)
    requires
        old(world).wf(),
        old(world).next_id < u64::MAX,
    ensures
        final(world).wf(),
        final(world).entities@ == old(world).entities@.push(
            coin_entity(spawn_position, old(world).next_id),
        ),
        final(world).next_id == old(world).next_id + 1,
{
    let e = Entity {
        id: 0,
        scope: Scope::Playing,
        transform: Transform {
            translation: spawn_position,
            scale: Vec2 { x: SPRITE_SCALE_MILLI, y: SPRITE_SCALE_MILLI },
        },
        sprite_size: Vec2 { x: SPRITE_SIZE_MICRO, y: SPRITE_SIZE_MICRO },
        movement: Option::Some(
            Movement { gravity: Gravity { is_touching_terrain: false }, body: Body::default() },
        ),
        player: Option::None,
        terrain: Option::None,
        coin: Option::Some(Coin { value: COIN_VALUE }),
        knife: Option::None,
        animation: Option::Some(AnimationTimer::new()),
        points_text: Option::None,
        level_text: Option::None,
        menu_button: Option::None,
    };
    let ghost next = world.next_id;
    world.spawn(e);
    proof {
        assert(world.entities@.last() == coin_entity(spawn_position, next));
        assert(world.entities@ =~= old(world).entities@.push(coin_entity(spawn_position, next)));
    }
}

/// Whether the pickup pass takes this entity: a moving coin whose box
/// strictly overlaps the player's.
pub open spec fn coin_picked(e: Entity, p: Entity) -> bool {
    &&& e.coin.is_some()
    &&& e.movement.is_some()
    &&& overlaps(e, p)
}

/// The entities left after the player `p` picks every overlapping coin.
pub open spec fn coins_kept(s: Seq<Entity>, p: Entity) -> Seq<Entity> {
    reject_matching(s, |e: Entity| coin_picked(e, p))
}

/// The pickup events of one pass, one per picked coin in entity order,
/// each carrying that coin's reward.
pub open spec fn coin_events_of(s: Seq<Entity>, p: Entity) -> Seq<CoinTouchedEvent>
    decreases s.len(),
{
    if s.len() == 0 {
        Seq::<CoinTouchedEvent>::empty()
    } else {
        let rest = coin_events_of(s.drop_last(), p);
        if coin_picked(s.last(), p) {
            rest.push(CoinTouchedEvent { value: s.last().coin->Some_0.value })
        } else {
            rest
        }
    }
}

/// A sequence with no pickable coin yields no pickup event.
proof fn lemma_no_picked_no_events(s: Seq<Entity>, p: Entity)
    requires
        forall|i: int| 0 <= i < s.len() ==> !coin_picked(#[trigger] s[i], p),
    ensures
        coin_events_of(s, p).len() == 0,
    decreases s.len(),
{
    if s.len() > 0 {
        assert forall|i: int| 0 <= i < s.drop_last().len() implies !coin_picked(
            #[trigger] s.drop_last()[i],
            p,
        ) by {
            assert(s.drop_last()[i] == s[i]);
        }
        lemma_no_picked_no_events(s.drop_last(), p);
        assert(!coin_picked(s[s.len() - 1], p));
    }
}

/// Law of the pickup pass: destruction is atomic with emission, so no
/// coin is ever paid out twice.  Running the pass again on what the
/// first pass left emits nothing at all.
pub proof fn lemma_pickup_at_most_once(s: Seq<Entity>, p: Entity)
    ensures
        coin_events_of(coins_kept(s, p), p) =~= Seq::<CoinTouchedEvent>::empty(),
{
    let pred = |e: Entity| coin_picked(e, p);
    crate::world::lemma_reject_none_match(s, pred);
    lemma_no_picked_no_events(coins_kept(s, p), p);
}

/// Law of the pickup pass, by identity: a picked coin's identity is gone
/// from the pass's result, so no later pass can see that entity again
/// (fresh spawns never reuse an identity).
pub proof fn lemma_picked_coin_removed(s: Seq<Entity>, p: Entity, i: int)
    requires
        forall|a: int, b: int| 0 <= a < b < s.len() ==> s[a].id != s[b].id,
        0 <= i < s.len(),
        coin_picked(s[i], p),
    ensures
        forall|k: int|
            0 <= k < coins_kept(s, p).len() ==> (#[trigger] coins_kept(s, p)[k]).id != s[i].id,
{
    let pred = |e: Entity| coin_picked(e, p);
    lemma_reject_sub(s, pred);
    crate::world::lemma_reject_none_match(s, pred);
    assert forall|k: int| 0 <= k < coins_kept(s, p).len() implies (#[trigger] coins_kept(s, p)[k]).id
        != s[i].id by {
        assert(s.contains(coins_kept(s, p)[k]));
        let j = choose|j: int| 0 <= j < s.len() && s[j] == coins_kept(s, p)[k];
        if j != i {
            if j < i {
                assert(s[j].id != s[i].id);
            } else {
                assert(s[i].id != s[j].id);
            }
        }
    }
}

/// Pickup events of a well-formed world carry non-negative rewards.
pub proof fn lemma_coin_events_nonneg(s: Seq<Entity>, p: Entity)
    requires
        forall|i: int| 0 <= i < s.len() ==> (#[trigger] s[i]).wf(),
    ensures
        forall|k: int|
            0 <= k < coin_events_of(s, p).len() ==> (#[trigger] coin_events_of(s, p)[k]).value
                >= 0,
    decreases s.len(),
{
    if s.len() > 0 {
        assert forall|i: int| 0 <= i < s.drop_last().len() implies (#[trigger] s.drop_last()[i]).wf() by {
            assert(s.drop_last()[i] == s[i]);
        }
        lemma_coin_events_nonneg(s.drop_last(), p);
        assert(s.last().wf());
        assert forall|k: int| 0 <= k < coin_events_of(s, p).len() implies (#[trigger] coin_events_of(
            s,
            p,
        )[k]).value >= 0 by {
            let rest = coin_events_of(s.drop_last(), p);
            if k < rest.len() {
                assert(coin_events_of(s, p)[k] == rest[k]);
            }
        }
    }
}

/// The pickup pass: every coin overlapping the single player emits one
/// `CoinTouchedEvent` and is destroyed in the same pass, so no coin can
/// ever produce a second event.  Without exactly one player the pass is
/// skipped for this tick.
pub fn check_if_touch_player(world: &mut World) -> (events: Vec<CoinTouchedEvent>)
    requires
        old(world).wf(),
    ensures
        final(world).wf(),
        final(world).next_id == old(world).next_id,
        player_count(old(world).entities@) == 1 ==> {
            &&& final(world).entities@ == coins_kept(
                old(world).entities@,
                the_player(old(world).entities@),
            )
            &&& events@ == coin_events_of(old(world).entities@, the_player(old(world).entities@))
        },
        player_count(old(world).entities@) != 1 ==> final(world).entities@ == old(world).entities@
            && events@ == Seq::<CoinTouchedEvent>::empty(),
{
    let ghost orig = world.entities@;
    let player_at = match find_single_player(&world.entities) {
        Option::Some(i) => i,
        Option::None => {
            let events: Vec<CoinTouchedEvent> = Vec::new();
            proof {
                assert(events@ =~= Seq::<CoinTouchedEvent>::empty());
            }
            return events;
        },
    };
    let p = world.entities[player_at];
    let ghost pred = |e: Entity| coin_picked(e, p);
    let n = world.entities.len();
    let mut kept: Vec<Entity> = Vec::new();
    let mut events: Vec<CoinTouchedEvent> = Vec::new();
    let mut i: usize = 0;
    while i < n
        invariant
            world.wf(),
            n == world.entities@.len(),
            orig == world.entities@,
            i <= n,
            p.wf(),
            p == the_player(orig),
            pred == (|e: Entity| coin_picked(e, p)),
            kept@ == reject_matching(orig.take(i as int), pred),
            events@ == coin_events_of(orig.take(i as int), p),
        decreases n - i,
    {
        proof {
            lemma_take_succ(orig, i as int);
        }
        let e = world.entities[i];
        let mut picked = false;
        let mut value: i64 = 0;
        if let Option::Some(c) = e.coin {
            if e.movement.is_some() && aabb_overlap(&e, &p) {
                picked = true;
                value = c.value;
            }
        }
        if picked {
            events.push(CoinTouchedEvent { value });
        } else {
            kept.push(e);
        }
        i = i + 1;
    }
    proof {
        assert(orig.take(n as int) =~= orig);
        lemma_reject_sub(orig, pred);
        lemma_reject_distinct(orig, pred);
        assert forall|k: int| 0 <= k < kept@.len() implies (#[trigger] kept@[k]).wf()
            && kept@[k].id < world.next_id by {
            assert(orig.contains(kept@[k]));
            let oi = choose|oi: int| 0 <= oi < orig.len() && orig[oi] == kept@[k];
            assert(orig[oi].wf());
        }
    }
    world.entities = kept;
    events
}

/// One entity after the coin-animation tick.
pub open spec fn coin_animated(e: Entity, dt: u64) -> Entity {
    match (e.coin, e.animation) {
        (Option::Some(_), Option::Some(a)) => Entity { animation: Option::Some(a.ticked(dt)), ..e },
        _ => e,
    }
}

/// Advances every coin's looping sprite animation by `dt` milliseconds.
pub fn animate_sprite(world: &mut World, dt: u64)
    requires
        old(world).wf(),
        dt <= DT_MAX,
    ensures
        final(world).wf(),
        final(world).entities@ == old(world).entities@.map_values(
            |e: Entity| coin_animated(e, dt),
        ),
        final(world).next_id == old(world).next_id,
{
    let ghost orig = world.entities@;
    let n = world.entities.len();
    let mut i: usize = 0;
    while i < n
        invariant
            world.wf(),
            n == world.entities@.len(),
            orig.len() == n,
            i <= n,
            dt <= DT_MAX,
            world.next_id == old(world).next_id,
            forall|j: int|
                0 <= j < i ==> world.entities@[j] == coin_animated(#[trigger] orig[j], dt),
            forall|j: int| i <= j < n ==> world.entities@[j] == #[trigger] orig[j],
        decreases n - i,
    {
        let e = world.entities[i];
        if e.coin.is_some() {
            if let Option::Some(mut a) = e.animation {
                a.tick(dt);
                world.entities[i] = Entity { animation: Option::Some(a), ..e };
            }
        }
        i = i + 1;
    }
    proof {
        assert(world.entities@ =~= orig.map_values(|e: Entity| coin_animated(e, dt)));
    }
}

} // verus!
