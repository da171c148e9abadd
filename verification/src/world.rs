//! The entity registry.
//!
//! Entities are plain component bundles held in one vector, each with a
//! fresh numeric identity and a lifecycle scope that decides when it is
//! bulk-destroyed.  Systems are passes over this vector.

use vstd::prelude::*;

use crate::coin::Coin;
use crate::knife::Knife;
use crate::main_menu::MenuButton;
use crate::math::{Transform, Vec2};
use crate::movement::Movement;
use crate::player::Player;
use crate::terrain::Terrain;
use crate::timer::AnimationTimer;
use crate::ui::{LevelText, PointsText};

verus! {

/// Lifecycle scope: when the matching game state is left, every entity of
/// that scope is destroyed in one pass.
#[derive(Clone, Copy, PartialEq, Eq, Structural, Debug)]
pub enum Scope {
    Menu,
    Playing,
    Persistent,
}

/// Largest sprite base size, in micro-units (1000 units).
pub const SIZE_MAX: i64 = 1_000_000_000;

/// Largest scale, in milli (one million times).
pub const SCALE_MAX: i64 = 1_000_000_000;

/// Largest mass of a body.
pub const MASS_MAX: i64 = 1_000_000;

/// Largest walking speed, in milli-units per second.
pub const SPEED_MAX: i64 = 1_000_000_000;

/// Largest reward a coin can carry.
pub const COIN_VALUE_MAX: i64 = 1_000_000;

/// Largest damage a knife can carry.
pub const DAMAGE_MAX: i64 = 1_000_000;

/// One entity: an identity, a lifecycle scope, a placement, a declared
/// sprite size, and the optional components the systems dispatch on.
#[derive(Clone, Copy, PartialEq, Eq, Structural, Debug)]
pub struct Entity {
    pub id: u64,
    pub scope: Scope,
    pub transform: Transform,
    /// Base size of the entity's sprite, in micro-units.  Every spawn path
    /// sets a positive size: a missing size would be a construction error,
    /// and the registry invariant rules it out.
    pub sprite_size: Vec2,
    pub movement: Option<Movement>,
    pub player: Option<Player>,
    pub terrain: Option<Terrain>,
    pub coin: Option<Coin>,
    pub knife: Option<Knife>,
    pub animation: Option<AnimationTimer>,
    pub points_text: Option<PointsText>,
    pub level_text: Option<LevelText>,
    pub menu_button: Option<MenuButton>,
}

impl Entity {
    /// Per-entity well-formedness: sizes and scales are positive and
    /// bounded, component scalars sit in their documented ranges, and the
    /// facing direction is one of the two unit directions.
    pub open spec fn wf(self) -> bool {
        &&& 1 <= self.sprite_size.x <= SIZE_MAX
        &&& 1 <= self.sprite_size.y <= SIZE_MAX
        &&& 1 <= self.transform.scale.x <= SCALE_MAX
        &&& 1 <= self.transform.scale.y <= SCALE_MAX
        &&& match self.movement {
            Option::Some(m) => {
                &&& 0 <= m.body.mass <= MASS_MAX
                &&& (m.body.direction == 1 || m.body.direction == -1)
            },
            Option::None => true,
        }
        &&& match self.player {
            Option::Some(p) => 0 <= p.speed <= SPEED_MAX,
            Option::None => true,
        }
        &&& match self.coin {
            Option::Some(c) => 0 <= c.value <= COIN_VALUE_MAX,
            Option::None => true,
        }
        &&& match self.knife {
            Option::Some(k) => 0 <= k.damage <= DAMAGE_MAX,
            Option::None => true,
        }
        &&& match self.animation {
            Option::Some(a) => a.wf(),
            Option::None => true,
        }
    }
}

/// The registry: the live entities and the next identity to hand out.
#[derive(Debug)]
pub struct World {
    pub entities: Vec<Entity>,
    pub next_id: u64,
}

impl World {
    /// Registry well-formedness: every entity is well formed, identities
    /// are pairwise distinct, and all sit below the next one to hand out.
    pub open spec fn wf(self) -> bool {
        &&& forall|i: int|
            0 <= i < self.entities@.len() ==> (#[trigger] self.entities@[i]).wf()
        &&& forall|i: int|
            0 <= i < self.entities@.len() ==> (#[trigger] self.entities@[i]).id < self.next_id
        &&& forall|i: int, j: int|
            0 <= i < j < self.entities@.len()
                ==> #[trigger] self.entities@[i].id != #[trigger] self.entities@[j].id
    }

    /// An empty registry.
    pub fn new() -> (r: World)
        ensures
            r.entities@ =~= Seq::<Entity>::empty(),
            r.next_id == 0,
            r.wf(),
    {
        World { entities: Vec::new(), next_id: 0 }
    }

    /// Whether some live entity carries the identity `id`.
    pub open spec fn has_id(self, id: u64) -> bool {
        exists|i: int| 0 <= i < self.entities@.len() && (#[trigger] self.entities@[i]).id == id
    }

    /// Adds `e` to the registry under a fresh identity (whatever identity
    /// the argument carried is replaced).  Returns the identity assigned.
    pub fn spawn(&mut self, e: Entity) -> (id: u64)
        requires
            old(self).wf(),
            e.wf(),
            old(self).next_id < u64::MAX,
        ensures
            id == old(self).next_id,
            final(self).entities@ == old(self).entities@.push(
                Entity { id: old(self).next_id, ..e },
            ),
            final(self).next_id == old(self).next_id + 1,
            final(self).wf(),
            !old(self).has_id(id),
    {
        let id = self.next_id;
        let spawned = Entity { id, ..e };
        self.entities.push(spawned);
        self.next_id = self.next_id + 1;
        id
    }
}

/// Number of entities of `s` satisfying `pred`.
pub open spec fn count_matching(s: Seq<Entity>, pred: spec_fn(Entity) -> bool) -> int
    decreases s.len(),
{
    if s.len() == 0 {
        0
    } else {
        count_matching(s.drop_last(), pred) + if pred(s.last()) {
            1int
        } else {
            0int
        }
    }
}

/// The entities of `s` left after dropping every one satisfying `pred`,
/// in their original order.
pub open spec fn reject_matching(s: Seq<Entity>, pred: spec_fn(Entity) -> bool) -> Seq<Entity>
    decreases s.len(),
{
    if s.len() == 0 {
        Seq::<Entity>::empty()
    } else {
        let rest = reject_matching(s.drop_last(), pred);
        if pred(s.last()) {
            rest
        } else {
            rest.push(s.last())
        }
    }
}

/// A count of matches is never negative.
pub proof fn lemma_count_nonneg(s: Seq<Entity>, pred: spec_fn(Entity) -> bool)
    ensures
        count_matching(s, pred) >= 0,
    decreases s.len(),
{
    if s.len() > 0 {
        lemma_count_nonneg(s.drop_last(), pred);
    }
}

/// An entity matching `pred` makes the count positive.
pub proof fn lemma_matching_present(s: Seq<Entity>, pred: spec_fn(Entity) -> bool, i: int)
    requires
        0 <= i < s.len(),
        pred(s[i]),
    ensures
        count_matching(s, pred) >= 1,
    decreases s.len(),
{
    if i < s.len() - 1 {
        lemma_matching_present(s.drop_last(), pred, i);
        assert(count_matching(s, pred) >= count_matching(s.drop_last(), pred));
    } else {
        lemma_count_nonneg(s.drop_last(), pred);
        assert(pred(s.last()));
    }
}

/// A positive count of matches yields a matching index.
pub proof fn lemma_matching_exists(s: Seq<Entity>, pred: spec_fn(Entity) -> bool)
    requires
        count_matching(s, pred) >= 1,
    ensures
        exists|i: int| 0 <= i < s.len() && pred(#[trigger] s[i]),
    decreases s.len(),
{
    if pred(s.last()) {
        assert(pred(s[s.len() - 1]));
    } else {
        lemma_matching_exists(s.drop_last(), pred);
        let i = choose|i: int| 0 <= i < s.drop_last().len() && pred(#[trigger] s.drop_last()[i]);
        assert(pred(s[i]));
    }
}

/// With exactly one match in `s`, any two matching indices coincide.
pub proof fn lemma_matching_unique(s: Seq<Entity>, pred: spec_fn(Entity) -> bool, i: int, j: int)
    requires
        count_matching(s, pred) == 1,
        0 <= i < s.len(),
        0 <= j < s.len(),
        pred(s[i]),
        pred(s[j]),
    ensures
        i == j,
    decreases s.len(),
{
    if i != j {
        let last = s.len() - 1;
        if i == last {
            lemma_matching_present(s.drop_last(), pred, j);
        } else if j == last {
            lemma_matching_present(s.drop_last(), pred, i);
        } else {
            if pred(s.last()) {
                lemma_matching_present(s.drop_last(), pred, i);
            } else {
                lemma_matching_unique(s.drop_last(), pred, i, j);
            }
        }
    }
}

/// Every entity the rejection keeps already stood in `s`.
pub proof fn lemma_reject_sub(s: Seq<Entity>, pred: spec_fn(Entity) -> bool)
    ensures
        forall|k: int|
            0 <= k < reject_matching(s, pred).len() ==> s.contains(
                #[trigger] reject_matching(s, pred)[k],
            ),
    decreases s.len(),
{
    if s.len() > 0 {
        lemma_reject_sub(s.drop_last(), pred);
        assert forall|k: int| 0 <= k < reject_matching(s, pred).len() implies s.contains(
            #[trigger] reject_matching(s, pred)[k],
        ) by {
            let rest = reject_matching(s.drop_last(), pred);
            if k < rest.len() {
                let e = rest[k];
                let i = choose|i: int| 0 <= i < s.drop_last().len() && s.drop_last()[i] == e;
                assert(s[i] == e);
            } else {
                assert(reject_matching(s, pred)[k] == s.last());
                assert(s[s.len() - 1] == s.last());
            }
        }
    }
}

/// Nothing the rejection keeps still satisfies `pred`.
pub proof fn lemma_reject_none_match(s: Seq<Entity>, pred: spec_fn(Entity) -> bool)
    ensures
        forall|k: int|
            0 <= k < reject_matching(s, pred).len() ==> !pred(
                #[trigger] reject_matching(s, pred)[k],
            ),
    decreases s.len(),
{
    if s.len() > 0 {
        lemma_reject_none_match(s.drop_last(), pred);
        let rest = reject_matching(s.drop_last(), pred);
        assert forall|k: int| 0 <= k < reject_matching(s, pred).len() implies !pred(
            #[trigger] reject_matching(s, pred)[k],
        ) by {
            if k < rest.len() {
                assert(reject_matching(s, pred)[k] == rest[k]);
            } else {
                assert(!pred(s.last()));
            }
        }
    }
}

/// Rejection keeps identities pairwise distinct.
pub proof fn lemma_reject_distinct(s: Seq<Entity>, pred: spec_fn(Entity) -> bool)
    requires
        forall|i: int, j: int| 0 <= i < j < s.len() ==> s[i].id != s[j].id,
    ensures
        forall|a: int, b: int|
            0 <= a < b < reject_matching(s, pred).len() ==> reject_matching(s, pred)[a].id
                != reject_matching(s, pred)[b].id,
    decreases s.len(),
{
    if s.len() > 0 {
        lemma_reject_distinct(s.drop_last(), pred);
        lemma_reject_sub(s.drop_last(), pred);
        let kept = reject_matching(s, pred);
        let rest = reject_matching(s.drop_last(), pred);
        assert forall|a: int, b: int| 0 <= a < b < kept.len() implies kept[a].id != kept[b].id by {
            if b < rest.len() {
            } else if !pred(s.last()) && b == rest.len() {
                let e = rest[a];
                let i = choose|i: int| 0 <= i < s.drop_last().len() && s.drop_last()[i] == e;
                assert(s[i] == e);
                assert(s[i].id != s[s.len() - 1].id);
            }
        }
    }
}

/// Whether `e` carries a player component.
pub open spec fn is_player(e: Entity) -> bool {
    e.player.is_some()
}

/// Whether `e` carries a terrain component.
pub open spec fn is_terrain(e: Entity) -> bool {
    e.terrain.is_some()
}

/// Number of entities of `s` carrying a player component.
pub open spec fn player_count(s: Seq<Entity>) -> int {
    count_matching(s, |e: Entity| is_player(e))
}

/// Number of entities of `s` carrying a terrain component.
pub open spec fn terrain_count(s: Seq<Entity>) -> int {
    count_matching(s, |e: Entity| is_terrain(e))
}

/// Index of the player entity, meaningful when there is exactly one.
pub open spec fn player_index(s: Seq<Entity>) -> int {
    choose|i: int| 0 <= i < s.len() && is_player(s[i])
}

/// The single player entity of `s`, meaningful when there is exactly one.
pub open spec fn the_player(s: Seq<Entity>) -> Entity {
    s[player_index(s)]
}

/// Index of the terrain entity, meaningful when there is exactly one.
pub open spec fn terrain_index(s: Seq<Entity>) -> int {
    choose|i: int| 0 <= i < s.len() && is_terrain(s[i])
}

/// The single terrain entity of `s`, meaningful when there is exactly one.
pub open spec fn the_terrain(s: Seq<Entity>) -> Entity {
    s[terrain_index(s)]
}

/// Extending a prefix of `s` by one element: the recursive spec functions
/// over sequences peel the last element, so a loop walking forward grows
/// `s.take(i)` one element at a time.
pub proof fn lemma_take_succ<A>(s: Seq<A>, i: int)
    requires
        0 <= i < s.len(),
    ensures
        s.take(i + 1).drop_last() == s.take(i),
        s.take(i + 1).last() == s[i],
{
    assert(s.take(i + 1).drop_last() =~= s.take(i));
}

/// Finds the index of the single entity with a player component, or
/// reports that there is not exactly one ("first/only match wins": a
/// missing or ambiguous player short-circuits the caller's whole pass).
pub fn find_single_player(entities: &Vec<Entity>) -> (r: Option<usize>)
    ensures
        match r {
            Option::Some(i) => {
                &&& player_count(entities@) == 1
                &&& i < entities@.len()
                &&& entities@[i as int].player.is_some()
                &&& entities@[i as int] == the_player(entities@)
            },
            Option::None => player_count(entities@) != 1,
        },
{
    let n = entities.len();
    let mut count: usize = 0;
    let mut found: usize = 0;
    let mut i: usize = 0;
    while i < n
        invariant
            n == entities@.len(),
            i <= n,
            count <= i,
            count == player_count(entities@.take(i as int)),
            count > 0 ==> found < i && entities@[found as int].player.is_some(),
        decreases n - i,
    {
        proof {
            lemma_take_succ(entities@, i as int);
        }
        if entities[i].player.is_some() {
            count = count + 1;
            found = i;
        }
        i = i + 1;
    }
    proof {
        assert(entities@.take(n as int) =~= entities@);
    }
    if count == 1 {
        proof {
            lemma_matching_unique(
                entities@,
                |e: Entity| is_player(e),
                found as int,
                player_index(entities@),
            );
        }
        Some(found)
    } else {
        None
    }
}

/// Finds the index of the single entity with a terrain component, or
/// reports that there is not exactly one.
pub fn find_single_terrain(entities: &Vec<Entity>) -> (r: Option<usize>)
    ensures
        match r {
            Option::Some(i) => {
                &&& terrain_count(entities@) == 1
                &&& i < entities@.len()
                &&& entities@[i as int].terrain.is_some()
                &&& entities@[i as int] == the_terrain(entities@)
            },
            Option::None => terrain_count(entities@) != 1,
        },
{
    let n = entities.len();
    let mut count: usize = 0;
    let mut found: usize = 0;
    let mut i: usize = 0;
    while i < n
        invariant
            n == entities@.len(),
            i <= n,
            count <= i,
            count == terrain_count(entities@.take(i as int)),
            count > 0 ==> found < i && entities@[found as int].terrain.is_some(),
        decreases n - i,
    {
        proof {
            lemma_take_succ(entities@, i as int);
        }
        if entities[i].terrain.is_some() {
            count = count + 1;
            found = i;
        }
        i = i + 1;
    }
    proof {
        assert(entities@.take(n as int) =~= entities@);
    }
    if count == 1 {
        proof {
            lemma_matching_unique(
                entities@,
                |e: Entity| is_terrain(e),
                found as int,
                terrain_index(entities@),
            );
        }
        Some(found)
    } else {
        None
    }
}

} // verus!
