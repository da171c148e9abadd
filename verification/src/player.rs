//! The player avatar: its spawn shape, input handling, animation state
//! machine, window clamping, and the listeners that turn collision events
//! into score and state changes.

use vstd::prelude::*;

use crate::coin::CoinTouchedEvent;
use crate::collision::half_extent;
use crate::flow::GameState;
use crate::gravity::Gravity;
use crate::knife::PlayerHitEvent;
use crate::math::{sat64, sat_add, Transform, Vec2};
use crate::movement::{Body, Movement};
use crate::player_input::{InputDirection, MovementInputEvent};
use crate::points::Points;
use crate::timer::{AnimationTimer, Timer, ANIMATION_PERIOD_MS, DT_MAX};
use crate::world::{
    find_single_player, player_count, player_index, the_player, Entity, Scope, World, SCALE_MAX,
    SIZE_MAX,
};
use crate::{Window, SPRITE_SCALE_MILLI, SPRITE_SIZE_MICRO};

verus! {

/// Horizontal walking speed of the player, in milli-units per second
/// (500 units per second).
pub const PLAYER_SPEED: i64 = 500_000;

/// Animation state of the player, switched by horizontal velocity.
#[derive(Clone, Copy, PartialEq, Eq, Structural, Debug)]
pub enum PlayerState {
    Idle,
    Walking,
}

/// The player component: walking speed and current animation state.
#[derive(Clone, Copy, PartialEq, Eq, Structural, Debug)]
pub struct Player {
    pub speed: i64,
    pub state: PlayerState,
}

/// The entity entering the playing state creates for the player: a
/// playing-scoped, animated sprite at the window centre with a stock
/// body.
pub open spec fn player_entity(id: u64) -> Entity {
    Entity {
        id,
        scope: Scope::Playing,
        transform: Transform {
            translation: Vec2 { x: 0, y: 0 },
            scale: Vec2 { x: SPRITE_SCALE_MILLI, y: SPRITE_SCALE_MILLI },
        },
        sprite_size: Vec2 { x: SPRITE_SIZE_MICRO, y: SPRITE_SIZE_MICRO },
        movement: Option::Some(
            Movement {
                gravity: Gravity { is_touching_terrain: false },
                body: Body { mass: 100, velocity: Vec2 { x: 0, y: 0 }, direction: 1 },
            },
        ),
        player: Option::Some(Player { speed: PLAYER_SPEED, state: PlayerState::Idle }),
        terrain: Option::None,
        coin: Option::None,
        knife: Option::None,
        animation: Option::Some(
            AnimationTimer {
                timer: Timer { period_ms: ANIMATION_PERIOD_MS, elapsed_ms: 0, finished: false },
                frame: 0,
            },
        ),
        points_text: Option::None,
        level_text: Option::None,
        menu_button: Option::None,
    }
}

/// Creates the player avatar.
pub fn spawn_player(world: &mut World)
    requires
        old(world).wf(),
        old(world).next_id < u64::MAX,
    ensures
        final(world).wf(),
        final(world).entities@ == old(world).entities@.push(player_entity(old(world).next_id)),
        final(world).next_id == old(world).next_id + 1,
{
    let e = Entity {
        id: 0,
        scope: Scope::Playing,
        transform: Transform {
            translation: Vec2 { x: 0, y: 0 },
            scale: Vec2 { x: SPRITE_SCALE_MILLI, y: SPRITE_SCALE_MILLI },
        },
        sprite_size: Vec2 { x: SPRITE_SIZE_MICRO, y: SPRITE_SIZE_MICRO },
        movement: Option::Some(
            Movement { gravity: Gravity { is_touching_terrain: false }, body: Body::default() },
        ),
        player: Option::Some(Player { speed: PLAYER_SPEED, state: PlayerState::Idle }),
        terrain: Option::None,
        coin: Option::None,
        knife: Option::None,
        animation: Option::Some(AnimationTimer::new()),
        points_text: Option::None,
        level_text: Option::None,
        menu_button: Option::None,
    };
    let ghost next = world.next_id;
    world.spawn(e);
    proof {
        assert(world.entities@.last() == player_entity(next));
        assert(world.entities@ =~= old(world).entities@.push(player_entity(next)));
    }
}

/// The horizontal velocity one input direction asks of a player with the
/// given speed.
pub open spec fn direction_velocity(d: InputDirection, speed: i64) -> int {
    match d {
        InputDirection::Left => -(speed as int),
        InputDirection::Right => speed as int,
        InputDirection::Still => 0,
    }
}

/// The entities after this tick's movement input: with exactly one
/// player, its horizontal velocity becomes what the latest event asks
/// for (each event overwrites the one before it).  With no event, no
/// player, or a player that cannot move, nothing changes.
pub open spec fn input_applied(s: Seq<Entity>, events: Seq<MovementInputEvent>) -> Seq<Entity> {
    if player_count(s) == 1 && events.len() > 0 && the_player(s).movement.is_some() {
        let e = the_player(s);
        let m = e.movement->Some_0;
        let p = e.player->Some_0;
        s.update(
            player_index(s),
            Entity {
                movement: Option::Some(
                    Movement {
                        body: Body {
                            velocity: Vec2 {
                                x: direction_velocity(events.last().direction, p.speed) as i64,
                                y: m.body.velocity.y,
                            },
                            ..m.body
                        },
                        ..m
                    },
                ),
                ..e
            },
        )
    } else {
        s
    }
}

/// Applies this tick's movement input to the single player's horizontal
/// velocity.
pub fn listen_movement_input(world: &mut World, events: &Vec<MovementInputEvent>)
    requires
        old(world).wf(),
    ensures
        final(world).wf(),
        final(world).next_id == old(world).next_id,
        final(world).entities@ == input_applied(old(world).entities@, events@),
{
    let ghost orig = world.entities@;
    if events.len() == 0 {
        return ;
    }
    let player_at = match find_single_player(&world.entities) {
        Option::Some(i) => i,
        Option::None => {
            return ;
        },
    };
    let e = world.entities[player_at];
    let (p, m) = match (e.player, e.movement) {
        (Option::Some(p), Option::Some(m)) => (p, m),
        _ => {
            return ;
        },
    };
    let last = events[events.len() - 1];
    let vx: i64 = match last.direction {
        InputDirection::Left => -p.speed,
        InputDirection::Right => p.speed,
        InputDirection::Still => 0,
    };
    let updated = Entity {
        movement: Option::Some(
            Movement {
                body: Body { velocity: Vec2 { x: vx, y: m.body.velocity.y }, ..m.body },
                ..m
            },
        ),
        ..e
    };
    world.entities[player_at] = updated;
    proof {
        assert(events@.last() == events@[events@.len() - 1]);
        assert(world.entities@ =~= input_applied(orig, events@));
    }
}

/// Any knife hit sends the run back to the menu: the next pending state
/// becomes `Menu` and takes effect at the next tick boundary.
pub fn listen_for_knives(events: &Vec<PlayerHitEvent>, next_state: &mut Option<GameState>)
    ensures
        events@.len() > 0 ==> *final(next_state) == Option::Some(GameState::Menu),
        events@.len() == 0 ==> *final(next_state) == *old(next_state),
{
    if events.len() > 0 {
        *next_state = Some(GameState::Menu);
    }
}

/// Total reward of a batch of pickup events.
pub open spec fn coin_events_sum(events: Seq<CoinTouchedEvent>) -> int
    decreases events.len(),
{
    if events.len() == 0 {
        0
    } else {
        coin_events_sum(events.drop_last()) + events.last().value
    }
}

/// A batch of non-negative rewards sums to something non-negative.
pub proof fn lemma_coin_events_sum_nonneg(events: Seq<CoinTouchedEvent>)
    requires
        forall|i: int| 0 <= i < events.len() ==> (#[trigger] events[i]).value >= 0,
    ensures
        coin_events_sum(events) >= 0,
    decreases events.len(),
{
    if events.len() > 0 {
        lemma_coin_events_sum_nonneg(events.drop_last());
    }
}

/// Adds every picked coin's reward to the score: the score after a batch
/// of pickups is the score before it plus the sum of the rewards,
/// saturating only at the representable range.
pub fn listen_for_coins(events: &Vec<CoinTouchedEvent>, points: &mut Points)
    requires
        forall|i: int| 0 <= i < events@.len() ==> (#[trigger] events@[i]).value >= 0,
    ensures
        final(points).value as int == sat64(old(points).value + coin_events_sum(events@)),
{
    let ghost p0 = points.value as int;
    let n = events.len();
    let mut i: usize = 0;
    while i < n
        invariant
            n == events@.len(),
            i <= n,
            p0 == old(points).value as int,
            forall|k: int| 0 <= k < events@.len() ==> (#[trigger] events@[k]).value >= 0,
            points.value as int == sat64(p0 + coin_events_sum(events@.take(i as int))),
        decreases n - i,
    {
        proof {
            crate::world::lemma_take_succ(events@, i as int);
            lemma_coin_events_sum_nonneg(events@.take(i as int));
            assert(events@.take(i + 1).last() == events@[i as int]);
        }
        points.value = sat_add(points.value, events[i].value);
        i = i + 1;
    }
    proof {
        assert(events@.take(n as int) =~= events@);
    }
}

/// Law of score accounting: after a batch of pickups whose total stays
/// representable, the score is exactly the score before the batch plus
/// the sum of the picked rewards (`listen_for_coins` clamps only at the
/// representable range, which this premise rules out).
pub proof fn lemma_score_adds_exact(pre: i64, events: Seq<CoinTouchedEvent>)
    requires
        forall|i: int| 0 <= i < events.len() ==> (#[trigger] events[i]).value >= 0,
        pre + coin_events_sum(events) <= i64::MAX,
    ensures
        sat64(pre + coin_events_sum(events)) == pre + coin_events_sum(events),
{
    lemma_coin_events_sum_nonneg(events);
}

/// One entity after the animation state machine: the single-purpose
/// transition between idle and walking.  A player whose horizontal
/// velocity is zero goes idle; one whose horizontal velocity is not goes
/// walking; on either switch the animation starts over at its first
/// frame (the renderer swaps the sprite strip to match the state).
pub open spec fn state_machine_stepped(e: Entity) -> Entity {
    match (e.player, e.movement, e.animation) {
        (Option::Some(p), Option::Some(m), Option::Some(_)) => {
            if m.body.velocity.x == 0 && p.state != PlayerState::Idle {
                Entity {
                    player: Option::Some(Player { state: PlayerState::Idle, ..p }),
                    animation: Option::Some(
                        AnimationTimer {
                            timer: Timer {
                                period_ms: ANIMATION_PERIOD_MS,
                                elapsed_ms: 0,
                                finished: false,
                            },
                            frame: 0,
                        },
                    ),
                    ..e
                }
            } else if m.body.velocity.x != 0 && p.state != PlayerState::Walking {
                Entity {
                    player: Option::Some(Player { state: PlayerState::Walking, ..p }),
                    animation: Option::Some(
                        AnimationTimer {
                            timer: Timer {
                                period_ms: ANIMATION_PERIOD_MS,
                                elapsed_ms: 0,
                                finished: false,
                            },
                            frame: 0,
                        },
                    ),
                    ..e
                }
            } else {
                e
            }
        },
        _ => e,
    }
}

/// Switches every player between idle and walking from its horizontal
/// velocity, restarting the animation on each switch.
pub fn basic_state_machine(world: &mut World)
    requires
        old(world).wf(),
    ensures
        final(world).wf(),
        final(world).next_id == old(world).next_id,
        final(world).entities@ == old(world).entities@.map_values(
            |e: Entity| state_machine_stepped(e),
        ),
{
    let ghost orig = world.entities@;
    let n = world.entities.len();
    let mut i: usize = 0;
    while i < n
        invariant
            world.wf(),
            n == world.entities@.len(),
            orig.len() == n,
            i <= n,
            world.next_id == old(world).next_id,
            forall|j: int|
                0 <= j < i ==> world.entities@[j] == state_machine_stepped(#[trigger] orig[j]),
            forall|j: int| i <= j < n ==> world.entities@[j] == #[trigger] orig[j],
        decreases n - i,
    {
        let e = world.entities[i];
        if let (Option::Some(p), Option::Some(m), Option::Some(_)) = (
            e.player,
            e.movement,
            e.animation,
        ) {
            if m.body.velocity.x == 0 && !(p.state == PlayerState::Idle) {
                world.entities[i] = Entity {
                    player: Option::Some(Player { state: PlayerState::Idle, ..p }),
                    animation: Option::Some(AnimationTimer::new()),
                    ..e
                };
            } else if m.body.velocity.x != 0 && !(p.state == PlayerState::Walking) {
                world.entities[i] = Entity {
                    player: Option::Some(Player { state: PlayerState::Walking, ..p }),
                    animation: Option::Some(AnimationTimer::new()),
                    ..e
                };
            }
        }
        i = i + 1;
    }
    proof {
        assert(world.entities@ =~= orig.map_values(|e: Entity| state_machine_stepped(e)));
    }
}

/// One axis of the window clamp, over mathematical integers.
pub open spec fn clamped_axis(pos: int, lo: int, hi: int) -> int {
    if lo <= hi {
        if pos < lo {
            lo
        } else if pos > hi {
            hi
        } else {
            pos
        }
    } else {
        pos
    }
}

/// One entity after the window clamp: a player's position is pulled back
/// inside the window on both axes, leaving half a scaled sprite of
/// margin.  A sprite too large for the window leaves that axis alone
/// rather than folding the bounds over each other.
pub open spec fn clamped_to_window(e: Entity, window: crate::Window) -> Entity {
    if e.player.is_some() {
        let hw = window.width / 2;
        let hh = window.height / 2;
        let hx = half_extent(e.sprite_size.x, e.transform.scale.x);
        let hy = half_extent(e.sprite_size.y, e.transform.scale.y);
        Entity {
            transform: Transform {
                translation: Vec2 {
                    x: clamped_axis(e.transform.translation.x as int, -hw + hx, hw - hx) as i64,
                    y: clamped_axis(e.transform.translation.y as int, -hh + hy, hh - hy) as i64,
                },
                scale: e.transform.scale,
            },
            ..e
        }
    } else {
        e
    }
}

/// One axis of the clamp: pulls `pos` into `[lo, hi]`, or leaves it
/// alone when the interval is empty.
fn clamp_axis(pos: i64, lo: i64, hi: i64) -> (r: i64)
    ensures
        r as int == clamped_axis(pos as int, lo as int, hi as int),
{
    if lo <= hi {
        if pos < lo {
            lo
        } else if pos > hi {
            hi
        } else {
            pos
        }
    } else {
        pos
    }
}

/// Half-extent of a scaled sprite axis as a machine integer.
fn half_extent_exec(size: i64, scale: i64) -> (r: i64)
    requires
        1 <= size <= SIZE_MAX,
        1 <= scale <= SCALE_MAX,
    ensures
        r as int == half_extent(size, scale),
        0 <= r <= 500_000_000_000_000,
{
    proof {
        assert(1 <= size * scale <= SIZE_MAX * SCALE_MAX) by (nonlinear_arith)
            requires
                1 <= size <= SIZE_MAX,
                1 <= scale <= SCALE_MAX,
        ;
    }
    ((size as u128) * (scale as u128) / 2000) as i64
}

/// Keeps every player inside the window, half a scaled sprite away from
/// each edge.
pub fn keep_player_in_bounds(world: &mut World, window: &Window)
    requires
        old(world).wf(),
        window.valid(),
    ensures
        final(world).wf(),
        final(world).next_id == old(world).next_id,
        final(world).entities@ == old(world).entities@.map_values(
            |e: Entity| clamped_to_window(e, *window),
        ),
{
    let ghost orig = world.entities@;
    let n = world.entities.len();
    let mut i: usize = 0;
    while i < n
        invariant
            world.wf(),
            n == world.entities@.len(),
            orig.len() == n,
            i <= n,
            window.valid(),
            world.next_id == old(world).next_id,
            forall|j: int|
                0 <= j < i ==> world.entities@[j] == clamped_to_window(#[trigger] orig[j], *window),
            forall|j: int| i <= j < n ==> world.entities@[j] == #[trigger] orig[j],
        decreases n - i,
    {
        let e = world.entities[i];
        if e.player.is_some() {
            let hw = window.width / 2;
            let hh = window.height / 2;
            let hx = half_extent_exec(e.sprite_size.x, e.transform.scale.x);
            let hy = half_extent_exec(e.sprite_size.y, e.transform.scale.y);
            let x = clamp_axis(e.transform.translation.x, -hw + hx, hw - hx);
            let y = clamp_axis(e.transform.translation.y, -hh + hy, hh - hy);
            world.entities[i] = Entity {
                transform: Transform { translation: Vec2 { x, y }, scale: e.transform.scale },
                ..e
            };
        }
        i = i + 1;
    }
    proof {
        assert(world.entities@ =~= orig.map_values(|e: Entity| clamped_to_window(e, *window)));
    }
}

/// One entity after the player-animation tick.
pub open spec fn player_animated(e: Entity, dt: u64) -> Entity {
    match (e.player, e.animation) {
        (Option::Some(_), Option::Some(a)) => Entity { animation: Option::Some(a.ticked(dt)), ..e },
        _ => e,
    }
}

/// Advances every player's looping sprite animation by `dt` milliseconds.
pub fn animate_sprite(world: &mut World, dt: u64)
    requires
        old(world).wf(),
        dt <= DT_MAX,
    ensures
        final(world).wf(),
        final(world).entities@ == old(world).entities@.map_values(
            |e: Entity| player_animated(e, dt),
        ),
        final(world).next_id == old(world).next_id,
{
    let ghost orig = world.entities@;
    let n = world.entities.len();
    let mut i: usize = 0;
    while i < n
        invariant
            world.wf(),
            n == world.entities@.len(),
            orig.len() == n,
            i <= n,
            dt <= DT_MAX,
            world.next_id == old(world).next_id,
            forall|j: int|
                0 <= j < i ==> world.entities@[j] == player_animated(#[trigger] orig[j], dt),
            forall|j: int| i <= j < n ==> world.entities@[j] == #[trigger] orig[j],
        decreases n - i,
    {
        let e = world.entities[i];
        if e.player.is_some() {
            if let Option::Some(mut a) = e.animation {
                a.tick(dt);
                world.entities[i] = Entity { animation: Option::Some(a), ..e };
            }
        }
        i = i + 1;
    }
    proof {
        assert(world.entities@ =~= orig.map_values(|e: Entity| player_animated(e, dt)));
    }
}

/// What the footstep channel should do after this tick.
#[derive(Clone, Copy, PartialEq, Eq, Structural, Debug)]
pub enum FootstepAction {
    /// Start the looped footstep sound.
    Start,
    /// Stop the footstep sound.
    Stop,
    /// Leave the channel as it is.
    Keep,
}

/// Decides the footstep sound from the single player's animation state
/// and whether the channel is already playing: walking starts the loop,
/// standing still stops it.  Without exactly one player the channel is
/// left alone.
pub fn play_footsteps(world: &World, channel_playing: bool) -> (action: FootstepAction)
    ensures
        action == (if player_count(world.entities@) == 1 {
            let p = the_player(world.entities@);
            if p.player->Some_0.state == PlayerState::Walking && !channel_playing {
                FootstepAction::Start
            } else if p.player->Some_0.state != PlayerState::Walking && channel_playing {
                FootstepAction::Stop
            } else {
                FootstepAction::Keep
            }
        } else {
            FootstepAction::Keep
        }),
{
    let player_at = match find_single_player(&world.entities) {
        Option::Some(i) => i,
        Option::None => {
            return FootstepAction::Keep;
        },
    };
    let e = world.entities[player_at];
    if let Option::Some(p) = e.player {
        if p.state == PlayerState::Walking && !channel_playing {
            FootstepAction::Start
        } else if !(p.state == PlayerState::Walking) && channel_playing {
            FootstepAction::Stop
        } else {
            FootstepAction::Keep
        }
    } else {
        FootstepAction::Keep
    }
}

} // verus!
