//! Game flow: the state machine's states, the level counter and its
//! timer, scoped cleanup, the transactional reset, and the per-tick
//! orchestrator that runs the simulation pipeline in its required order.

use vstd::prelude::*;

use crate::coin::{coin_animated, coin_entity, coin_events_of, coins_kept, CoinTouchedEvent};
use crate::coin_spawner::{spawn_top_y, spawn_x_max, spawn_x_min, CoinSpawnTimer};
use crate::gravity::{gravity_applied, ground_resolved};
use crate::knife::{
    hit_events_of, knife_entity, knives_kept, landed_knife_count, landed_knives_removed,
    PlayerHitEvent,
};
use crate::knife_spawner::{level_ups_applied, KnifeSpawnTimer};
use crate::main_menu::{button_entity, presses_contain, setup_menu, MenuButton};
use crate::math::{sat64, Vec2};
use crate::movement::{direction_checked, integrated};
use crate::player::{
    clamped_to_window, coin_events_sum, input_applied, player_animated, player_entity,
    spawn_player, state_machine_stepped,
};
use crate::player_input::{collapsed_direction, Key, MovementInputEvent};
use crate::points::Points;
use crate::terrain::{spawn_terrain, terrain_entity};
use crate::timer::{Timer, DT_MAX};
use crate::ui::{level_text_entity, points_text_entity, spawn_game_ui, widget_entity};
use crate::world::{
    lemma_reject_distinct, lemma_reject_sub, lemma_take_succ, player_count, reject_matching,
    terrain_count, the_player, the_terrain, Entity, Scope, World,
};
use crate::Window;

verus! {

/// The top-level game state.  `AssetLoading` leads to `Menu` once, when
/// the outside loader reports every collection ready; `Menu` and `Game`
/// alternate for as long as the process runs.
#[derive(Clone, Copy, PartialEq, Eq, Structural, Debug)]
pub enum GameState {
    AssetLoading,
    Menu,
    Game,
}

/// The difficulty counter, stepped by the level timer while playing.
#[derive(Clone, Copy, PartialEq, Eq, Structural, Debug)]
pub struct Level {
    pub value: i64,
}

/// Period of the level-up timer, in milliseconds.
pub const LEVEL_UP_TIMER_MS: u64 = 5000;

/// The repeating timer that raises the level.
#[derive(Clone, Copy, PartialEq, Eq, Structural, Debug)]
pub struct LevelIncreaseTimer(pub Timer);

impl Default for LevelIncreaseTimer {
    /// A fresh level timer over the standard period.
    fn default() -> (r: LevelIncreaseTimer)
        ensures
            r == (LevelIncreaseTimer(
                Timer { period_ms: LEVEL_UP_TIMER_MS, elapsed_ms: 0, finished: false },
            )),
    {
        LevelIncreaseTimer(Timer::new(LEVEL_UP_TIMER_MS))
    }
}

/// Raised once per level-up; the knife spawner listens and tightens its
/// cadence.
#[derive(Clone, Copy, PartialEq, Eq, Structural, Debug)]
pub struct LevelUpEvent;

/// The entities left after tearing down everything of one scope.
pub open spec fn scope_cleared(s: Seq<Entity>, scope: Scope) -> Seq<Entity> {
    reject_matching(s, |e: Entity| e.scope == scope)
}

/// Destroys every entity of the given lifecycle scope in one pass.
pub fn cleanup_system(world: &mut World, scope: Scope)
    requires
        old(world).wf(),
    ensures
        final(world).wf(),
        final(world).next_id == old(world).next_id,
        final(world).entities@ == scope_cleared(old(world).entities@, scope),
{
    let ghost orig = world.entities@;
    let ghost pred = |e: Entity| e.scope == scope;
    let n = world.entities.len();
    let mut kept: Vec<Entity> = Vec::new();
    let mut i: usize = 0;
    while i < n
        invariant
            world.wf(),
            n == world.entities@.len(),
            orig == world.entities@,
            i <= n,
            pred == (|e: Entity| e.scope == scope),
            kept@ == reject_matching(orig.take(i as int), pred),
        decreases n - i,
    {
        proof {
            lemma_take_succ(orig, i as int);
        }
        let e = world.entities[i];
        if !(e.scope == scope) {
            kept.push(e);
        }
        i = i + 1;
    }
    proof {
        assert(orig.take(n as int) =~= orig);
        lemma_reject_sub(orig, pred);
        lemma_reject_distinct(orig, pred);
        assert forall|k: int| 0 <= k < kept@.len() implies (#[trigger] kept@[k]).wf()
            && kept@[k].id < world.next_id by {
            assert(orig.contains(kept@[k]));
            let oi = choose|oi: int| 0 <= oi < orig.len() && orig[oi] == kept@[k];
            assert(orig[oi].wf());
        }
    }
    world.entities = kept;
}

/// Advances the level timer; each time it finishes, the level steps up by
/// one and the caller fans a level-up out to the spawner.
pub fn level_timer_update(dt: u64, level: &mut Level, level_up_timer: &mut LevelIncreaseTimer)
    -> (leveled_up: bool)
    requires
        old(level_up_timer).0.wf(),
        dt <= DT_MAX,
    ensures
        final(level_up_timer).0 == old(level_up_timer).0.ticked(dt),
        final(level_up_timer).0.wf(),
        leveled_up == old(level_up_timer).0.ticked(dt).finished,
        leveled_up ==> final(level).value as int == sat64(old(level).value + 1),
        !leveled_up ==> final(level).value == old(level).value,
{
    level_up_timer.0.tick(dt);
    if level_up_timer.0.finished {
        level.value = crate::math::sat_add(level.value, 1);
        true
    } else {
        false
    }
}

/// The transactional reset run both when the playing state is entered and
/// when it is left: score and level return to zero and the level timer
/// starts over.
pub fn reset(level: &mut Level, points: &mut Points, level_timer: &mut LevelIncreaseTimer)
    ensures
        final(level).value == 0,
        final(points).value == 0,
        *final(level_timer) == (LevelIncreaseTimer(
            Timer { period_ms: LEVEL_UP_TIMER_MS, elapsed_ms: 0, finished: false },
        )),
{
    level.value = 0;
    points.value = 0;
    *level_timer = LevelIncreaseTimer(Timer::new(LEVEL_UP_TIMER_MS));
}

/// Starts the looped background music exactly when the channel is not
/// already sounding.
pub fn play_background_music(channel_playing: bool) -> (start: bool)
    ensures
        start == !channel_playing,
{
    !channel_playing
}

/// The whole mutable state of one game process.
#[derive(Debug)]
pub struct Simulation {
    pub state: GameState,
    /// The state asked for during this tick; it takes effect at the next
    /// tick boundary, so a mid-tick transition never runs this tick's
    /// spawner or level logic against torn-down data.
    pub pending_state: Option<GameState>,
    pub world: World,
    pub points: Points,
    pub level: Level,
    pub level_timer: LevelIncreaseTimer,
    pub coin_timer: CoinSpawnTimer,
    pub knife_timer: KnifeSpawnTimer,
    /// Whether a knife reaching the ground awards a point (a configurable
    /// outcome-source, not a universal rule).
    pub score_knife_landings: bool,
}

impl Simulation {
    /// Simulation well-formedness: the registry and every timer are well
    /// formed, and no transition ever aims back at asset loading.
    pub open spec fn wf(self) -> bool {
        &&& self.world.wf()
        &&& self.level_timer.0.wf()
        &&& self.coin_timer.timer.wf()
        &&& self.knife_timer.wf()
        &&& self.pending_state != Option::Some(GameState::AssetLoading)
    }

    /// A fresh process: loading assets, nothing spawned, all counters at
    /// zero and all timers at their starting cadence.
    pub fn new(score_knife_landings: bool) -> (r: Simulation)
        ensures
            r.wf(),
            r.state == GameState::AssetLoading,
            r.pending_state is None,
            r.world.entities@ =~= Seq::<Entity>::empty(),
            r.world.next_id == 0,
            r.points.value == 0,
            r.level.value == 0,
            r.score_knife_landings == score_knife_landings,
            r.knife_timer == (KnifeSpawnTimer {
                timer: Timer {
                    period_ms: crate::knife_spawner::KNIFE_SPAWN_TIMER_MS,
                    elapsed_ms: 0,
                    finished: false,
                },
                current_spawn_timer: crate::knife_spawner::KNIFE_SPAWN_TIMER_MS,
                min_spawn_cd: crate::knife_spawner::MIN_KNIFE_SPAWN_TIMER_MS,
            }),
            r.coin_timer == (CoinSpawnTimer {
                timer: Timer {
                    period_ms: crate::coin_spawner::COIN_SPAWN_TIMER_MS,
                    elapsed_ms: 0,
                    finished: false,
                },
            }),
            r.level_timer == (LevelIncreaseTimer(
                Timer { period_ms: LEVEL_UP_TIMER_MS, elapsed_ms: 0, finished: false },
            )),
    {
        Simulation {
            state: GameState::AssetLoading,
            pending_state: None,
            world: World::new(),
            points: Points { value: 0 },
            level: Level { value: 0 },
            level_timer: LevelIncreaseTimer::default(),
            coin_timer: CoinSpawnTimer::default(),
            knife_timer: KnifeSpawnTimer::default(),
            score_knife_landings,
        }
    }
}

/// The state a pending request will switch to at the tick boundary, if
/// any: a request for the state already active does nothing.
pub open spec fn transition_target(state: GameState, pending: Option<GameState>) -> Option<
    GameState,
> {
    match pending {
        Option::Some(next) => if next != state {
            Option::Some(next)
        } else {
            Option::None
        },
        Option::None => Option::None,
    }
}

/// The entities left after the exit effects of leaving `state`: leaving
/// the menu tears down the menu-scoped entities, leaving the game tears
/// down the playing-scoped ones.
pub open spec fn entities_after_exit(s: Seq<Entity>, state: GameState) -> Seq<Entity> {
    match state {
        GameState::AssetLoading => s,
        GameState::Menu => scope_cleared(s, Scope::Menu),
        GameState::Game => scope_cleared(s, Scope::Playing),
    }
}

/// The entities after the enter effects of reaching `next`: entering the
/// menu spawns its five widgets, entering the game spawns the terrain,
/// the player and the three in-game readouts.
pub open spec fn entities_after_enter(
    s: Seq<Entity>,
    next: GameState,
    next_id: u64,
    window: Window,
) -> Seq<Entity> {
    match next {
        GameState::AssetLoading => s,
        GameState::Menu => s.push(widget_entity(Scope::Menu, next_id)).push(
            button_entity(MenuButton::Play, (next_id + 1) as u64),
        ).push(widget_entity(Scope::Menu, (next_id + 2) as u64)).push(
            button_entity(MenuButton::Quit, (next_id + 3) as u64),
        ).push(widget_entity(Scope::Menu, (next_id + 4) as u64)),
        GameState::Game => s.push(terrain_entity(window, next_id)).push(
            player_entity((next_id + 1) as u64),
        ).push(widget_entity(Scope::Playing, (next_id + 2) as u64)).push(
            points_text_entity((next_id + 3) as u64),
        ).push(level_text_entity((next_id + 4) as u64)),
    }
}

/// How many entities entering `next` creates.
pub open spec fn spawned_on_enter(next: GameState) -> int {
    match next {
        GameState::AssetLoading => 0,
        GameState::Menu => 5,
        GameState::Game => 5,
    }
}

/// Whether this transition runs the transactional reset: leaving or
/// entering the playing state does, in either direction, and the two are
/// idempotent.
pub open spec fn transition_resets(state: GameState, target: Option<GameState>) -> bool {
    target.is_some() && (state == GameState::Game || target == Option::Some(GameState::Game))
}

/// Applies a pending state change at the tick boundary: exit effects of
/// the old state (scoped teardown, reset when leaving the game), then the
/// enter effects of the new one (reset when entering the game, then the
/// state's spawns).  Without a pending change, or with one aiming at the
/// active state, only the request is cleared.
pub fn apply_state_transition(sim: &mut Simulation, window: &Window)
    requires
        old(sim).wf(),
        window.valid(),
        old(sim).world.next_id < u64::MAX - 8,
    ensures
        final(sim).wf(),
        final(sim).pending_state is None,
        ({
            let target = transition_target(old(sim).state, old(sim).pending_state);
            let after_exit = entities_after_exit(old(sim).world.entities@, old(sim).state);
            &&& final(sim).state == (if target is Some {
                target->Some_0
            } else {
                old(sim).state
            })
            &&& final(sim).world.entities@ == (match target {
                Option::Some(next) => entities_after_enter(
                    after_exit,
                    next,
                    old(sim).world.next_id,
                    *window,
                ),
                Option::None => old(sim).world.entities@,
            })
            &&& final(sim).world.next_id == old(sim).world.next_id + (match target {
                Option::Some(next) => spawned_on_enter(next),
                Option::None => 0,
            })
            &&& (if transition_resets(old(sim).state, target) {
                &&& final(sim).points.value == 0
                &&& final(sim).level.value == 0
                &&& final(sim).level_timer == LevelIncreaseTimer(
                    Timer { period_ms: LEVEL_UP_TIMER_MS, elapsed_ms: 0, finished: false },
                )
            } else {
                &&& final(sim).points == old(sim).points
                &&& final(sim).level == old(sim).level
                &&& final(sim).level_timer == old(sim).level_timer
            })
        }),
        final(sim).coin_timer == old(sim).coin_timer,
        final(sim).knife_timer == old(sim).knife_timer,
        final(sim).score_knife_landings == old(sim).score_knife_landings,
{
    let next = match sim.pending_state {
        Option::Some(n) => n,
        Option::None => {
            return ;
        },
    };
    sim.pending_state = None;
    if next == sim.state {
        return ;
    }
    match sim.state {
        GameState::AssetLoading => {},
        GameState::Menu => {
            cleanup_system(&mut sim.world, Scope::Menu);
        },
        GameState::Game => {
            cleanup_system(&mut sim.world, Scope::Playing);
            reset(&mut sim.level, &mut sim.points, &mut sim.level_timer);
        },
    }
    sim.state = next;
    match next {
        GameState::AssetLoading => {},
        GameState::Menu => {
            setup_menu(&mut sim.world);
        },
        GameState::Game => {
            reset(&mut sim.level, &mut sim.points, &mut sim.level_timer);
            spawn_terrain(&mut sim.world, window);
            spawn_player(&mut sim.world);
            spawn_game_ui(&mut sim.world);
        },
    }
}

/// What one tick computes, before the spawners' random draws: the model
/// every field of the simulation is proved to match.
pub ghost struct TickModel {
    /// The live entities before any spawn of this tick.
    pub entities: Seq<Entity>,
    pub next_id: int,
    pub state: GameState,
    pub pending: Option<GameState>,
    pub points: int,
    pub level: int,
    pub level_timer: Timer,
    pub coin_timer: Timer,
    pub knife_timer: KnifeSpawnTimer,
    pub coin_events: Seq<CoinTouchedEvent>,
    pub hit_events: Seq<PlayerHitEvent>,
    pub landed: int,
    pub leveled_up: bool,
    pub exit: bool,
    pub coin_due: bool,
    pub knife_due: bool,
}

/// The entity pipeline of one playing tick, in its required order: input,
/// gravity accumulation, ground-contact resolution, position integration,
/// facing, window clamp, animation state machine, then the two sprite
/// animations — all with this tick's single `dt`.
pub open spec fn simulated_entities(
    s: Seq<Entity>,
    input: Seq<MovementInputEvent>,
    dt: u64,
    window: Window,
) -> Seq<Entity> {
    let s1 = input_applied(s, input);
    let s2 = s1.map_values(|e: Entity| gravity_applied(e, dt));
    let s3 = if terrain_count(s2) == 1 {
        s2.map_values(|e: Entity| ground_resolved(e, the_terrain(s2)))
    } else {
        s2
    };
    let s4 = s3.map_values(|e: Entity| integrated(e, dt));
    let s5 = s4.map_values(|e: Entity| direction_checked(e));
    let s6 = s5.map_values(|e: Entity| clamped_to_window(e, window));
    let s7 = s6.map_values(|e: Entity| state_machine_stepped(e));
    let s8 = s7.map_values(|e: Entity| player_animated(e, dt));
    s8.map_values(|e: Entity| coin_animated(e, dt))
}

/// Law of the pipeline: the per-tick movement stages change entities'
/// state but never which entities exist — same count, same identities,
/// in the same order.  Only the collision passes, the scoped cleanup and
/// the spawners add or remove entities.
pub proof fn lemma_pipeline_preserves_entities(
    s: Seq<Entity>,
    input: Seq<MovementInputEvent>,
    dt: u64,
    window: Window,
)
    ensures
        simulated_entities(s, input, dt, window).len() == s.len(),
        forall|i: int|
            0 <= i < s.len() ==> #[trigger] simulated_entities(s, input, dt, window)[i].id
                == s[i].id,
{
    let s1 = input_applied(s, input);
    let s2 = s1.map_values(|e: Entity| gravity_applied(e, dt));
    let s3 = if terrain_count(s2) == 1 {
        s2.map_values(|e: Entity| ground_resolved(e, the_terrain(s2)))
    } else {
        s2
    };
    let s4 = s3.map_values(|e: Entity| integrated(e, dt));
    let s5 = s4.map_values(|e: Entity| direction_checked(e));
    let s6 = s5.map_values(|e: Entity| clamped_to_window(e, window));
    let s7 = s6.map_values(|e: Entity| state_machine_stepped(e));
    let s8 = s7.map_values(|e: Entity| player_animated(e, dt));
    let s9 = s8.map_values(|e: Entity| coin_animated(e, dt));
    if player_count(s) == 1 && input.len() > 0 && the_player(s).movement.is_some() {
        crate::world::lemma_matching_exists(s, |e: Entity| crate::world::is_player(e));
    }
    assert(s1.len() == s.len());
    assert(s9.len() == s.len());
    assert forall|i: int| 0 <= i < s.len() implies #[trigger] s9[i].id == s[i].id by {
        assert(s1[i].id == s[i].id);
        assert(s2[i] == gravity_applied(s1[i], dt));
        assert(s4[i] == integrated(s3[i], dt));
        assert(s5[i] == direction_checked(s4[i]));
        assert(s6[i] == clamped_to_window(s5[i], window));
        assert(s7[i] == state_machine_stepped(s6[i]));
        assert(s8[i] == player_animated(s7[i], dt));
        assert(s9[i] == coin_animated(s8[i], dt));
    }
    assert(s9 == simulated_entities(s, input, dt, window));
}

/// The deterministic content of one whole tick of the simulation: the
/// boundary transition, then — per state — the asset gate, the menu's
/// button handling, or the playing pipeline with its collision outcomes,
/// score and level bookkeeping and timer ticks.  Only the spawners'
/// horizontal draws stay outside the model.
pub open spec fn tick_model(
    sim: Simulation,
    dt: u64,
    keys: Seq<Key>,
    presses: Seq<MenuButton>,
    assets_ready: bool,
    window: Window,
) -> TickModel {
    let target = transition_target(sim.state, sim.pending_state);
    let state0 = if target is Some {
        target->Some_0
    } else {
        sim.state
    };
    let ent0 = match target {
        Option::Some(next) => entities_after_enter(
            entities_after_exit(sim.world.entities@, sim.state),
            next,
            sim.world.next_id,
            window,
        ),
        Option::None => sim.world.entities@,
    };
    let nid0 = sim.world.next_id + (match target {
        Option::Some(next) => spawned_on_enter(next),
        Option::None => 0,
    });
    let resets = transition_resets(sim.state, target);
    let pts0 = if resets {
        0
    } else {
        sim.points.value as int
    };
    let lvl0 = if resets {
        0
    } else {
        sim.level.value as int
    };
    let ltimer0 = if resets {
        Timer { period_ms: LEVEL_UP_TIMER_MS, elapsed_ms: 0, finished: false }
    } else {
        sim.level_timer.0
    };
    let base = TickModel {
        entities: ent0,
        next_id: nid0,
        state: state0,
        pending: Option::None,
        points: pts0,
        level: lvl0,
        level_timer: ltimer0,
        coin_timer: sim.coin_timer.timer,
        knife_timer: sim.knife_timer,
        coin_events: Seq::<CoinTouchedEvent>::empty(),
        hit_events: Seq::<PlayerHitEvent>::empty(),
        landed: 0,
        leveled_up: false,
        exit: false,
        coin_due: false,
        knife_due: false,
    };
    match state0 {
        GameState::AssetLoading => TickModel {
            pending: if assets_ready {
                Option::Some(GameState::Menu)
            } else {
                Option::None
            },
            ..base
        },
        GameState::Menu => TickModel {
            pending: if presses_contain(presses, MenuButton::Play) {
                Option::Some(GameState::Game)
            } else {
                Option::None
            },
            exit: presses_contain(presses, MenuButton::Quit),
            ..base
        },
        GameState::Game => {
            let input = seq![MovementInputEvent { direction: collapsed_direction(keys) }];
            let moved = simulated_entities(ent0, input, dt, window);
            let coin_evs = if player_count(moved) == 1 {
                coin_events_of(moved, the_player(moved))
            } else {
                Seq::<CoinTouchedEvent>::empty()
            };
            let after_coins = if player_count(moved) == 1 {
                coins_kept(moved, the_player(moved))
            } else {
                moved
            };
            let hit_evs = if player_count(after_coins) == 1 {
                hit_events_of(after_coins, the_player(after_coins))
            } else {
                Seq::<PlayerHitEvent>::empty()
            };
            let after_knives = if player_count(after_coins) == 1 {
                knives_kept(after_coins, the_player(after_coins))
            } else {
                after_coins
            };
            let landed = landed_knife_count(after_knives);
            let settled = landed_knives_removed(after_knives);
            let pts1 = sat64(
                pts0 + if sim.score_knife_landings {
                    landed
                } else {
                    0
                },
            );
            let pts2 = sat64(pts1 + coin_events_sum(coin_evs));
            let with_outcomes = TickModel {
                entities: settled,
                points: pts2,
                coin_events: coin_evs,
                hit_events: hit_evs,
                landed,
                ..base
            };
            if hit_evs.len() > 0 {
                TickModel { pending: Option::Some(GameState::Menu), ..with_outcomes }
            } else {
                let lt = ltimer0.ticked(dt);
                let lvl1 = if lt.finished {
                    sat64(lvl0 + 1)
                } else {
                    lvl0
                };
                let kt1 = if lt.finished {
                    level_ups_applied(sim.knife_timer, 1)
                } else {
                    sim.knife_timer
                };
                let ct = sim.coin_timer.timer.ticked(dt);
                let kt2 = KnifeSpawnTimer { timer: kt1.timer.ticked(dt), ..kt1 };
                TickModel {
                    level: lvl1,
                    level_timer: lt,
                    leveled_up: lt.finished,
                    coin_timer: ct,
                    knife_timer: kt2,
                    coin_due: ct.finished,
                    knife_due: kt2.timer.finished,
                    ..with_outcomes
                }
            }
        },
    }
}

/// The entities after this tick's spawns: one coin and one knife at the
/// top edge, each only when its timer just finished, at the drawn
/// horizontal positions.
pub open spec fn spawned_entities(
    s: Seq<Entity>,
    coin_due: bool,
    coin_x: i64,
    knife_due: bool,
    knife_x: i64,
    next_id: int,
    window: Window,
) -> Seq<Entity> {
    let with_coin = if coin_due {
        s.push(coin_entity(Vec2 { x: coin_x, y: spawn_top_y(window) as i64 }, next_id as u64))
    } else {
        s
    };
    if knife_due {
        with_coin.push(
            knife_entity(
                Vec2 { x: knife_x, y: spawn_top_y(window) as i64 },
                (next_id + if coin_due {
                    1int
                } else {
                    0int
                }) as u64,
            ),
        )
    } else {
        with_coin
    }
}

/// What one tick hands back to the caller: the outcome events to sound
/// and apply, how many knives landed, whether the level rose, and
/// whether the quit button asked the process to end.
pub struct TickOutput {
    pub coin_events: Vec<CoinTouchedEvent>,
    pub hit_events: Vec<PlayerHitEvent>,
    pub knives_landed: usize,
    pub leveled_up: bool,
    pub exit_requested: bool,
}

/// Runs one whole simulation tick: the pending transition takes effect at
/// this boundary; then, per state, the asset gate is polled, the menu's
/// presses are handled, or the playing pipeline runs in its required
/// order — input, gravity, ground contact, integration, facing, clamp,
/// animation, collision outcomes, score and state bookkeeping, and, only
/// when no transition was requested mid-tick, the level timer and the two
/// spawners.  Every field of the result is pinned by `tick_model`; the
/// spawners' horizontal draws are the only free values.
pub fn tick(
    sim: &mut Simulation,
    dt: u64,
    pressed_keys: &Vec<Key>,
    menu_presses: &Vec<MenuButton>,
    assets_ready: bool,
    window: &Window,
) -> (out: TickOutput)
    requires
        old(sim).wf(),
        window.valid(),
        dt <= DT_MAX,
        old(sim).world.next_id < u64::MAX - 8,
    ensures
        final(sim).wf(),
        ({
            let m = tick_model(
                *old(sim),
                dt,
                pressed_keys@,
                menu_presses@,
                assets_ready,
                *window,
            );
            &&& final(sim).state == m.state
            &&& final(sim).pending_state == m.pending
            &&& final(sim).points.value as int == m.points
            &&& final(sim).level.value as int == m.level
            &&& final(sim).level_timer.0 == m.level_timer
            &&& final(sim).coin_timer.timer == m.coin_timer
            &&& final(sim).knife_timer == m.knife_timer
            &&& final(sim).score_knife_landings == old(sim).score_knife_landings
            &&& out.coin_events@ == m.coin_events
            &&& out.hit_events@ == m.hit_events
            &&& out.knives_landed as int == m.landed
            &&& out.leveled_up == m.leveled_up
            &&& out.exit_requested == m.exit
            &&& final(sim).world.next_id == m.next_id + (if m.coin_due {
                1int
            } else {
                0int
            }) + (if m.knife_due {
                1int
            } else {
                0int
            })
            &&& exists|coin_x: i64, knife_x: i64|
                {
                    &&& (m.coin_due ==> spawn_x_min(*window) <= coin_x < spawn_x_max(*window))
                    &&& (m.knife_due ==> spawn_x_min(*window) <= knife_x < spawn_x_max(*window))
                    &&& final(sim).world.entities@ == #[trigger] spawned_entities(
                        m.entities,
                        m.coin_due,
                        coin_x,
                        m.knife_due,
                        knife_x,
                        m.next_id,
                        *window,
                    )
                }
        }),
{
    apply_state_transition(sim, window);
    let mut out = TickOutput {
        coin_events: Vec::new(),
        hit_events: Vec::new(),
        knives_landed: 0,
        leveled_up: false,
        exit_requested: false,
    };
    match sim.state {
        GameState::AssetLoading => {
            poll_asset_gate(sim, assets_ready);
        },
        GameState::Menu => {
            let exit = crate::main_menu::main_menu_buttons_pressed_system(
                menu_presses,
                &mut sim.pending_state,
            );
            out.exit_requested = exit;
        },
        GameState::Game => {
            let input_event = crate::player_input::movement_input(pressed_keys);
            let mut input_events: Vec<MovementInputEvent> = Vec::new();
            input_events.push(input_event);
            proof {
                assert(input_events@ =~= seq![
                    MovementInputEvent { direction: collapsed_direction(pressed_keys@) },
                ]);
            }
            crate::player::listen_movement_input(&mut sim.world, &input_events);
            crate::gravity::apply_gravity(&mut sim.world, dt);
            crate::gravity::entity_is_touching_terrain(&mut sim.world);
            crate::movement::move_entity(&mut sim.world, dt);
            crate::movement::check_direction(&mut sim.world);
            crate::player::keep_player_in_bounds(&mut sim.world, window);
            crate::player::basic_state_machine(&mut sim.world);
            crate::player::animate_sprite(&mut sim.world, dt);
            crate::coin::animate_sprite(&mut sim.world, dt);
            let ghost moved_world = sim.world;
            let coin_events = crate::coin::check_if_touch_player(&mut sim.world);
            proof {
                crate::coin::lemma_coin_events_nonneg(
                    moved_world.entities@,
                    the_player(moved_world.entities@),
                );
            }
            let hit_events = crate::knife::check_if_touch_player(&mut sim.world);
            let landed = crate::knife::despawn_on_terrain_touch(
                &mut sim.world,
                &mut sim.points,
                sim.score_knife_landings,
            );
            crate::player::listen_for_coins(&coin_events, &mut sim.points);
            crate::player::listen_for_knives(&hit_events, &mut sim.pending_state);
            let ghost settled_next_id = sim.world.next_id;
            let ghost mut coin_x_drawn: i64 = 0;
            let ghost mut knife_x_drawn: i64 = 0;
            if sim.pending_state.is_none() {
                let leveled_up = level_timer_update(dt, &mut sim.level, &mut sim.level_timer);
                if leveled_up {
                    let mut level_ups: Vec<LevelUpEvent> = Vec::new();
                    level_ups.push(LevelUpEvent);
                    crate::knife_spawner::listen_for_level_up(&mut sim.knife_timer, &level_ups);
                }
                crate::coin_spawner::tick_coin_spawn_timer(&mut sim.coin_timer, dt);
                let ghost before_coin = sim.world.entities@;
                crate::coin_spawner::spawn_coin_over_time(&mut sim.world, &sim.coin_timer, window);
                proof {
                    if sim.coin_timer.timer.finished {
                        let xw = choose|x: int|
                            spawn_x_min(*window) <= x < spawn_x_max(*window)
                                && sim.world.entities@ == before_coin.push(
                                #[trigger] coin_entity(
                                    Vec2 { x: x as i64, y: spawn_top_y(*window) as i64 },
                                    settled_next_id,
                                ),
                            );
                        coin_x_drawn = xw as i64;
                    }
                }
                crate::knife_spawner::tick_knife_spawn_timer(&mut sim.knife_timer, dt);
                let ghost before_knife = sim.world.entities@;
                let ghost knife_id = sim.world.next_id;
                crate::knife_spawner::spawn_knife_over_time(
                    &mut sim.world,
                    &sim.knife_timer,
                    window,
                );
                proof {
                    if sim.knife_timer.timer.finished {
                        let xw = choose|x: int|
                            spawn_x_min(*window) <= x < spawn_x_max(*window)
                                && sim.world.entities@ == before_knife.push(
                                #[trigger] knife_entity(
                                    Vec2 { x: x as i64, y: spawn_top_y(*window) as i64 },
                                    knife_id,
                                ),
                            );
                        knife_x_drawn = xw as i64;
                    }
                }
                out.leveled_up = leveled_up;
            }
            proof {
                let m0 = tick_model(
                    *old(sim),
                    dt,
                    pressed_keys@,
                    menu_presses@,
                    assets_ready,
                    *window,
                );
                assert(sim.world.entities@ =~= spawned_entities(
                    m0.entities,
                    m0.coin_due,
                    coin_x_drawn,
                    m0.knife_due,
                    knife_x_drawn,
                    m0.next_id,
                    *window,
                ));
            }
            out.coin_events = coin_events;
            out.hit_events = hit_events;
            out.knives_landed = landed;
        },
    }
    proof {
        let m0 = tick_model(*old(sim), dt, pressed_keys@, menu_presses@, assets_ready, *window);
        if !(m0.state is Game) {
            assert(sim.world.entities@ =~= spawned_entities(
                m0.entities,
                m0.coin_due,
                0i64,
                m0.knife_due,
                0i64,
                m0.next_id,
                *window,
            ));
        }
    }
    out
}

/// Law of the loading gate: it is one-way.  Once the process has left
/// asset loading, no later tick returns to it or even asks to.
pub proof fn lemma_asset_gate_one_way(
    sim: Simulation,
    dt: u64,
    keys: Seq<Key>,
    presses: Seq<MenuButton>,
    assets_ready: bool,
    window: Window,
)
    requires
        sim.wf(),
        sim.state != GameState::AssetLoading,
    ensures
        tick_model(sim, dt, keys, presses, assets_ready, window).state != GameState::AssetLoading,
        tick_model(sim, dt, keys, presses, assets_ready, window).pending != Option::Some(
            GameState::AssetLoading,
        ),
{
}

/// Law of the run reset: a tick that carries the playing state back to
/// the menu (as a knife hit does) leaves both the score and the level at
/// zero, and the next playing session starts from zero again however it
/// is entered.
pub proof fn lemma_score_resets_on_menu_entry(
    sim: Simulation,
    dt: u64,
    keys: Seq<Key>,
    presses: Seq<MenuButton>,
    assets_ready: bool,
    window: Window,
)
    requires
        sim.state == GameState::Game,
        sim.pending_state == Option::Some(GameState::Menu),
    ensures
        tick_model(sim, dt, keys, presses, assets_ready, window).points == 0,
        tick_model(sim, dt, keys, presses, assets_ready, window).level == 0,
{
}

/// While assets are still loading, a ready report asks for the menu; the
/// gate is one-way and fires at most once, since the menu state never
/// returns to loading.
pub fn poll_asset_gate(sim: &mut Simulation, assets_ready: bool)
    requires
        old(sim).wf(),
    ensures
        final(sim).wf(),
        *final(sim) == (Simulation {
            pending_state: if old(sim).state == GameState::AssetLoading && assets_ready {
                Option::Some(GameState::Menu)
            } else {
                old(sim).pending_state
            },
            ..*old(sim)
        }),
{
    if sim.state == GameState::AssetLoading && assets_ready {
        sim.pending_state = Some(GameState::Menu);
    }
}

} // verus!
