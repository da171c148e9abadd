//! The state machine, the tick orchestrator and the run-reset scenarios.

use avoid_knives::flow::{
    level_timer_update, play_background_music, tick, GameState, Level, LevelIncreaseTimer,
    Simulation,
};
use avoid_knives::knife::spawn_knife;
use avoid_knives::main_menu::{
    main_menu_buttons_hovered_system, main_menu_buttons_pressed_system, Interaction, MenuButton,
};
use avoid_knives::math::Vec2;
use avoid_knives::player_input::Key;
use avoid_knives::world::Scope;
use avoid_knives::Window;

fn no_keys() -> Vec<Key> {
    Vec::new()
}

fn no_presses() -> Vec<MenuButton> {
    Vec::new()
}

#[test]
fn asset_gate_leads_to_menu_once_ready() {
    let window = Window::standard();
    let mut sim = Simulation::new(true);
    assert_eq!(sim.state, GameState::AssetLoading);
    tick(&mut sim, 16, &no_keys(), &no_presses(), false, &window);
    assert_eq!(sim.state, GameState::AssetLoading);
    tick(&mut sim, 16, &no_keys(), &no_presses(), true, &window);
    assert_eq!(sim.state, GameState::AssetLoading);
    assert_eq!(sim.pending_state, Some(GameState::Menu));
    tick(&mut sim, 16, &no_keys(), &no_presses(), true, &window);
    assert_eq!(sim.state, GameState::Menu);
    // the menu holds its five widgets
    assert_eq!(sim.world.entities.len(), 5);
}

#[test]
fn play_press_enters_game_and_spawns_run() {
    let window = Window::standard();
    let mut sim = Simulation::new(true);
    tick(&mut sim, 16, &no_keys(), &no_presses(), true, &window);
    tick(&mut sim, 16, &no_keys(), &no_presses(), true, &window);
    let out = tick(&mut sim, 16, &no_keys(), &vec![MenuButton::Play], true, &window);
    assert!(!out.exit_requested);
    assert_eq!(sim.pending_state, Some(GameState::Game));
    tick(&mut sim, 16, &no_keys(), &no_presses(), true, &window);
    assert_eq!(sim.state, GameState::Game);
    // terrain, player, and the three in-game readouts
    assert_eq!(sim.world.entities.len(), 5);
    assert!(sim.world.entities.iter().any(|e| e.terrain.is_some()));
    assert!(sim.world.entities.iter().any(|e| e.player.is_some()));
    assert!(sim.world.entities.iter().all(|e| e.scope == Scope::Playing));
}

#[test]
fn quit_press_requests_exit() {
    let window = Window::standard();
    let mut sim = Simulation::new(true);
    tick(&mut sim, 16, &no_keys(), &no_presses(), true, &window);
    tick(&mut sim, 16, &no_keys(), &no_presses(), true, &window);
    let out = tick(&mut sim, 16, &no_keys(), &vec![MenuButton::Quit], true, &window);
    assert!(out.exit_requested);
    assert_eq!(sim.pending_state, None);
}

#[test]
fn knife_overlap_hits_once_and_returns_to_menu() {
    let window = Window::standard();
    let mut sim = Simulation::new(true);
    tick(&mut sim, 16, &no_keys(), &no_presses(), true, &window);
    tick(&mut sim, 16, &no_keys(), &no_presses(), true, &window);
    tick(&mut sim, 16, &no_keys(), &vec![MenuButton::Play], true, &window);
    tick(&mut sim, 16, &no_keys(), &no_presses(), true, &window);
    assert_eq!(sim.state, GameState::Game);
    // a knife right on the player
    spawn_knife(&mut sim.world, Vec2 { x: 0, y: 0 });
    let out = tick(&mut sim, 16, &no_keys(), &no_presses(), true, &window);
    assert_eq!(out.hit_events.len(), 1);
    assert_eq!(out.hit_events[0].damage, 1);
    assert!(sim.world.entities.iter().all(|e| e.knife.is_none()));
    assert_eq!(sim.pending_state, Some(GameState::Menu));
    tick(&mut sim, 16, &no_keys(), &no_presses(), true, &window);
    assert_eq!(sim.state, GameState::Menu);
}

#[test]
fn leaving_game_clears_run_and_next_run_starts_at_zero() {
    let window = Window::standard();
    let mut sim = Simulation::new(true);
    tick(&mut sim, 16, &no_keys(), &no_presses(), true, &window);
    tick(&mut sim, 16, &no_keys(), &no_presses(), true, &window);
    tick(&mut sim, 16, &no_keys(), &vec![MenuButton::Play], true, &window);
    tick(&mut sim, 16, &no_keys(), &no_presses(), true, &window);
    // give the run something to lose
    sim.points.value = 40;
    sim.level.value = 3;
    spawn_knife(&mut sim.world, Vec2 { x: 0, y: 0 });
    tick(&mut sim, 16, &no_keys(), &no_presses(), true, &window);
    tick(&mut sim, 16, &no_keys(), &no_presses(), true, &window);
    assert_eq!(sim.state, GameState::Menu);
    // every playing-scoped entity is gone; only the menu remains
    assert!(sim.world.entities.iter().all(|e| e.scope == Scope::Menu));
    assert_eq!(sim.world.entities.len(), 5);
    assert_eq!(sim.points.value, 0);
    assert_eq!(sim.level.value, 0);
    // re-enter: the new run starts from zero
    tick(&mut sim, 16, &no_keys(), &vec![MenuButton::Play], true, &window);
    tick(&mut sim, 16, &no_keys(), &no_presses(), true, &window);
    assert_eq!(sim.state, GameState::Game);
    assert_eq!(sim.points.value, 0);
    assert_eq!(sim.level.value, 0);
}

#[test]
fn level_timer_raises_level_every_period() {
    let mut level = Level { value: 0 };
    let mut timer = LevelIncreaseTimer::default();
    assert!(!level_timer_update(2500, &mut level, &mut timer));
    assert_eq!(level.value, 0);
    assert!(level_timer_update(2500, &mut level, &mut timer));
    assert_eq!(level.value, 1);
    assert!(level_timer_update(5000, &mut level, &mut timer));
    assert_eq!(level.value, 2);
}

#[test]
fn hit_tick_skips_level_and_spawn_logic() {
    let window = Window::standard();
    let mut sim = Simulation::new(true);
    tick(&mut sim, 16, &no_keys(), &no_presses(), true, &window);
    tick(&mut sim, 16, &no_keys(), &no_presses(), true, &window);
    tick(&mut sim, 16, &no_keys(), &vec![MenuButton::Play], true, &window);
    tick(&mut sim, 16, &no_keys(), &no_presses(), true, &window);
    spawn_knife(&mut sim.world, Vec2 { x: 0, y: 0 });
    // prime every timer to finish on the very next 16 ms tick
    sim.level_timer.0.elapsed_ms = 4990;
    sim.coin_timer.timer.elapsed_ms = 2990;
    // a hit cancels the rest of the tick: the timers that would
    // otherwise finish must stay untouched
    let out = tick(&mut sim, 16, &no_keys(), &no_presses(), true, &window);
    assert_eq!(out.hit_events.len(), 1);
    assert!(!out.leveled_up);
    assert_eq!(sim.level_timer.0.elapsed_ms, 4990);
    assert_eq!(sim.coin_timer.timer.elapsed_ms, 2990);
    assert_eq!(sim.level.value, 0);
}

#[test]
fn menu_press_handler_reports_both_buttons() {
    let mut pending = None;
    let exit = main_menu_buttons_pressed_system(&vec![MenuButton::Play, MenuButton::Quit], &mut pending);
    assert!(exit);
    assert_eq!(pending, Some(GameState::Game));
    let mut pending2 = None;
    let exit2 = main_menu_buttons_pressed_system(&no_presses(), &mut pending2);
    assert!(!exit2);
    assert_eq!(pending2, None);
}

#[test]
fn hovering_grows_button_labels() {
    assert_eq!(main_menu_buttons_hovered_system(Interaction::Hovered), 50);
    assert_eq!(main_menu_buttons_hovered_system(Interaction::Pressed), 45);
    assert_eq!(main_menu_buttons_hovered_system(Interaction::Away), 40);
}

#[test]
fn background_music_starts_only_when_silent() {
    assert!(play_background_music(false));
    assert!(!play_background_music(true));
}
