//! Spawn timers, the random spawn positions and the difficulty ramp.

use avoid_knives::coin_spawner::{spawn_coin_over_time, tick_coin_spawn_timer, CoinSpawnTimer};
use avoid_knives::flow::LevelUpEvent;
use avoid_knives::knife_spawner::{
    listen_for_level_up, spawn_knife_over_time, KnifeSpawnTimer,
};
use avoid_knives::player_input::{movement_input, InputDirection, Key};
use avoid_knives::timer::Timer;
use avoid_knives::world::World;
use avoid_knives::Window;

#[test]
fn repeating_timer_wraps_on_its_period() {
    let mut t = Timer::new(100);
    t.tick(30);
    assert!(!t.finished);
    assert_eq!(t.elapsed_ms, 30);
    t.tick(70);
    assert!(t.finished);
    assert_eq!(t.elapsed_ms, 0);
    t.tick(30);
    assert!(!t.finished);
}

#[test]
fn coin_spawner_waits_for_its_period() {
    let window = Window::standard();
    let mut world = World::new();
    let mut timer = CoinSpawnTimer::default();
    tick_coin_spawn_timer(&mut timer, 1000);
    spawn_coin_over_time(&mut world, &timer, &window);
    assert_eq!(world.entities.len(), 0);
    tick_coin_spawn_timer(&mut timer, 2000);
    spawn_coin_over_time(&mut world, &timer, &window);
    assert_eq!(world.entities.len(), 1);
}

#[test]
fn spawned_coin_sits_at_the_top_edge_within_insets() {
    let window = Window::standard();
    let mut world = World::new();
    let mut timer = CoinSpawnTimer::default();
    tick_coin_spawn_timer(&mut timer, 3000);
    for _ in 0..20 {
        spawn_coin_over_time(&mut world, &timer, &window);
    }
    for e in world.entities.iter() {
        let coin = e.coin.expect("only coins were spawned");
        assert_eq!(coin.value, 10);
        // one sprite (16 units) inset below the top of a 1200x700 window
        assert_eq!(e.transform.translation.y, 334_000_000);
        assert!(e.transform.translation.x >= -584_000_000);
        assert!(e.transform.translation.x < 584_000_000);
    }
}

#[test]
fn spawned_knife_sits_at_the_top_edge_within_insets() {
    let window = Window::standard();
    let mut world = World::new();
    let timer = KnifeSpawnTimer {
        timer: Timer { period_ms: 200, elapsed_ms: 0, finished: true },
        current_spawn_timer: 200,
        min_spawn_cd: 50,
    };
    for _ in 0..20 {
        spawn_knife_over_time(&mut world, &timer, &window);
    }
    for e in world.entities.iter() {
        let knife = e.knife.expect("only knives were spawned");
        assert_eq!(knife.damage, 1);
        assert_eq!(e.transform.translation.y, 334_000_000);
        assert!(e.transform.translation.x >= -584_000_000);
        assert!(e.transform.translation.x < 584_000_000);
    }
}

#[test]
fn five_level_ups_shrink_period_to_150() {
    // decrement 10 ms from base 200 ms with floor 50 ms: all five
    // decrements apply, the floor is not yet reached
    let mut timer = KnifeSpawnTimer::default();
    let ups = vec![LevelUpEvent; 5];
    listen_for_level_up(&mut timer, &ups);
    assert_eq!(timer.current_spawn_timer, 150);
    assert_eq!(timer.timer.period_ms, 150);
}

#[test]
fn ramp_stops_at_the_floor() {
    let mut timer = KnifeSpawnTimer {
        timer: Timer { period_ms: 60, elapsed_ms: 0, finished: false },
        current_spawn_timer: 60,
        min_spawn_cd: 50,
    };
    listen_for_level_up(&mut timer, &vec![LevelUpEvent]);
    assert_eq!(timer.current_spawn_timer, 50);
    listen_for_level_up(&mut timer, &vec![LevelUpEvent]);
    assert_eq!(timer.current_spawn_timer, 50);
}

#[test]
fn near_floor_period_clamps_to_the_floor() {
    let mut timer = KnifeSpawnTimer {
        timer: Timer { period_ms: 55, elapsed_ms: 0, finished: false },
        current_spawn_timer: 55,
        min_spawn_cd: 50,
    };
    listen_for_level_up(&mut timer, &vec![LevelUpEvent]);
    assert_eq!(timer.current_spawn_timer, 50);
}

#[test]
fn level_up_restarts_the_knife_timer() {
    let mut timer = KnifeSpawnTimer::default();
    timer.timer.elapsed_ms = 150;
    listen_for_level_up(&mut timer, &vec![LevelUpEvent]);
    assert_eq!(timer.timer.elapsed_ms, 0);
    assert_eq!(timer.timer.period_ms, 190);
}

#[test]
fn key_scan_collapses_to_the_last_key() {
    let ev = movement_input(&vec![Key::KeyA, Key::KeyD]);
    assert_eq!(ev.direction, InputDirection::Right);
    let ev = movement_input(&vec![Key::KeyD, Key::ArrowLeft]);
    assert_eq!(ev.direction, InputDirection::Left);
    // any unmapped key pressed last clears the direction
    let ev = movement_input(&vec![Key::KeyD, Key::Other]);
    assert_eq!(ev.direction, InputDirection::Still);
    let ev = movement_input(&Vec::new());
    assert_eq!(ev.direction, InputDirection::Still);
}
