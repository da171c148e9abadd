//! Movement, gravity, collision and cleanup passes on concrete worlds.

use avoid_knives::coin::{self, spawn_coin};
use avoid_knives::flow::cleanup_system;
use avoid_knives::gravity::{apply_gravity, entity_is_touching_terrain};
use avoid_knives::knife::{self, despawn_on_terrain_touch, spawn_knife};
use avoid_knives::math::Vec2;
use avoid_knives::movement::{check_direction, move_entity};
use avoid_knives::player::{
    basic_state_machine, keep_player_in_bounds, listen_for_coins, listen_movement_input,
    play_footsteps, spawn_player, FootstepAction, PlayerState,
};
use avoid_knives::player_input::{InputDirection, MovementInputEvent};
use avoid_knives::points::Points;
use avoid_knives::terrain::spawn_terrain;
use avoid_knives::world::{Scope, World};
use avoid_knives::Window;

#[test]
fn gravity_accumulates_by_mass_and_dt() {
    let mut world = World::new();
    spawn_player(&mut world);
    spawn_knife(&mut world, Vec2 { x: 0, y: 100_000_000 });
    apply_gravity(&mut world, 1000);
    // player mass 100: 100 * 9800 * 1000 / 1000 = 980_000 milli-units/s
    let player_vel = world.entities[0].movement.unwrap().body.velocity;
    assert_eq!(player_vel.y, -980_000);
    // knife mass 50: half of that
    let knife_vel = world.entities[1].movement.unwrap().body.velocity;
    assert_eq!(knife_vel.y, -490_000);
}

#[test]
fn gravity_accumulates_even_while_grounded() {
    let mut world = World::new();
    spawn_player(&mut world);
    let idx = 0;
    world.entities[idx].movement.as_mut().unwrap().gravity.is_touching_terrain = true;
    apply_gravity(&mut world, 1000);
    apply_gravity(&mut world, 1000);
    assert_eq!(world.entities[idx].movement.unwrap().body.velocity.y, -1_960_000);
}

#[test]
fn horizontal_position_always_advances_by_velocity() {
    let mut world = World::new();
    spawn_player(&mut world);
    world.entities[0].movement.as_mut().unwrap().body.velocity.x = 500_000;
    world.entities[0].movement.as_mut().unwrap().gravity.is_touching_terrain = true;
    move_entity(&mut world, 16);
    // 500_000 milli-units/s over 16 ms = 8_000_000 micro-units
    assert_eq!(world.entities[0].transform.translation.x, 8_000_000);
}

#[test]
fn vertical_position_frozen_while_grounded() {
    let mut world = World::new();
    spawn_player(&mut world);
    world.entities[0].movement.as_mut().unwrap().body.velocity.y = -700_000;
    world.entities[0].movement.as_mut().unwrap().gravity.is_touching_terrain = true;
    move_entity(&mut world, 1000);
    assert_eq!(world.entities[0].transform.translation.y, 0);
    world.entities[0].movement.as_mut().unwrap().gravity.is_touching_terrain = false;
    move_entity(&mut world, 1000);
    assert_eq!(world.entities[0].transform.translation.y, -700_000_000);
}

#[test]
fn facing_follows_velocity_sign() {
    let mut world = World::new();
    spawn_player(&mut world);
    world.entities[0].movement.as_mut().unwrap().body.velocity.x = -1;
    check_direction(&mut world);
    assert_eq!(world.entities[0].movement.unwrap().body.direction, -1);
    world.entities[0].movement.as_mut().unwrap().body.velocity.x = 1;
    check_direction(&mut world);
    assert_eq!(world.entities[0].movement.unwrap().body.direction, 1);
    // with zero velocity the facing is left alone
    world.entities[0].movement.as_mut().unwrap().body.velocity.x = 0;
    world.entities[0].movement.as_mut().unwrap().body.velocity.y = 0;
    check_direction(&mut world);
    assert_eq!(world.entities[0].movement.unwrap().body.direction, 1);
}

#[test]
fn touching_edges_exactly_do_not_collide() {
    // player and coin are both 16x16 sprites at scale 4: half-extents of
    // 32 units, so the boxes touch exactly at |dx| = 64 units.
    let mut world = World::new();
    spawn_player(&mut world);
    spawn_coin(&mut world, Vec2 { x: 64_000_000, y: 0 });
    spawn_coin(&mut world, Vec2 { x: 63_999_999, y: 0 });
    let events = coin::check_if_touch_player(&mut world);
    assert_eq!(events.len(), 1);
    assert_eq!(world.entities.len(), 2);
}

#[test]
fn three_pickups_of_ten_score_thirty() {
    // window width 1200, coin value 10, three coins picked up
    let mut world = World::new();
    spawn_player(&mut world);
    spawn_coin(&mut world, Vec2 { x: 0, y: 0 });
    spawn_coin(&mut world, Vec2 { x: 10_000_000, y: 0 });
    spawn_coin(&mut world, Vec2 { x: -10_000_000, y: 0 });
    let events = coin::check_if_touch_player(&mut world);
    assert_eq!(events.len(), 3);
    let mut points = Points { value: 0 };
    listen_for_coins(&events, &mut points);
    assert_eq!(points.value, 30);
    assert_eq!(world.entities.len(), 1);
}

#[test]
fn second_pickup_pass_emits_nothing() {
    let mut world = World::new();
    spawn_player(&mut world);
    spawn_coin(&mut world, Vec2 { x: 0, y: 0 });
    let first = coin::check_if_touch_player(&mut world);
    assert_eq!(first.len(), 1);
    let second = coin::check_if_touch_player(&mut world);
    assert_eq!(second.len(), 0);
}

#[test]
fn knife_hit_emits_one_event_and_removes_knife() {
    let mut world = World::new();
    spawn_player(&mut world);
    spawn_knife(&mut world, Vec2 { x: 0, y: 0 });
    let events = knife::check_if_touch_player(&mut world);
    assert_eq!(events.len(), 1);
    assert_eq!(events[0].damage, 1);
    assert!(world.entities.iter().all(|e| e.knife.is_none()));
    let again = knife::check_if_touch_player(&mut world);
    assert_eq!(again.len(), 0);
}

#[test]
fn missing_player_skips_pickup_pass() {
    let mut world = World::new();
    spawn_coin(&mut world, Vec2 { x: 0, y: 0 });
    let events = coin::check_if_touch_player(&mut world);
    assert_eq!(events.len(), 0);
    assert_eq!(world.entities.len(), 1);
}

#[test]
fn two_players_short_circuit_the_pickup_pass() {
    let mut world = World::new();
    spawn_player(&mut world);
    spawn_player(&mut world);
    spawn_coin(&mut world, Vec2 { x: 0, y: 0 });
    let events = coin::check_if_touch_player(&mut world);
    assert_eq!(events.len(), 0);
    assert_eq!(world.entities.len(), 3);
}

#[test]
fn missing_terrain_skips_ground_resolution() {
    let mut world = World::new();
    spawn_knife(&mut world, Vec2 { x: 0, y: 0 });
    world.entities[0].movement.as_mut().unwrap().gravity.is_touching_terrain = true;
    entity_is_touching_terrain(&mut world);
    // with no terrain the pass is skipped and the stale flag survives
    assert!(world.entities[0].movement.unwrap().gravity.is_touching_terrain);
}

#[test]
fn landed_knife_despawns_and_scores_when_enabled() {
    let window = Window::standard();
    let mut world = World::new();
    spawn_terrain(&mut world, &window);
    // the terrain strip sits at (-592, -342) units
    spawn_knife(&mut world, Vec2 { x: -592_000_000, y: -342_000_000 });
    entity_is_touching_terrain(&mut world);
    let mut points = Points { value: 0 };
    let landed = despawn_on_terrain_touch(&mut world, &mut points, true);
    assert_eq!(landed, 1);
    assert_eq!(points.value, 1);
    assert!(world.entities.iter().all(|e| e.knife.is_none()));
}

#[test]
fn landed_knife_scores_nothing_when_disabled() {
    let window = Window::standard();
    let mut world = World::new();
    spawn_terrain(&mut world, &window);
    spawn_knife(&mut world, Vec2 { x: -592_000_000, y: -342_000_000 });
    entity_is_touching_terrain(&mut world);
    let mut points = Points { value: 7 };
    let landed = despawn_on_terrain_touch(&mut world, &mut points, false);
    assert_eq!(landed, 1);
    assert_eq!(points.value, 7);
}

#[test]
fn ground_contact_is_overwritten_every_pass() {
    let window = Window::standard();
    let mut world = World::new();
    spawn_terrain(&mut world, &window);
    spawn_knife(&mut world, Vec2 { x: -592_000_000, y: -342_000_000 });
    entity_is_touching_terrain(&mut world);
    assert!(world.entities[1].movement.unwrap().gravity.is_touching_terrain);
    world.entities[1].transform.translation = Vec2 { x: 0, y: 300_000_000 };
    entity_is_touching_terrain(&mut world);
    assert!(!world.entities[1].movement.unwrap().gravity.is_touching_terrain);
}

#[test]
fn player_clamped_inside_window() {
    let window = Window::standard();
    let mut world = World::new();
    spawn_player(&mut world);
    world.entities[0].transform.translation = Vec2 { x: 700_000_000, y: -900_000_000 };
    keep_player_in_bounds(&mut world, &window);
    // half-window 600 units minus half-sprite 32 units
    assert_eq!(world.entities[0].transform.translation.x, 568_000_000);
    assert_eq!(world.entities[0].transform.translation.y, -318_000_000);
}

#[test]
fn movement_input_sets_player_velocity() {
    let mut world = World::new();
    spawn_player(&mut world);
    let events = vec![
        MovementInputEvent { direction: InputDirection::Left },
        MovementInputEvent { direction: InputDirection::Right },
    ];
    listen_movement_input(&mut world, &events);
    // the latest event wins
    assert_eq!(world.entities[0].movement.unwrap().body.velocity.x, 500_000);
}

#[test]
fn state_machine_switches_between_idle_and_walking() {
    let mut world = World::new();
    spawn_player(&mut world);
    assert_eq!(world.entities[0].player.unwrap().state, PlayerState::Idle);
    world.entities[0].movement.as_mut().unwrap().body.velocity.x = 500_000;
    basic_state_machine(&mut world);
    assert_eq!(world.entities[0].player.unwrap().state, PlayerState::Walking);
    world.entities[0].movement.as_mut().unwrap().body.velocity.x = 0;
    basic_state_machine(&mut world);
    assert_eq!(world.entities[0].player.unwrap().state, PlayerState::Idle);
}

#[test]
fn footsteps_follow_walking_state() {
    let mut world = World::new();
    spawn_player(&mut world);
    assert_eq!(play_footsteps(&world, true), FootstepAction::Stop);
    assert_eq!(play_footsteps(&world, false), FootstepAction::Keep);
    world.entities[0].player.as_mut().unwrap().state = PlayerState::Walking;
    assert_eq!(play_footsteps(&world, false), FootstepAction::Start);
    assert_eq!(play_footsteps(&world, true), FootstepAction::Keep);
}

#[test]
fn coin_animation_steps_and_wraps() {
    let mut world = World::new();
    spawn_coin(&mut world, Vec2 { x: 0, y: 0 });
    for expected in [1u32, 2, 3, 0] {
        coin::animate_sprite(&mut world, 125);
        assert_eq!(world.entities[0].animation.unwrap().frame, expected);
    }
}

#[test]
fn cleanup_removes_exactly_one_scope() {
    let window = Window::standard();
    let mut world = World::new();
    spawn_player(&mut world);
    spawn_terrain(&mut world, &window);
    spawn_coin(&mut world, Vec2 { x: 0, y: 200_000_000 });
    cleanup_system(&mut world, Scope::Menu);
    assert_eq!(world.entities.len(), 3);
    cleanup_system(&mut world, Scope::Playing);
    assert_eq!(world.entities.len(), 0);
}
