//! The main menu: its widget entities and what pressing its buttons
//! decides.  Hover styling and text drawing are the renderer's business.

use vstd::prelude::*;

use crate::flow::GameState;
use crate::math::{Transform, Vec2};
use crate::ui::widget_entity;
use crate::world::{Entity, Scope, World};

verus! {

/// The two main-menu buttons.
#[derive(Clone, Copy, PartialEq, Eq, Structural, Debug)]
pub enum MenuButton {
    Play,
    Quit,
}

/// Width of a menu button, in micro-units (200 world units).
pub const BUTTON_WIDTH_MICRO: i64 = 200_000_000;

/// Height of a menu button, in micro-units (65 world units).
pub const BUTTON_HEIGHT_MICRO: i64 = 65_000_000;

/// A menu button entity, menu-scoped so that leaving the menu removes it
/// together with its label.
pub open spec fn button_entity(button: MenuButton, id: u64) -> Entity {
    Entity {
        sprite_size: Vec2 { x: BUTTON_WIDTH_MICRO, y: BUTTON_HEIGHT_MICRO },
        menu_button: Option::Some(button),
        ..widget_entity(Scope::Menu, id)
    }
}

/// Creates the main menu: a root panel, the play and quit buttons and
/// their label widgets, all menu-scoped so that leaving the menu removes
/// every one of them in the same pass.
pub fn setup_menu(world: &mut World)
    requires
        old(world).wf(),
        old(world).next_id < u64::MAX - 5,
    ensures
        final(world).wf(),
        final(world).entities@ == old(world).entities@.push(
            widget_entity(Scope::Menu, old(world).next_id),
        ).push(button_entity(MenuButton::Play, (old(world).next_id + 1) as u64)).push(
            widget_entity(Scope::Menu, (old(world).next_id + 2) as u64),
        ).push(button_entity(MenuButton::Quit, (old(world).next_id + 3) as u64)).push(
            widget_entity(Scope::Menu, (old(world).next_id + 4) as u64),
        ),
        final(world).next_id == old(world).next_id + 5,
{
    let root = make_menu_widget();
    world.spawn(root);
    let play = make_button(MenuButton::Play);
    world.spawn(play);
    let play_label = make_menu_widget();
    world.spawn(play_label);
    let quit = make_button(MenuButton::Quit);
    world.spawn(quit);
    let quit_label = make_menu_widget();
    world.spawn(quit_label);
    proof {
        assert(world.entities@ =~= old(world).entities@.push(
            widget_entity(Scope::Menu, old(world).next_id),
        ).push(button_entity(MenuButton::Play, (old(world).next_id + 1) as u64)).push(
            widget_entity(Scope::Menu, (old(world).next_id + 2) as u64),
        ).push(button_entity(MenuButton::Quit, (old(world).next_id + 3) as u64)).push(
            widget_entity(Scope::Menu, (old(world).next_id + 4) as u64),
        ));
    }
}

/// A bare menu widget as an executable value.
fn make_menu_widget() -> (e: Entity)
    ensures
        e == widget_entity(Scope::Menu, 0),
        e.wf(),
{
    Entity {
        id: 0,
        scope: Scope::Menu,
        transform: Transform {
            translation: Vec2 { x: 0, y: 0 },
            scale: Vec2 { x: 1000, y: 1000 },
        },
        sprite_size: Vec2 { x: crate::ui::WIDGET_EXTENT_MICRO, y: crate::ui::WIDGET_EXTENT_MICRO },
        movement: Option::None,
        player: Option::None,
        terrain: Option::None,
        coin: Option::None,
        knife: Option::None,
        animation: Option::None,
        points_text: Option::None,
        level_text: Option::None,
        menu_button: Option::None,
    }
}

/// A menu button as an executable value.
fn make_button(button: MenuButton) -> (e: Entity)
    ensures
        e == button_entity(button, 0),
        e.wf(),
{
    let base = make_menu_widget();
    Entity {
        sprite_size: Vec2 { x: BUTTON_WIDTH_MICRO, y: BUTTON_HEIGHT_MICRO },
        menu_button: Some(button),
        ..base
    }
}

/// What the pointer is doing to a button this tick.
#[derive(Clone, Copy, PartialEq, Eq, Structural, Debug)]
pub enum Interaction {
    Pressed,
    Hovered,
    /// The pointer is elsewhere.
    Away,
}

/// Label font size of a pressed button.
pub const FONT_SIZE_PRESSED: u32 = 45;

/// Label font size of a hovered button.
pub const FONT_SIZE_HOVERED: u32 = 50;

/// Label font size of an untouched button.
pub const FONT_SIZE_PLAIN: u32 = 40;

/// Decides the font size a button's label should be drawn at from how
/// the pointer interacts with it: hovering grows the label, pressing
/// shrinks it back towards plain.  The renderer applies the size to
/// every section of the label's text.
pub fn main_menu_buttons_hovered_system(interaction: Interaction) -> (size: u32)
    ensures
        size == (match interaction {
            Interaction::Pressed => FONT_SIZE_PRESSED,
            Interaction::Hovered => FONT_SIZE_HOVERED,
            Interaction::Away => FONT_SIZE_PLAIN,
        }),
{
    match interaction {
        Interaction::Pressed => FONT_SIZE_PRESSED,
        Interaction::Hovered => FONT_SIZE_HOVERED,
        Interaction::Away => FONT_SIZE_PLAIN,
    }
}

/// Whether some press of the batch is of this button.
pub open spec fn presses_contain(presses: Seq<MenuButton>, button: MenuButton) -> bool {
    exists|i: int| 0 <= i < presses.len() && presses[i] == button
}

/// Decides what this tick's button presses mean: any press of the play
/// button asks for the playing state at the next tick boundary, and any
/// press of the quit button asks the process to exit.
pub fn main_menu_buttons_pressed_system(
    presses: &Vec<MenuButton>,
    next_state: &mut Option<GameState>,
) -> (exit: bool)
    ensures
        exit == presses_contain(presses@, MenuButton::Quit),
        *final(next_state) == (if presses_contain(presses@, MenuButton::Play) {
            Option::Some(GameState::Game)
        } else {
            *old(next_state)
        }),
{
    let n = presses.len();
    let mut exit = false;
    let mut play = false;
    let mut i: usize = 0;
    while i < n
        invariant
            n == presses@.len(),
            i <= n,
            play == presses_contain(presses@.take(i as int), MenuButton::Play),
            exit == presses_contain(presses@.take(i as int), MenuButton::Quit),
        decreases n - i,
    {
        proof {
            crate::world::lemma_take_succ(presses@, i as int);
            assert(forall|j: int|
                0 <= j < i ==> presses@.take(i + 1)[j] == presses@.take(i as int)[j]);
        }
        match presses[i] {
            MenuButton::Play => {
                play = true;
            },
            MenuButton::Quit => {
                exit = true;
            },
        }
        proof {
            assert(presses@.take(i + 1)[i as int] == presses@[i as int]);
            assert(presses_contain(presses@.take(i as int), MenuButton::Play) ==> presses_contain(
                presses@.take(i + 1),
                MenuButton::Play,
            ));
            assert(presses_contain(presses@.take(i as int), MenuButton::Quit) ==> presses_contain(
                presses@.take(i + 1),
                MenuButton::Quit,
            ));
        }
        i = i + 1;
    }
    proof {
        assert(presses@.take(n as int) =~= presses@);
    }
    if play {
        *next_state = Some(GameState::Game);
    }
    exit
}

} // verus!
