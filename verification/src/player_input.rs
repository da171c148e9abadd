//! Collapsing raw key state into one horizontal direction per tick.

use vstd::prelude::*;

verus! {

/// The horizontal direction the player asks for on one tick.
#[derive(Clone, Copy, PartialEq, Eq, Structural, Debug)]
pub enum InputDirection {
    Left,
    Right,
    /// No movement requested.
    Still,
}

/// One tick's collapsed movement input.
#[derive(Clone, Copy, PartialEq, Eq, Structural, Debug)]
pub struct MovementInputEvent {
    pub direction: InputDirection,
}

/// The keys the input collapse distinguishes.  Every other pressed key is
/// reported as `Other`.
#[derive(Clone, Copy, PartialEq, Eq, Structural, Debug)]
pub enum Key {
    KeyA,
    ArrowLeft,
    KeyD,
    ArrowRight,
    Other,
}

/// The direction a single key asks for.
pub open spec fn key_direction(k: Key) -> InputDirection {
    match k {
        Key::KeyA => InputDirection::Left,
        Key::ArrowLeft => InputDirection::Left,
        Key::KeyD => InputDirection::Right,
        Key::ArrowRight => InputDirection::Right,
        Key::Other => InputDirection::Still,
    }
}

/// The collapse of a whole key scan: the last pressed key wins; with no
/// key down, no movement is requested.
pub open spec fn collapsed_direction(pressed: Seq<Key>) -> InputDirection {
    if pressed.len() == 0 {
        InputDirection::Still
    } else {
        key_direction(pressed.last())
    }
}

/// Scans the pressed keys in order and keeps the direction of the last
/// one, so that the latest key wins when several are held.
pub fn movement_input(pressed: &Vec<Key>) -> (ev: MovementInputEvent)
    ensures
        ev.direction == collapsed_direction(pressed@),
{
    let mut direction = InputDirection::Still;
    let n = pressed.len();
    let mut i: usize = 0;
    while i < n
        invariant
            n == pressed@.len(),
            i <= n,
            direction == collapsed_direction(pressed@.take(i as int)),
        decreases n - i,
    {
        direction = match pressed[i] {
            Key::KeyA => InputDirection::Left,
            Key::ArrowLeft => InputDirection::Left,
            Key::KeyD => InputDirection::Right,
            Key::ArrowRight => InputDirection::Right,
            Key::Other => InputDirection::Still,
        };
        i = i + 1;
        proof {
            assert(pressed@.take(i as int).last() == pressed@[i - 1]);
        }
    }
    proof {
        assert(pressed@.take(n as int) =~= pressed@);
    }
    MovementInputEvent { direction }
}

} // verus!
