//! The four steering keys, and the keyboard state they are read from.

use bevy::input::keyboard::KeyCode;
use bevy::input::Input;
use vstd::prelude::*;

verus! {

/// `bevy::input::keyboard::KeyCode`, the key codes of the engine's keyboard
/// input, made known as an opaque type.
#[verifier::external_type_specification]
#[verifier::external_body]
pub struct ExKeyCode(KeyCode);

/// `bevy::input::Input`, the engine's record of the inputs that are held
/// down, made known as an opaque type.
#[verifier::external_type_specification]
#[verifier::external_body]
#[verifier::reject_recursive_types(T)]
pub struct ExInput<T: Copy + Eq + core::hash::Hash + Send + Sync + 'static>(Input<T>);

/// A key that steers the player.
#[derive(Clone, Copy, Debug, PartialEq, Eq, Structural)]
pub enum Key {
    A,
    D,
    S,
    W,
}

/// The steering keys that `input` holds as pressed. Nothing is stated of
/// this set but what the contract of `pressed` says.
pub uninterp spec fn held_keys(input: Input<KeyCode>) -> Set<Key>;

/// Whether the engine's input holds `key` as pressed.
///
/// Not proved: the body calls `bevy::input::Input::pressed` with the key
/// code of the same letter, and the engine answers whether that code is in
/// the input's set of pressed codes. The answer depends on `input` alone;
/// the contract gives the steering keys in that set the name `held_keys`.
#[verifier::external_body]
fn pressed(input: &Input<KeyCode>, key: Key) -> (held: bool)
    ensures
        held == held_keys(*input).contains(key),
{
    input.pressed(
        match key {
            Key::A => KeyCode::A,
            Key::D => KeyCode::D,
            Key::S => KeyCode::S,
            Key::W => KeyCode::W,
        },
    )
}

/// Which of the four steering keys are down during one tick.
#[derive(Clone, Copy, Debug, PartialEq, Eq, Structural)]
pub struct KeyState {
    pub a: bool,
    pub d: bool,
    pub s: bool,
    pub w: bool,
}

impl KeyState {
    /// Whether `key` is down.
    pub open spec fn holds(self, key: Key) -> bool {
        match key {
            Key::A => self.a,
            Key::D => self.d,
            Key::S => self.s,
            Key::W => self.w,
        }
    }

    /// Whether at least one steering key is down.
    pub open spec fn any(self) -> bool {
        self.a || self.d || self.s || self.w
    }

    /// The key state in which exactly the keys of `held` are down.
    pub open spec fn of(held: Set<Key>) -> KeyState {
        KeyState {
            a: held.contains(Key::A),
            d: held.contains(Key::D),
            s: held.contains(Key::S),
            w: held.contains(Key::W),
        }
    }

    /// The state in which no steering key is down.
    pub fn none() -> (keys: KeyState)
        ensures
            keys == (KeyState { a: false, d: false, s: false, w: false }),
            !keys.any(),
    {
        KeyState { a: false, d: false, s: false, w: false }
    }

    /// Reads the four steering keys from the engine's keyboard state.
    pub fn read(input: &Input<KeyCode>) -> (keys: KeyState)
        ensures
            keys == KeyState::of(held_keys(*input)),
    {
        KeyState {
            a: pressed(input, Key::A),
            d: pressed(input, Key::D),
            s: pressed(input, Key::S),
            w: pressed(input, Key::W),
        }
    }
}

} // verus!
