//! Logical keys and the raw key codes they are decoded from.

use vstd::prelude::*;

verus! {

/// The raw code of the `W` key.
pub const CODE_W: u32 = 17;

/// The raw code of the `S` key.
pub const CODE_S: u32 = 31;

/// The raw code of the up-arrow key.
pub const CODE_UP: u32 = 103;

/// The raw code of the down-arrow key.
pub const CODE_DOWN: u32 = 108;

/// The raw code of the space key.
pub const CODE_SPACE: u32 = 57;

/// The five logical keys the game reacts to. `W`/`S` steer player 1,
/// the arrow keys steer player 2, space only starts the ball.
#[derive(Clone, Copy, Debug, PartialEq, Eq, Structural)]
pub enum Key {
    W,
    S,
    Up,
    Down,
    Space,
}

/// Whether a key is currently pressed or has just been released.
#[derive(Clone, Copy, Debug, PartialEq, Eq, Structural)]
pub enum KeyState {
    Pressed,
    Released,
}

impl Key {
    /// Decodes a raw key code. Exactly the five known codes are accepted;
    /// every other code is rejected.
    pub fn try_from(value: u32) -> (r: Result<Key, ()>)
        ensures
            value == CODE_W ==> r == Ok::<Key, ()>(Key::W),
            value == CODE_S ==> r == Ok::<Key, ()>(Key::S),
            value == CODE_UP ==> r == Ok::<Key, ()>(Key::Up),
            value == CODE_DOWN ==> r == Ok::<Key, ()>(Key::Down),
            value == CODE_SPACE ==> r == Ok::<Key, ()>(Key::Space),
            value != CODE_W && value != CODE_S && value != CODE_UP && value != CODE_DOWN && value
                != CODE_SPACE ==> r == Err::<Key, ()>(()),
    {
        match value {
            CODE_W => Ok(Key::W),
            CODE_S => Ok(Key::S),
            CODE_SPACE => Ok(Key::Space),
            CODE_UP => Ok(Key::Up),
            CODE_DOWN => Ok(Key::Down),
            _ => Err(()),
        }
    }
}

} // verus!
