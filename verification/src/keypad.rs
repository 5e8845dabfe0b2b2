//! The state of the sixteen-key hexadecimal keypad, as the caller samples it
//! and hands it to the instructions that read keys.

use vstd::prelude::*;

verus! {

/// One sample of the keypad.
#[derive(Clone, Copy, Debug)]
pub struct Keypad {
    /// Whether each of the keys `0` to `F` is held down.
    pub down: [bool; 16],
    /// The key that a read of the pressed key yields.
    pub pressed: u8,
}

impl Keypad {
    /// Whether `key` is held down. Numbers above `F` name no key.
    pub open spec fn is_down(self, key: u8) -> bool {
        key < 16 && self.down[key as int]
    }

    /// A keypad that nobody touches: every key is up, and a read of the
    /// pressed key yields `1`.
    pub fn idle() -> (keys: Keypad)
        ensures
            forall|key: u8| !keys.is_down(key),
            keys.pressed == 1,
    {
        Keypad { down: [false; 16], pressed: 1 }
    }

    /// Whether `key` is held down.
    pub fn is_key_down(&self, key: u8) -> (down: bool)
        ensures
            down == self.is_down(key),
    {
        key < 16 && self.down[key as usize]
    }

    /// The key that is pressed, read without waiting.
    pub fn get_key(&self) -> (key: u8)
        ensures
            key == self.pressed,
    {
        self.pressed
    }
}

} // verus!
