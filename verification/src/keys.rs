//! Keyboard state as a set of bits, shared by the input path of the client
//! and the input-application path of the server.

use vstd::prelude::*;

verus! {

/// Bit for the forward movement key.
pub const KEY_W: u16 = 0b_00000000_00000001;
/// Bit for the strafe-left movement key.
pub const KEY_A: u16 = 0b_00000000_00000010;
/// Bit for the backward movement key.
pub const KEY_S: u16 = 0b_00000000_00000100;
/// Bit for the strafe-right movement key.
pub const KEY_D: u16 = 0b_00000000_00001000;

/// Bit for the up arrow key.
pub const KEY_UP: u16 = 0b_00000000_00010000;
/// Bit for the left arrow key.
pub const KEY_LEFT: u16 = 0b_00000000_00100000;
/// Bit for the down arrow key.
pub const KEY_DOWN: u16 = 0b_00000000_01000000;
/// Bit for the right arrow key.
pub const KEY_RIGHT: u16 = 0b_00000000_10000000;

/// Bit for the ascend key.
pub const KEY_SPACE: u16 = 0b_00000001_00000000;
/// Bit for the descend key.
pub const KEY_SHIFT: u16 = 0b_00000010_00000000;
/// Bit for the crouch key.
pub const KEY_CTRL: u16 = 0b_00000100_00000000;

/// Keys that fire once per press (menu-style keys).
pub const KEYS_NORMAL: u16 = 0b_00000100_11110000;

/// Keys that are held and applied continuously while pressed.
pub const KEYS_CONTINUOUS: u16 = 0b_00000011_00001111;

/// What the keyboard is currently driving.
#[derive(Clone, Copy, Debug, Default, Eq, PartialEq, Structural)]
pub enum KeyState {
    /// In the UI; keys drive nothing.
    #[default]
    Idle,
    /// Actively playing; keys drive the player.
    Player,
    /// Typing (for example chat); keys produce text.
    Typing,
}

/// A set of pressed keys, one bit per key.
#[derive(Clone, Copy, Debug, Default, Eq, PartialEq, Structural)]
pub struct Keys {
    /// One bit per key.
    pub bits: u16,
}

impl Keys {
    /// The empty key set.
    pub fn empty() -> (r: Keys)
        ensures
            r.bits == 0,
    {
        Keys { bits: 0 }
    }

    /// The key set holding exactly the given bits.
    pub fn from_bits(bits: u16) -> (r: Keys)
        ensures
            r.bits == bits,
    {
        Keys { bits }
    }

    /// The raw bits of this key set.
    pub fn bits(&self) -> (r: u16)
        ensures
            r == self.bits,
    {
        self.bits
    }

    /// Whether no key is pressed.
    pub fn is_empty(&self) -> (r: bool)
        ensures
            r == (self.bits == 0),
    {
        self.bits == 0
    }

    /// Whether every key of `other` is also in `self`.
    pub fn contains(&self, other: Keys) -> (r: bool)
        ensures
            r == ((self.bits & other.bits) == other.bits),
    {
        (self.bits & other.bits) == other.bits
    }

    /// Add every key of `other` to the set.
    pub fn insert(&mut self, other: Keys)
        ensures
            final(self).bits == (old(self).bits | other.bits),
    {
        self.bits = self.bits | other.bits;
    }

    /// Remove every key of `other` from the set.
    pub fn remove(&mut self, other: Keys)
        ensures
            final(self).bits == (old(self).bits & !other.bits),
    {
        self.bits = self.bits & !other.bits;
    }

    /// Whether the pressed keys are all once-per-press keys.
    pub fn is_normal(&self) -> (r: bool)
        ensures
            r == ((KEYS_NORMAL & self.bits) == self.bits && (KEYS_CONTINUOUS & self.bits)
                != self.bits),
    {
        let within_normal = (KEYS_NORMAL & self.bits) == self.bits;
        let within_continuous = (KEYS_CONTINUOUS & self.bits) == self.bits;
        within_normal && !within_continuous
    }

    /// Whether the pressed keys are all held-and-applied keys, and the
    /// keyboard is driving the player.
    pub fn is_continuous(&self, state: KeyState) -> (r: bool)
        ensures
            r == (state is Player && (KEYS_CONTINUOUS & self.bits) == self.bits && (KEYS_NORMAL
                & self.bits) != self.bits),
    {
        match state {
            KeyState::Player => {
                let within_continuous = (KEYS_CONTINUOUS & self.bits) == self.bits;
                let within_normal = (KEYS_NORMAL & self.bits) == self.bits;
                within_continuous && !within_normal
            },
            _ => false,
        }
    }
}

} // verus!
