//! The button register: two select lines and four active-low input lines.
use vstd::prelude::*;

verus! {

/// Each field is the level of its line: `true` is high, that is a group not
/// selected or a button released.
#[derive(Clone, Copy, Debug, PartialEq, Eq, Structural)]
pub struct Joypad {
    pub select_buttons: bool,
    pub select_dpad: bool,
    pub start_down: bool,
    pub select_up: bool,
    pub b_left: bool,
    pub a_right: bool,
}

pub open spec fn level(b: bool, v: int) -> int {
    if b {
        v
    } else {
        0
    }
}

impl Joypad {
    /// The register's low six bits: select lines in bits 5 and 4, input lines
    /// in bits 3..0.
    pub open spec fn byte(self) -> u8 {
        (level(self.select_buttons, 32) + level(self.select_dpad, 16) + level(self.start_down, 8)
            + level(self.select_up, 4) + level(self.b_left, 2) + level(self.a_right, 1)) as u8
    }

    pub open spec fn of_byte(value: u8) -> Joypad {
        Joypad {
            select_buttons: value & 32 != 0,
            select_dpad: value & 16 != 0,
            start_down: value & 8 != 0,
            select_up: value & 4 != 0,
            b_left: value & 2 != 0,
            a_right: value & 1 != 0,
        }
    }

    pub open spec fn released() -> Joypad {
        Joypad {
            select_buttons: true,
            select_dpad: true,
            start_down: true,
            select_up: true,
            b_left: true,
            a_right: true,
        }
    }

    /// No group selected, every button released.
    pub fn new() -> (r: Joypad)
        ensures
            r == Joypad::released(),
    {
        Joypad {
            select_buttons: true,
            select_dpad: true,
            start_down: true,
            select_up: true,
            b_left: true,
            a_right: true,
        }
    }

    pub fn reset_joypad(&mut self)
        ensures
            *final(self) == Joypad::released(),
        no_unwind
    {
        self.select_buttons = true;
        self.select_dpad = true;
        self.start_down = true;
        self.select_up = true;
        self.b_left = true;
        self.a_right = true;
    }

    /// Decodes the six lines from the low six bits of `value`.
    pub fn from_byte(value: u8) -> (r: Joypad)
        ensures
            r == Joypad::of_byte(value),
    {
        Joypad {
            select_buttons: value & 32 != 0,
            select_dpad: value & 16 != 0,
            start_down: value & 8 != 0,
            select_up: value & 4 != 0,
            b_left: value & 2 != 0,
            a_right: value & 1 != 0,
        }
    }

    pub fn to_byte(&self) -> (r: u8)
        ensures
            r == self.byte(),
    {
        (if self.select_buttons { 32u8 } else { 0 }) + (if self.select_dpad { 16u8 } else { 0 }) + (
        if self.start_down { 8u8 } else { 0 }) + (if self.select_up { 4u8 } else { 0 }) + (
        if self.b_left { 2u8 } else { 0 }) + (if self.a_right { 1u8 } else { 0 })
    }

    /// What a program writes: only the two select lines (bits 5 and 4); the
    /// input lines belong to the buttons.
    pub fn select(&mut self, value: u8)
        ensures
            *final(self) == (Joypad {
                select_buttons: value & 32 != 0,
                select_dpad: value & 16 != 0,
                ..*old(self)
            }),
        no_unwind
    {
        self.select_buttons = value & 32 != 0;
        self.select_dpad = value & 16 != 0;
    }
}

/// Encoding the lines and decoding them again gives the same lines.
pub proof fn lemma_joypad_round_trip(j: Joypad)
    ensures
        Joypad::of_byte(j.byte()) == j,
{
    let b = j.byte();
    assert(b == (if j.select_buttons { 32u8 } else { 0u8 }) + (if j.select_dpad { 16u8 } else { 0u8 })
        + (if j.start_down { 8u8 } else { 0u8 }) + (if j.select_up { 4u8 } else { 0u8 }) + (if j.b_left {
        2u8
    } else {
        0u8
    }) + (if j.a_right { 1u8 } else { 0u8 }));
    let (s1, s2, s3, s4, s5, s6) = (j.select_buttons, j.select_dpad, j.start_down, j.select_up, j.b_left, j.a_right);
    assert({
        let x = ((if s1 { 32u8 } else { 0u8 }) + (if s2 { 16u8 } else { 0u8 }) + (if s3 { 8u8 } else { 0u8 }) + (if s4 { 4u8 } else { 0u8 }) + (if s5 { 2u8 } else { 0u8 }) + (if s6 { 1u8 } else { 0u8 })) as u8;
        (x & 32 != 0) == s1 && (x & 16 != 0) == s2 && (x & 8 != 0) == s3 && (x & 4 != 0) == s4 && (x & 2 != 0) == s5 && (x & 1 != 0) == s6
    }) by (bit_vector);
}

} // verus!
