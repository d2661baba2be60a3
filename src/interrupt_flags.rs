//! The five interrupt lines as the IE and IF registers hold them.
use vstd::prelude::*;

verus! {

#[derive(Clone, Copy, Debug, PartialEq, Eq, Structural)]
pub struct InterruptFlags {
    pub vblank: bool,
    pub lcd_stat: bool,
    pub timer: bool,
    pub serial: bool,
    pub joypad: bool,
}

impl InterruptFlags {
    /// The register byte: vblank in bit 0 up to joypad in bit 4.
    pub open spec fn byte(self) -> u8 {
        ((if self.vblank { 1int } else { 0 }) + (if self.lcd_stat { 2int } else { 0 }) + (
        if self.timer { 4int } else { 0 }) + (if self.serial { 8int } else { 0 }) + (
        if self.joypad { 16int } else { 0 })) as u8
    }

    /// The lines that the low five bits of `b` raise.
    pub open spec fn of_byte(b: u8) -> InterruptFlags {
        InterruptFlags {
            vblank: b & 0x01 != 0,
            lcd_stat: b & 0x02 != 0,
            timer: b & 0x04 != 0,
            serial: b & 0x08 != 0,
            joypad: b & 0x10 != 0,
        }
    }

    /// No line raised.
    pub fn new() -> (r: InterruptFlags)
        ensures
            r == InterruptFlags::of_byte(0),
            r.byte() == 0,
    {
        proof {
            assert(0u8 & 0x01 == 0 && 0u8 & 0x02 == 0 && 0u8 & 0x04 == 0 && 0u8 & 0x08 == 0 && 0u8
                & 0x10 == 0) by (bit_vector);
        }
        InterruptFlags { vblank: false, lcd_stat: false, timer: false, serial: false, joypad: false }
    }

    pub fn to_byte(&self) -> (r: u8)
        ensures
            r == self.byte(),
    {
        (if self.vblank { 1u8 } else { 0 }) + (if self.lcd_stat { 2u8 } else { 0 }) + (if self.timer {
            4u8
        } else {
            0
        }) + (if self.serial { 8u8 } else { 0 }) + (if self.joypad { 16u8 } else { 0 })
    }

    /// Loads the lines from the low five bits of `byte`.
    pub fn from_byte(&mut self, byte: u8)
        ensures
            *final(self) == InterruptFlags::of_byte(byte),
        no_unwind
    {
        self.vblank = byte & 0x01 != 0;
        self.lcd_stat = byte & 0x02 != 0;
        self.timer = byte & 0x04 != 0;
        self.serial = byte & 0x08 != 0;
        self.joypad = byte & 0x10 != 0;
    }
}

} // verus!
