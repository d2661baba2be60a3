//! The register file: seven 8-bit registers, a four-flag register packed
//! into the top nibble of a virtual F register, and 16-bit paired views.
use vstd::prelude::*;

verus! {

/// Bit masks of the four flags inside the packed F register.
pub const ZERO_FLAG_MASK: u8 = 0x80;
pub const SUBTRACT_FLAG_MASK: u8 = 0x40;
pub const HALF_CARRY_FLAG_MASK: u8 = 0x20;
pub const CARRY_FLAG_MASK: u8 = 0x10;

/// The four condition flags.
#[derive(Clone, Copy, Debug, PartialEq, Eq, Structural)]
pub struct FlagsRegister {
    pub zero: bool,
    pub subtract: bool,
    pub half_carry: bool,
    pub carry: bool,
}

/// The 8-bit registers and the flags.
#[derive(Clone, Copy, Debug, PartialEq, Eq, Structural)]
pub struct Registers {
    pub a: u8,
    pub b: u8,
    pub c: u8,
    pub d: u8,
    pub e: u8,
    pub f: FlagsRegister,
    pub h: u8,
    pub l: u8,
}

/// The byte whose bits 7..4 hold the flags and whose low nibble is zero.
pub open spec fn flags_byte(zero: bool, subtract: bool, half_carry: bool, carry: bool) -> u8 {
    (if zero { ZERO_FLAG_MASK } else { 0u8 }) | (if subtract { SUBTRACT_FLAG_MASK } else { 0u8 }) | (
    if half_carry { HALF_CARRY_FLAG_MASK } else { 0u8 }) | (if carry { CARRY_FLAG_MASK } else { 0u8 })
}

/// A 16-bit value made of a high and a low byte.
pub open spec fn word_of(hi: u8, lo: u8) -> u16 {
    (hi as int * 256 + lo as int) as u16
}

/// The high byte of a 16-bit value.
pub open spec fn high_byte(v: u16) -> u8 {
    (v / 256) as u8
}

/// The low byte of a 16-bit value.
pub open spec fn low_byte(v: u16) -> u8 {
    (v % 256) as u8
}

pub proof fn lemma_word_of_bytes(hi: u8, lo: u8)
    ensures
        ((hi as u16) << 8u16 | lo as u16) == word_of(hi, lo),
        high_byte(word_of(hi, lo)) == hi,
        low_byte(word_of(hi, lo)) == lo,
{
    assert(((hi as u16) << 8u16 | lo as u16) == hi as u16 * 256 + lo as u16) by (bit_vector);
}

pub proof fn lemma_bytes_of_word(v: u16)
    ensures
        (((v & 0xFF00u16) >> 8u16) as u8) == high_byte(v),
        ((v & 0xFFu16) as u8) == low_byte(v),
        word_of(high_byte(v), low_byte(v)) == v,
{
    assert(((v & 0xFF00u16) >> 8u16) == v / 256) by (bit_vector);
    assert((v & 0xFFu16) == v % 256) by (bit_vector);
}

impl FlagsRegister {
    /// The packed F byte of these flags.
    pub open spec fn byte(self) -> u8 {
        flags_byte(self.zero, self.subtract, self.half_carry, self.carry)
    }

    /// The flags that a byte's top nibble encodes; its low nibble is ignored.
    pub open spec fn of_byte(b: u8) -> FlagsRegister {
        FlagsRegister {
            zero: b & ZERO_FLAG_MASK != 0,
            subtract: b & SUBTRACT_FLAG_MASK != 0,
            half_carry: b & HALF_CARRY_FLAG_MASK != 0,
            carry: b & CARRY_FLAG_MASK != 0,
        }
    }

    /// Decodes the flags from the top nibble of `byte`.
    pub fn from_byte(byte: u8) -> (r: FlagsRegister)
        ensures
            r == FlagsRegister::of_byte(byte),
    {
        FlagsRegister {
            zero: byte & ZERO_FLAG_MASK != 0,
            subtract: byte & SUBTRACT_FLAG_MASK != 0,
            half_carry: byte & HALF_CARRY_FLAG_MASK != 0,
            carry: byte & CARRY_FLAG_MASK != 0,
        }
    }

    /// Packs the flags into bits 7..4 of a byte.
    pub fn to_byte(&self) -> (r: u8)
        ensures
            r == self.byte(),
            r % 16 == 0,
    {
        let r = (if self.zero { ZERO_FLAG_MASK } else { 0u8 }) | (if self.subtract {
            SUBTRACT_FLAG_MASK
        } else {
            0u8
        }) | (if self.half_carry { HALF_CARRY_FLAG_MASK } else { 0u8 }) | (if self.carry {
            CARRY_FLAG_MASK
        } else {
            0u8
        });
        proof {
            lemma_flags_byte_low_nibble(self.zero, self.subtract, self.half_carry, self.carry);
        }
        r
    }
}

/// The packed F byte never has a bit of its low nibble set.
pub proof fn lemma_flags_byte_low_nibble(zero: bool, subtract: bool, half_carry: bool, carry: bool)
    ensures
        flags_byte(zero, subtract, half_carry, carry) % 16 == 0,
{
    assert(((if zero { 0x80u8 } else { 0u8 }) | (if subtract { 0x40u8 } else { 0u8 }) | (
    if half_carry { 0x20u8 } else { 0u8 }) | (if carry { 0x10u8 } else { 0u8 })) % 16 == 0)
        by (bit_vector);
}

/// Decoding a byte's flags and packing them again keeps exactly its top nibble.
pub proof fn lemma_flags_round_trip(b: u8)
    ensures
        FlagsRegister::of_byte(b).byte() == b & 0xF0,
{
    assert(((if b & 0x80u8 != 0 { 0x80u8 } else { 0u8 }) | (if b & 0x40u8 != 0 {
        0x40u8
    } else {
        0u8
    }) | (if b & 0x20u8 != 0 { 0x20u8 } else { 0u8 }) | (if b & 0x10u8 != 0 {
        0x10u8
    } else {
        0u8
    })) == b & 0xF0u8) by (bit_vector);
}

impl Registers {
    /// The AF pair: A in the high byte, the packed flags in the low byte.
    pub open spec fn af(self) -> u16 {
        word_of(self.a, self.f.byte())
    }

    pub open spec fn bc(self) -> u16 {
        word_of(self.b, self.c)
    }

    pub open spec fn de(self) -> u16 {
        word_of(self.d, self.e)
    }

    pub open spec fn hl(self) -> u16 {
        word_of(self.h, self.l)
    }

    /// The registers after AF is loaded with `v`: only the top nibble of the
    /// low byte reaches the flags.
    pub open spec fn with_af(self, v: u16) -> Registers {
        Registers { a: high_byte(v), f: FlagsRegister::of_byte(low_byte(v)), ..self }
    }

    pub open spec fn with_bc(self, v: u16) -> Registers {
        Registers { b: high_byte(v), c: low_byte(v), ..self }
    }

    pub open spec fn with_de(self, v: u16) -> Registers {
        Registers { d: high_byte(v), e: low_byte(v), ..self }
    }

    pub open spec fn with_hl(self, v: u16) -> Registers {
        Registers { h: high_byte(v), l: low_byte(v), ..self }
    }

    pub fn set_bc(&mut self, value: u16)
        ensures
            *final(self) == old(self).with_bc(value),
    {
        proof {
            lemma_bytes_of_word(value);
        }
        self.b = ((value & 0xFF00) >> 8) as u8;
        self.c = (value & 0xFF) as u8;
    }

    pub fn get_bc(&self) -> (r: u16)
        ensures
            r == self.bc(),
    {
        proof {
            lemma_word_of_bytes(self.b, self.c);
        }
        (self.b as u16) << 8 | self.c as u16
    }

    pub fn set_af(&mut self, value: u16)
        ensures
            *final(self) == old(self).with_af(value),
    {
        proof {
            lemma_bytes_of_word(value);
        }
        self.a = ((value & 0xFF00) >> 8) as u8;
        self.f = FlagsRegister::from_byte((value & 0xFF) as u8);
    }

    pub fn get_af(&self) -> (r: u16)
        ensures
            r == self.af(),
            r % 16 == 0,
    {
        let f_byte = self.f.to_byte();
        proof {
            lemma_word_of_bytes(self.a, f_byte);
        }
        (self.a as u16) << 8 | f_byte as u16
    }

    pub fn set_de(&mut self, value: u16)
        ensures
            *final(self) == old(self).with_de(value),
    {
        proof {
            lemma_bytes_of_word(value);
        }
        self.d = ((value & 0xFF00) >> 8) as u8;
        self.e = (value & 0xFF) as u8;
    }

    pub fn get_de(&self) -> (r: u16)
        ensures
            r == self.de(),
    {
        proof {
            lemma_word_of_bytes(self.d, self.e);
        }
        (self.d as u16) << 8 | self.e as u16
    }

    pub fn set_hl(&mut self, value: u16)
        ensures
            *final(self) == old(self).with_hl(value),
    {
        proof {
            lemma_bytes_of_word(value);
        }
        self.h = ((value & 0xFF00) >> 8) as u8;
        self.l = (value & 0xFF) as u8;
    }

    pub fn get_hl(&self) -> (r: u16)
        ensures
            r == self.hl(),
    {
        proof {
            lemma_word_of_bytes(self.h, self.l);
        }
        (self.h as u16) << 8 | self.l as u16
    }
}

impl Registers {
    /// Every register zero and every flag clear.
    pub open spec fn initial() -> Registers {
        Registers {
            a: 0,
            b: 0,
            c: 0,
            d: 0,
            e: 0,
            f: FlagsRegister { zero: false, subtract: false, half_carry: false, carry: false },
            h: 0,
            l: 0,
        }
    }
}

impl Default for Registers {
    fn default() -> (r: Registers)
        ensures
            r == Registers::initial(),
    {
        proof {
            assert(0u8 & 0x80 == 0 && 0u8 & 0x40 == 0 && 0u8 & 0x20 == 0 && 0u8 & 0x10 == 0)
                by (bit_vector);
        }
        Registers { a: 0, b: 0, c: 0, d: 0, e: 0, f: FlagsRegister::from_byte(0), h: 0, l: 0 }
    }
}

/// Loading AF with `x` and reading it back gives the high byte of `x` and the
/// top nibble of its low byte: the low nibble always reads as zero.
pub proof fn lemma_af_round_trip(r: Registers, x: u16)
    ensures
        r.with_af(x).af() == (x & 0xFF00) | (x & 0x00F0),
        r.with_af(x).af() % 16 == 0,
{
    let lo = low_byte(x);
    lemma_flags_round_trip(lo);
    lemma_flags_byte_low_nibble(
        FlagsRegister::of_byte(lo).zero,
        FlagsRegister::of_byte(lo).subtract,
        FlagsRegister::of_byte(lo).half_carry,
        FlagsRegister::of_byte(lo).carry,
    );
    assert(word_of(high_byte(x), low_byte(x) & 0xF0) == (x & 0xFF00) | (x & 0x00F0)) by {
        assert(((x / 256) as u8 as int * 256 + (((x % 256) as u8) & 0xF0u8) as int) as u16 == (x
            & 0xFF00) | (x & 0x00F0)) by (bit_vector);
    }
}

/// Loading a pair with `v` and reading it back gives `v`, for BC, DE and HL.
pub proof fn lemma_pair_round_trip(r: Registers, v: u16)
    ensures
        r.with_bc(v).bc() == v,
        r.with_de(v).de() == v,
        r.with_hl(v).hl() == v,
{
    lemma_bytes_of_word(v);
}

} // verus!
