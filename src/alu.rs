//! What each arithmetic, logic, rotate and shift operation computes: its
//! result and the four flags, over plain integers.
use vstd::prelude::*;
use crate::registers::FlagsRegister;

verus! {

pub open spec fn flags(zero: bool, subtract: bool, half_carry: bool, carry: bool) -> FlagsRegister {
    FlagsRegister { zero, subtract, half_carry, carry }
}

pub open spec fn bit(b: bool) -> int {
    if b {
        1
    } else {
        0
    }
}

/// `x` reduced into 0..=0xFFFF, wrapping in both directions.
pub open spec fn wrap16(x: int) -> u16 {
    (x % 0x10000) as u16
}

pub open spec fn wrap8(x: int) -> u8 {
    (x % 0x100) as u8
}

/// A + v: half carry out of bit 3, carry out of bit 7.
pub open spec fn add_spec(a: u8, v: u8) -> (u8, FlagsRegister) {
    let r = wrap8(a + v);
    (r, flags(r == 0, false, a % 16 + v % 16 > 15, a + v > 255))
}

/// A + v + carry; the half carry looks at the two low nibbles only.
pub open spec fn adc_spec(a: u8, v: u8, carry: bool) -> (u8, FlagsRegister) {
    let r = wrap8(a + v + bit(carry));
    (r, flags(r == 0, false, a % 16 + v % 16 > 15, a + v + bit(carry) > 255))
}

/// A - v: half carry when the low nibble borrows, carry when v exceeds A.
pub open spec fn sub_spec(a: u8, v: u8) -> (u8, FlagsRegister) {
    let r = wrap8(a - v);
    (r, flags(r == 0, true, a % 16 < v % 16, a < v))
}

/// A - v - carry; the half carry looks at the two low nibbles only.
pub open spec fn sbc_spec(a: u8, v: u8, carry: bool) -> (u8, FlagsRegister) {
    let r = wrap8(a - v - bit(carry));
    (r, flags(r == 0, true, a % 16 < v % 16, a < v + bit(carry)))
}

/// AND, OR and XOR clear carry and set half carry.
pub open spec fn and_spec(a: u8, v: u8) -> (u8, FlagsRegister) {
    (a & v, flags(a & v == 0, false, true, false))
}

pub open spec fn or_spec(a: u8, v: u8) -> (u8, FlagsRegister) {
    (a | v, flags(a | v == 0, false, true, false))
}

pub open spec fn xor_spec(a: u8, v: u8) -> (u8, FlagsRegister) {
    (a ^ v, flags(a ^ v == 0, false, true, false))
}

/// 8-bit increment; the carry is the wrap from 0xFF to 0.
pub open spec fn inc8_spec(v: u8) -> (u8, FlagsRegister) {
    let r = wrap8(v + 1);
    (r, flags(r == 0, false, v % 16 == 15, v == 255))
}

/// 8-bit decrement; subtract stays clear and the carry is the wrap from 0
/// to 0xFF.
pub open spec fn dec8_spec(v: u8) -> (u8, FlagsRegister) {
    let r = wrap8(v - 1);
    (r, flags(r == 0, false, v % 16 == 0, v == 0))
}

/// 16-bit increment: the flags as for the 8-bit form, with the half carry
/// out of bit 11.
pub open spec fn inc16_spec(v: u16) -> (u16, FlagsRegister) {
    let r = wrap16(v + 1);
    (r, flags(r == 0, false, v % 4096 == 4095, v == 0xFFFF))
}

/// 16-bit decrement: the flags as for the 8-bit form, with the half borrow
/// from bit 12.
pub open spec fn dec16_spec(v: u16) -> (u16, FlagsRegister) {
    let r = wrap16(v - 1);
    (r, flags(r == 0, false, v % 4096 == 0, v == 0))
}

/// HL + v: half carry out of bit 11, carry out of bit 15.
pub open spec fn addhl_spec(hl: u16, v: u16) -> (u16, FlagsRegister) {
    let r = wrap16(hl + v);
    (r, flags(r == 0, false, hl % 4096 + v % 4096 > 4095, hl + v > 0xFFFF))
}

/// SP plus the signed byte `e`; both carries come from adding the unsigned
/// byte to the low byte of SP.
pub open spec fn addsp_spec(sp: u16, e: u8) -> (u16, FlagsRegister) {
    let offset = if e >= 128 {
        e - 256
    } else {
        e as int
    };
    (wrap16(sp + offset), flags(false, false, sp % 16 + e % 16 > 15, sp % 256 + e > 255))
}

/// Rotate left; bit 7 goes to the carry and to bit 0.
pub open spec fn rlc_spec(v: u8) -> (u8, FlagsRegister) {
    let r = wrap8(v * 2 + bit(v >= 128));
    (r, flags(r == 0, false, false, v >= 128))
}

/// Rotate right; bit 0 goes to the carry and to bit 7.
pub open spec fn rrc_spec(v: u8) -> (u8, FlagsRegister) {
    let r = (v / 2 + 128 * bit(v % 2 == 1)) as u8;
    (r, flags(r == 0, false, false, v % 2 == 1))
}

/// Rotate left through the carry.
pub open spec fn rl_spec(v: u8, carry: bool) -> (u8, FlagsRegister) {
    let r = wrap8(v * 2 + bit(carry));
    (r, flags(r == 0, false, false, v >= 128))
}

/// Rotate right through the carry.
pub open spec fn rr_spec(v: u8, carry: bool) -> (u8, FlagsRegister) {
    let r = (v / 2 + 128 * bit(carry)) as u8;
    (r, flags(r == 0, false, false, v % 2 == 1))
}

/// Shift left; bit 7 goes to the carry.
pub open spec fn sla_spec(v: u8) -> (u8, FlagsRegister) {
    let r = wrap8(v * 2);
    (r, flags(r == 0, false, false, v >= 128))
}

/// Arithmetic shift right: bit 7 stays, bit 0 goes to the carry.
pub open spec fn sra_spec(v: u8) -> (u8, FlagsRegister) {
    let r = (v / 2 + 128 * bit(v >= 128)) as u8;
    (r, flags(r == 0, false, false, v % 2 == 1))
}

/// Logical shift right: bit 0 goes to the carry.
pub open spec fn srl_spec(v: u8) -> (u8, FlagsRegister) {
    let r = (v / 2) as u8;
    (r, flags(r == 0, false, false, v % 2 == 1))
}

/// Exchanges the two nibbles; clears every flag but zero.
pub open spec fn swap_spec(v: u8) -> (u8, FlagsRegister) {
    let r = ((v % 16) * 16 + v / 16) as u8;
    (r, flags(r == 0, false, false, false))
}

/// The accumulator-only rotates: as their general forms, with zero cleared.
pub open spec fn accumulator_form(res: (u8, FlagsRegister)) -> (u8, FlagsRegister) {
    (res.0, FlagsRegister { zero: false, ..res.1 })
}

/// BIT: zero when bit `b` of `v` is clear; half carry set, carry kept.
pub open spec fn bit_spec(b: u8, v: u8, f: FlagsRegister) -> FlagsRegister {
    flags((v >> (b % 8)) & 1 == 0, false, true, f.carry)
}

pub open spec fn res_spec(b: u8, v: u8) -> u8 {
    v & !(1u8 << (b % 8))
}

pub open spec fn set_spec(b: u8, v: u8) -> u8 {
    v | (1u8 << (b % 8))
}

/// Decimal adjust: 0x06 corrects the low digit, 0x60 the high one, added
/// after an addition and subtracted after a subtraction.
pub open spec fn daa_spec(a: u8, f: FlagsRegister) -> (u8, FlagsRegister) {
    let low = f.half_carry || a % 16 > 9;
    let high = f.carry || a > 0x99;
    let correction = 6 * bit(low) + 0x60 * bit(high);
    let r = if f.subtract {
        wrap8(a - correction)
    } else {
        wrap8(a + correction)
    };
    (r, flags(r == 0, f.subtract, false, high))
}

/// A value whose two nibbles are decimal digits.
pub open spec fn is_packed_bcd(a: u8) -> bool {
    a % 16 <= 9 && a / 16 <= 9
}

/// Decimal adjust leaves a packed decimal value alone when no flag asks
/// for a correction.
pub proof fn lemma_daa_keeps_packed_bcd(a: u8, f: FlagsRegister)
    requires
        is_packed_bcd(a),
        !f.subtract,
        !f.half_carry,
        !f.carry,
    ensures
        daa_spec(a, f).0 == a,
        !daa_spec(a, f).1.carry,
{
}

} // verus!
