//! The execution engine: registers, program counter, stack pointer and
//! interrupt state over the memory bus; executes one decoded instruction at
//! a time.
use vstd::prelude::*;
use crate::alu::{
    accumulator_form, adc_spec, add_spec, addhl_spec, addsp_spec, and_spec, bit_spec, daa_spec,
    bit, dec16_spec, dec8_spec, flags, inc16_spec, inc8_spec, or_spec, res_spec, rl_spec, rlc_spec,
    rr_spec, rrc_spec, sbc_spec, set_spec, sla_spec, sra_spec, srl_spec, sub_spec, swap_spec,
    wrap16, wrap8, xor_spec,
};
use crate::error::EmulatorError;
use crate::instruction::{
    decode, ArithmeticTarget, ArithmeticTarget16, Instruction, JumpTest, LoadByteAddress,
    LoadByteIndirect, LoadType, LoadWordSource, LoadWordTarget, RstTargets,
};
use crate::memory::{
    initial_bus, is_storage, lemma_read_after_write, ppu_advanced, read_spec, read_word_spec, region, region_of,
    write_spec, BusView, MemoryBus, Region,
};
use crate::timing::{
    cycles_of, instruction_cycles, HALTED_CYCLES, INTERRUPT_SERVICE_CYCLES,
};
use crate::registers::{high_byte, low_byte, word_of, FlagsRegister, Registers};

verus! {

/// The byte that announces an opcode of the secondary table.
pub const PREFIX_BYTE: u8 = 0xCB;

pub struct CPU {
    pub registers: Registers,
    pub pc: u16,
    pub sp: u16,
    pub bus: MemoryBus,
    pub is_halted: bool,
    pub ime: bool,
    /// Set by EI: interrupts are enabled once the next instruction is done.
    pub ime_scheduled: bool,
    pub stopped: bool,
}

/// The processor's state, with the bus seen through its view.
pub struct CpuView {
    pub registers: Registers,
    pub pc: u16,
    pub sp: u16,
    pub bus: BusView,
    pub is_halted: bool,
    pub ime: bool,
    pub ime_scheduled: bool,
    pub stopped: bool,
}

impl View for CPU {
    type V = CpuView;

    open spec fn view(&self) -> CpuView {
        CpuView {
            registers: self.registers,
            pc: self.pc,
            sp: self.sp,
            bus: self.bus@,
            is_halted: self.is_halted,
            ime: self.ime,
            ime_scheduled: self.ime_scheduled,
            stopped: self.stopped,
        }
    }
}

pub open spec fn with_flags(s: CpuView, f: FlagsRegister) -> CpuView {
    CpuView { registers: Registers { f: f, ..s.registers }, ..s }
}

pub open spec fn with_a(s: CpuView, a: u8) -> CpuView {
    CpuView { registers: Registers { a: a, ..s.registers }, ..s }
}

/// The address `n` bytes after the program counter.
pub open spec fn pc_plus(s: CpuView, n: int) -> u16 {
    wrap16(s.pc + n)
}

/// The byte after the opcode.
pub open spec fn imm8(s: CpuView) -> u8 {
    read_spec(s.bus, pc_plus(s, 1))
}

/// The little-endian word after the opcode.
pub open spec fn imm16(s: CpuView) -> u16 {
    read_word_spec(s.bus, pc_plus(s, 1))
}

/// The value of an 8-bit operand.
pub open spec fn operand(s: CpuView, t: ArithmeticTarget) -> u8 {
    match t {
        ArithmeticTarget::A => s.registers.a,
        ArithmeticTarget::B => s.registers.b,
        ArithmeticTarget::C => s.registers.c,
        ArithmeticTarget::D => s.registers.d,
        ArithmeticTarget::E => s.registers.e,
        ArithmeticTarget::H => s.registers.h,
        ArithmeticTarget::L => s.registers.l,
        ArithmeticTarget::HL => read_spec(s.bus, s.registers.hl()),
        ArithmeticTarget::U8 => imm8(s),
    }
}

/// The state after an 8-bit operand is given `v`; an immediate takes nothing.
pub open spec fn set_operand(s: CpuView, t: ArithmeticTarget, v: u8) -> CpuView {
    match t {
        ArithmeticTarget::A => CpuView { registers: Registers { a: v, ..s.registers }, ..s },
        ArithmeticTarget::B => CpuView { registers: Registers { b: v, ..s.registers }, ..s },
        ArithmeticTarget::C => CpuView { registers: Registers { c: v, ..s.registers }, ..s },
        ArithmeticTarget::D => CpuView { registers: Registers { d: v, ..s.registers }, ..s },
        ArithmeticTarget::E => CpuView { registers: Registers { e: v, ..s.registers }, ..s },
        ArithmeticTarget::H => CpuView { registers: Registers { h: v, ..s.registers }, ..s },
        ArithmeticTarget::L => CpuView { registers: Registers { l: v, ..s.registers }, ..s },
        ArithmeticTarget::HL => CpuView { bus: write_spec(s.bus, s.registers.hl(), v), ..s },
        ArithmeticTarget::U8 => s,
    }
}

/// Giving the operand a value would write into the unused range.
pub open spec fn operand_faults(s: CpuView, t: ArithmeticTarget) -> bool {
    t is HL && region_of(s.registers.hl()) is Unused
}

/// Bytes of an accumulator operation: two with an immediate operand.
pub open spec fn operand_length(t: ArithmeticTarget) -> int {
    if t is U8 {
        2
    } else {
        1
    }
}

pub open spec fn pair_value(s: CpuView, p: ArithmeticTarget16) -> u16 {
    match p {
        ArithmeticTarget16::HL => s.registers.hl(),
        ArithmeticTarget16::BC => s.registers.bc(),
        ArithmeticTarget16::DE => s.registers.de(),
        ArithmeticTarget16::AF => s.registers.af(),
        ArithmeticTarget16::SP => s.sp,
    }
}

pub open spec fn with_pair(s: CpuView, p: ArithmeticTarget16, v: u16) -> CpuView {
    match p {
        ArithmeticTarget16::HL => CpuView { registers: s.registers.with_hl(v), ..s },
        ArithmeticTarget16::BC => CpuView { registers: s.registers.with_bc(v), ..s },
        ArithmeticTarget16::DE => CpuView { registers: s.registers.with_de(v), ..s },
        ArithmeticTarget16::AF => CpuView { registers: s.registers.with_af(v), ..s },
        ArithmeticTarget16::SP => CpuView { sp: v, ..s },
    }
}

/// Whether a jump condition holds under the flags.
pub open spec fn condition_holds(f: FlagsRegister, t: JumpTest) -> bool {
    match t {
        JumpTest::NotZero => !f.zero,
        JumpTest::Zero => f.zero,
        JumpTest::NotCarry => !f.carry,
        JumpTest::Carry => f.carry,
        JumpTest::Always => true,
    }
}

pub open spec fn unused_write(address: u16) -> EmulatorError {
    EmulatorError::WriteToUnused { address }
}

/// An accumulator operation: A and the flags take the result.
pub open spec fn accumulate(s: CpuView, t: ArithmeticTarget, res: (u8, FlagsRegister)) -> (
    CpuView,
    Result<u16, EmulatorError>,
) {
    (with_flags(with_a(s, res.0), res.1), Ok(pc_plus(s, operand_length(t))))
}

/// A comparison: only the flags change.
pub open spec fn compare(s: CpuView, t: ArithmeticTarget, f: FlagsRegister) -> (
    CpuView,
    Result<u16, EmulatorError>,
) {
    (with_flags(s, f), Ok(pc_plus(s, operand_length(t))))
}

/// A read-modify-write of an operand: the flags, then the operand; nothing
/// changes when the operand lies in the unused range.
pub open spec fn modify(s: CpuView, t: ArithmeticTarget, res: (u8, FlagsRegister), len: int) -> (
    CpuView,
    Result<u16, EmulatorError>,
) {
    if operand_faults(s, t) {
        (s, Err(unused_write(s.registers.hl())))
    } else {
        (set_operand(with_flags(s, res.1), t, res.0), Ok(pc_plus(s, len)))
    }
}

impl CPU {
    /// A processor at address 0 over a bus built from the two ROM images.
    pub fn new(boot_rom: Vec<u8>, game_rom: Vec<u8>) -> (r: CPU)
        requires
            boot_rom@.len() == crate::memory::BOOT_ROM_SIZE,
            game_rom@.len() >= crate::memory::GAME_ROM_SIZE,
        ensures
            r@.bus == initial_bus(boot_rom@, game_rom@),
            r@.registers == Registers::initial(),
            r@.pc == 0,
            r@.sp == 0,
            !r@.is_halted && !r@.ime && !r@.ime_scheduled && !r@.stopped,
    {
        CPU {
            registers: Registers::default(),
            pc: 0,
            sp: 0,
            bus: MemoryBus::new(boot_rom, game_rom),
            is_halted: false,
            ime: false,
            ime_scheduled: false,
            stopped: false,
        }
    }

    fn read_operand(&self, t: ArithmeticTarget) -> (r: u8)
        ensures
            r == operand(self@, t),
    {
        match t {
            ArithmeticTarget::A => self.registers.a,
            ArithmeticTarget::B => self.registers.b,
            ArithmeticTarget::C => self.registers.c,
            ArithmeticTarget::D => self.registers.d,
            ArithmeticTarget::E => self.registers.e,
            ArithmeticTarget::H => self.registers.h,
            ArithmeticTarget::L => self.registers.l,
            ArithmeticTarget::HL => self.bus.read_byte(self.registers.get_hl()),
            ArithmeticTarget::U8 => self.read_next_byte(),
        }
    }

    fn operand_faults(&self, t: ArithmeticTarget) -> (r: bool)
        ensures
            r == operand_faults(self@, t),
    {
        match t {
            ArithmeticTarget::HL => matches!(region(self.registers.get_hl()), Region::Unused),
            _ => false,
        }
    }

    fn write_operand(&mut self, t: ArithmeticTarget, v: u8)
        requires
            !operand_faults(old(self)@, t),
        ensures
            final(self)@ == set_operand(old(self)@, t, v),
    {
        match t {
            ArithmeticTarget::A => self.registers.a = v,
            ArithmeticTarget::B => self.registers.b = v,
            ArithmeticTarget::C => self.registers.c = v,
            ArithmeticTarget::D => self.registers.d = v,
            ArithmeticTarget::E => self.registers.e = v,
            ArithmeticTarget::H => self.registers.h = v,
            ArithmeticTarget::L => self.registers.l = v,
            ArithmeticTarget::HL => {
                let _ = self.bus.write_byte(self.registers.get_hl(), v);
            },
            ArithmeticTarget::U8 => {},
        }
    }

    fn read_pair(&self, p: ArithmeticTarget16) -> (r: u16)
        ensures
            r == pair_value(self@, p),
    {
        match p {
            ArithmeticTarget16::HL => self.registers.get_hl(),
            ArithmeticTarget16::BC => self.registers.get_bc(),
            ArithmeticTarget16::DE => self.registers.get_de(),
            ArithmeticTarget16::AF => self.registers.get_af(),
            ArithmeticTarget16::SP => self.sp,
        }
    }

    fn write_pair(&mut self, p: ArithmeticTarget16, v: u16)
        ensures
            final(self)@ == with_pair(old(self)@, p, v),
    {
        match p {
            ArithmeticTarget16::HL => self.registers.set_hl(v),
            ArithmeticTarget16::BC => self.registers.set_bc(v),
            ArithmeticTarget16::DE => self.registers.set_de(v),
            ArithmeticTarget16::AF => self.registers.set_af(v),
            ArithmeticTarget16::SP => self.sp = v,
        }
    }

    fn test(&self, t: JumpTest) -> (r: bool)
        ensures
            r == condition_holds(self.registers.f, t),
    {
        match t {
            JumpTest::NotZero => !self.registers.f.zero,
            JumpTest::Zero => self.registers.f.zero,
            JumpTest::NotCarry => !self.registers.f.carry,
            JumpTest::Carry => self.registers.f.carry,
            JumpTest::Always => true,
        }
    }

    /// The byte after the opcode.
    pub fn read_next_byte(&self) -> (r: u8)
        ensures
            r == imm8(self@),
    {
        self.bus.read_byte(self.pc.wrapping_add(1))
    }

    /// The little-endian word after the opcode.
    pub fn read_next_word(&self) -> (r: u16)
        ensures
            r == imm16(self@),
    {
        self.bus.read_word(self.pc.wrapping_add(1))
    }

    /// A + value: result (a + v) mod 256, zero iff it is 0, subtract clear,
    /// half carry iff the low nibbles sum past 0xF, carry iff a + v > 255.
    fn add(&mut self, value: u8) -> (r: u8)
        ensures
            (r, final(self).registers.f) == add_spec(old(self).registers.a, value),
            r == (old(self).registers.a + value) % 256,
            final(self).registers.f.zero == (r == 0),
            !final(self).registers.f.subtract,
            final(self).registers.f.half_carry == (old(self).registers.a % 16 + value % 16 > 15),
            final(self).registers.f.carry == (old(self).registers.a + value > 255),
            final(self)@ == with_flags(old(self)@, final(self).registers.f),
    {
        let a = self.registers.a;
        let sum = a as u16 + value as u16;
        let new_value = (sum % 256) as u8;
        self.registers.f = FlagsRegister {
            zero: new_value == 0,
            subtract: false,
            half_carry: a % 16 + value % 16 > 15,
            carry: sum > 255,
        };
        new_value
    }

    /// HL + value: half carry out of bit 11, carry out of bit 15.
    fn addhl(&mut self, value: u16) -> (r: u16)
        ensures
            (r, final(self).registers.f) == addhl_spec(old(self).registers.hl(), value),
            final(self)@ == with_flags(old(self)@, final(self).registers.f),
    {
        let hl = self.registers.get_hl();
        let sum = hl as u32 + value as u32;
        let new_value = (sum % 0x10000) as u16;
        self.registers.f = FlagsRegister {
            zero: new_value == 0,
            subtract: false,
            half_carry: hl % 4096 + value % 4096 > 4095,
            carry: sum > 0xFFFF,
        };
        new_value
    }

    /// A + value + carry, carry iff the sum passes 255.
    fn adc(&mut self, value: u8) -> (r: u8)
        ensures
            (r, final(self).registers.f) == adc_spec(
                old(self).registers.a,
                value,
                old(self).registers.f.carry,
            ),
            final(self)@ == with_flags(old(self)@, final(self).registers.f),
    {
        let a = self.registers.a;
        let sum = a as u16 + value as u16 + if self.registers.f.carry { 1 } else { 0 };
        let new_value = (sum % 256) as u8;
        self.registers.f = FlagsRegister {
            zero: new_value == 0,
            subtract: false,
            half_carry: a % 16 + value % 16 > 15,
            carry: sum > 255,
        };
        new_value
    }

    /// A - value: result (a - v) mod 256, subtract set, half carry iff the
    /// low nibble borrows, carry iff v > a.
    fn sub(&mut self, value: u8) -> (r: u8)
        ensures
            (r, final(self).registers.f) == sub_spec(old(self).registers.a, value),
            r == (old(self).registers.a - value + 256) % 256,
            final(self).registers.f.carry == (old(self).registers.a < value),
            final(self)@ == with_flags(old(self)@, final(self).registers.f),
    {
        let a = self.registers.a;
        let new_value = ((a as u16 + 256 - value as u16) % 256) as u8;
        self.registers.f = FlagsRegister {
            zero: new_value == 0,
            subtract: true,
            half_carry: a % 16 < value % 16,
            carry: a < value,
        };
        new_value
    }

    /// A - value - carry, carry iff the subtrahend exceeds A.
    fn sbc(&mut self, value: u8) -> (r: u8)
        ensures
            (r, final(self).registers.f) == sbc_spec(
                old(self).registers.a,
                value,
                old(self).registers.f.carry,
            ),
            final(self)@ == with_flags(old(self)@, final(self).registers.f),
    {
        let a = self.registers.a;
        let borrow: u16 = if self.registers.f.carry { 1 } else { 0 };
        let subtrahend = value as u16 + borrow;
        let new_value = if a as u16 >= subtrahend {
            (a as u16 - subtrahend) as u8
        } else {
            (a as u16 + 256 - subtrahend) as u8
        };
        proof {
            let d = a - value - crate::alu::bit(self.registers.f.carry);
            assert(-256 <= d < 256);
            assert(d >= 0 ==> d % 0x100 == d);
            assert(d < 0 ==> d % 0x100 == d + 256);
            assert(new_value == wrap8(d));
        }
        self.registers.f = FlagsRegister {
            zero: new_value == 0,
            subtract: true,
            half_carry: a % 16 < value % 16,
            carry: (a as u16) < subtrahend,
        };
        new_value
    }

    fn and(&mut self, value: u8)
        ensures
            final(self)@ == with_flags(
                with_a(old(self)@, and_spec(old(self).registers.a, value).0),
                and_spec(old(self).registers.a, value).1,
            ),
    {
        self.registers.a = self.registers.a & value;
        self.registers.f = FlagsRegister {
            zero: self.registers.a == 0,
            subtract: false,
            half_carry: true,
            carry: false,
        };
    }

    fn or(&mut self, value: u8)
        ensures
            final(self)@ == with_flags(
                with_a(old(self)@, or_spec(old(self).registers.a, value).0),
                or_spec(old(self).registers.a, value).1,
            ),
    {
        self.registers.a = self.registers.a | value;
        self.registers.f = FlagsRegister {
            zero: self.registers.a == 0,
            subtract: false,
            half_carry: true,
            carry: false,
        };
    }

    fn xor(&mut self, value: u8)
        ensures
            final(self)@ == with_flags(
                with_a(old(self)@, xor_spec(old(self).registers.a, value).0),
                xor_spec(old(self).registers.a, value).1,
            ),
    {
        self.registers.a = self.registers.a ^ value;
        self.registers.f = FlagsRegister {
            zero: self.registers.a == 0,
            subtract: false,
            half_carry: true,
            carry: false,
        };
    }

    /// Compares A with value: the flags of A - value, A unchanged.
    fn cp(&mut self, value: u8)
        ensures
            final(self)@ == with_flags(old(self)@, sub_spec(old(self).registers.a, value).1),
    {
        let _ = self.sub(value);
    }

    fn inc_8(&mut self, value: u8) -> (r: u8)
        ensures
            (r, final(self).registers.f) == inc8_spec(value),
            final(self)@ == with_flags(old(self)@, final(self).registers.f),
    {
        let new_value = if value == 255 {
            0
        } else {
            value + 1
        };
        self.registers.f = FlagsRegister {
            zero: new_value == 0,
            subtract: false,
            half_carry: value % 16 == 15,
            carry: value == 255,
        };
        new_value
    }

    fn inc_16(&mut self, value: u16) -> (r: u16)
        ensures
            (r, final(self).registers.f) == inc16_spec(value),
            final(self)@ == with_flags(old(self)@, final(self).registers.f),
    {
        let new_value = value.wrapping_add(1);
        self.registers.f = FlagsRegister {
            zero: new_value == 0,
            subtract: false,
            half_carry: value % 4096 == 4095,
            carry: value == 0xFFFF,
        };
        new_value
    }

    fn dec_8(&mut self, value: u8) -> (r: u8)
        ensures
            (r, final(self).registers.f) == dec8_spec(value),
            final(self)@ == with_flags(old(self)@, final(self).registers.f),
    {
        let new_value = if value == 0 {
            255
        } else {
            value - 1
        };
        self.registers.f = FlagsRegister {
            zero: new_value == 0,
            subtract: false,
            half_carry: value % 16 == 0,
            carry: value == 0,
        };
        new_value
    }

    fn dec_16(&mut self, value: u16) -> (r: u16)
        ensures
            (r, final(self).registers.f) == dec16_spec(value),
            final(self)@ == with_flags(old(self)@, final(self).registers.f),
    {
        let new_value = value.wrapping_sub(1);
        self.registers.f = FlagsRegister {
            zero: new_value == 0,
            subtract: false,
            half_carry: value % 4096 == 0,
            carry: value == 0,
        };
        new_value
    }

    /// Complements the carry; clears subtract and half carry.
    fn ccf(&mut self)
        ensures
            final(self)@ == with_flags(
                old(self)@,
                flags(old(self).registers.f.zero, false, false, !old(self).registers.f.carry),
            ),
    {
        self.registers.f.carry = !self.registers.f.carry;
        self.registers.f.subtract = false;
        self.registers.f.half_carry = false;
    }

    /// Sets the carry; clears subtract and half carry.
    fn scf(&mut self)
        ensures
            final(self)@ == with_flags(
                old(self)@,
                flags(old(self).registers.f.zero, false, false, true),
            ),
    {
        self.registers.f.carry = true;
        self.registers.f.subtract = false;
        self.registers.f.half_carry = false;
    }

    /// Rotates A right through the carry.
    fn rra(&mut self)
        ensures
            final(self)@ == with_flags(
                with_a(old(self)@, rr_spec(old(self).registers.a, old(self).registers.f.carry).0),
                accumulator_form(rr_spec(old(self).registers.a, old(self).registers.f.carry)).1,
            ),
    {
        let a = self.registers.a;
        let old_carry: u8 = if self.registers.f.carry { 128 } else { 0 };
        self.registers.a = a / 2 + old_carry;
        self.registers.f = FlagsRegister {
            zero: false,
            subtract: false,
            half_carry: false,
            carry: a % 2 == 1,
        };
    }

    /// Rotates A left through the carry.
    fn rla(&mut self)
        ensures
            final(self)@ == with_flags(
                with_a(old(self)@, rl_spec(old(self).registers.a, old(self).registers.f.carry).0),
                accumulator_form(rl_spec(old(self).registers.a, old(self).registers.f.carry)).1,
            ),
    {
        let a = self.registers.a;
        let old_carry: u8 = if self.registers.f.carry { 1 } else { 0 };
        self.registers.a = a % 128 * 2 + old_carry;
        self.registers.f = FlagsRegister {
            zero: false,
            subtract: false,
            half_carry: false,
            carry: a >= 128,
        };
    }

    /// Rotates A right; bit 0 goes to the carry and to bit 7.
    fn rrca(&mut self)
        ensures
            final(self)@ == with_flags(
                with_a(old(self)@, rrc_spec(old(self).registers.a).0),
                accumulator_form(rrc_spec(old(self).registers.a)).1,
            ),
    {
        let a = self.registers.a;
        let low: u8 = if a % 2 == 1 { 128 } else { 0 };
        self.registers.a = a / 2 + low;
        self.registers.f = FlagsRegister {
            zero: false,
            subtract: false,
            half_carry: false,
            carry: a % 2 == 1,
        };
    }

    /// Rotates A left; bit 7 goes to the carry and to bit 0.
    fn rlca(&mut self)
        ensures
            final(self)@ == with_flags(
                with_a(old(self)@, rlc_spec(old(self).registers.a).0),
                accumulator_form(rlc_spec(old(self).registers.a)).1,
            ),
    {
        let a = self.registers.a;
        let high: u8 = if a >= 128 { 1 } else { 0 };
        self.registers.a = a % 128 * 2 + high;
        self.registers.f = FlagsRegister {
            zero: false,
            subtract: false,
            half_carry: false,
            carry: a >= 128,
        };
    }

    /// Complements A; sets subtract and half carry.
    fn cpl(&mut self)
        ensures
            final(self)@ == with_flags(
                with_a(old(self)@, !old(self).registers.a),
                flags(old(self).registers.f.zero, true, true, old(self).registers.f.carry),
            ),
    {
        self.registers.a = !self.registers.a;
        self.registers.f.subtract = true;
        self.registers.f.half_carry = true;
    }

    /// Tests bit `bit` of value.
    fn bit(&mut self, bit: u8, value: u8)
        ensures
            final(self)@ == with_flags(old(self)@, bit_spec(bit, value, old(self).registers.f)),
    {
        let to_check = (value >> (bit % 8)) & 1;
        self.registers.f.zero = to_check == 0;
        self.registers.f.subtract = false;
        self.registers.f.half_carry = true;
    }

    fn res(&self, bit: u8, value: u8) -> (r: u8)
        ensures
            r == res_spec(bit, value),
    {
        value & !(1u8 << (bit % 8))
    }

    fn set(&self, bit: u8, value: u8) -> (r: u8)
        ensures
            r == set_spec(bit, value),
    {
        value | (1u8 << (bit % 8))
    }

    fn srl(&mut self, value: u8) -> (r: u8)
        ensures
            (r, final(self).registers.f) == srl_spec(value),
            final(self)@ == with_flags(old(self)@, final(self).registers.f),
    {
        let new_value = value / 2;
        self.registers.f = FlagsRegister {
            zero: new_value == 0,
            subtract: false,
            half_carry: false,
            carry: value % 2 == 1,
        };
        new_value
    }

    fn rr(&mut self, value: u8) -> (r: u8)
        ensures
            (r, final(self).registers.f) == rr_spec(value, old(self).registers.f.carry),
            final(self)@ == with_flags(old(self)@, final(self).registers.f),
    {
        let old_carry: u8 = if self.registers.f.carry { 128 } else { 0 };
        let new_value = value / 2 + old_carry;
        self.registers.f = FlagsRegister {
            zero: new_value == 0,
            subtract: false,
            half_carry: false,
            carry: value % 2 == 1,
        };
        new_value
    }

    fn rl(&mut self, value: u8) -> (r: u8)
        ensures
            (r, final(self).registers.f) == rl_spec(value, old(self).registers.f.carry),
            final(self)@ == with_flags(old(self)@, final(self).registers.f),
    {
        let old_carry: u8 = if self.registers.f.carry { 1 } else { 0 };
        let new_value = value % 128 * 2 + old_carry;
        self.registers.f = FlagsRegister {
            zero: new_value == 0,
            subtract: false,
            half_carry: false,
            carry: value >= 128,
        };
        new_value
    }

    fn rrc(&mut self, value: u8) -> (r: u8)
        ensures
            (r, final(self).registers.f) == rrc_spec(value),
            final(self)@ == with_flags(old(self)@, final(self).registers.f),
    {
        let low: u8 = if value % 2 == 1 { 128 } else { 0 };
        let new_value = value / 2 + low;
        self.registers.f = FlagsRegister {
            zero: new_value == 0,
            subtract: false,
            half_carry: false,
            carry: value % 2 == 1,
        };
        new_value
    }

    fn rlc(&mut self, value: u8) -> (r: u8)
        ensures
            (r, final(self).registers.f) == rlc_spec(value),
            final(self)@ == with_flags(old(self)@, final(self).registers.f),
    {
        let high: u8 = if value >= 128 { 1 } else { 0 };
        let new_value = value % 128 * 2 + high;
        self.registers.f = FlagsRegister {
            zero: new_value == 0,
            subtract: false,
            half_carry: false,
            carry: value >= 128,
        };
        new_value
    }

    fn sra(&mut self, value: u8) -> (r: u8)
        ensures
            (r, final(self).registers.f) == sra_spec(value),
            final(self)@ == with_flags(old(self)@, final(self).registers.f),
    {
        let msb: u8 = if value >= 128 { 128 } else { 0 };
        let new_value = value / 2 + msb;
        self.registers.f = FlagsRegister {
            zero: new_value == 0,
            subtract: false,
            half_carry: false,
            carry: value % 2 == 1,
        };
        new_value
    }

    fn sla(&mut self, value: u8) -> (r: u8)
        ensures
            (r, final(self).registers.f) == sla_spec(value),
            final(self)@ == with_flags(old(self)@, final(self).registers.f),
    {
        let new_value = value % 128 * 2;
        self.registers.f = FlagsRegister {
            zero: new_value == 0,
            subtract: false,
            half_carry: false,
            carry: value >= 128,
        };
        new_value
    }

    fn swap(&mut self, value: u8) -> (r: u8)
        ensures
            (r, final(self).registers.f) == swap_spec(value),
            final(self)@ == with_flags(old(self)@, final(self).registers.f),
    {
        let new_value = value % 16 * 16 + value / 16;
        self.registers.f = FlagsRegister {
            zero: new_value == 0,
            subtract: false,
            half_carry: false,
            carry: false,
        };
        new_value
    }

    /// Decimal adjust of A after a packed-decimal addition or subtraction.
    fn daa(&mut self)
        ensures
            final(self)@ == with_flags(
                with_a(old(self)@, daa_spec(old(self).registers.a, old(self).registers.f).0),
                daa_spec(old(self).registers.a, old(self).registers.f).1,
            ),
    {
        let a = self.registers.a;
        let mut correction: u8 = 0;
        if self.registers.f.half_carry || a % 16 > 9 {
            correction = correction + 0x06;
        }
        let high = self.registers.f.carry || a > 0x99;
        if high {
            correction = correction + 0x60;
        }
        let new_value = if self.registers.f.subtract {
            a.wrapping_sub(correction)
        } else {
            a.wrapping_add(correction)
        };
        self.registers.a = new_value;
        self.registers.f.half_carry = false;
        self.registers.f.carry = high;
        self.registers.f.zero = new_value == 0;
    }

    /// SP plus the signed immediate byte, with the flags of adding the
    /// unsigned byte to SP's low byte.
    fn addsp(&mut self) -> (r: u16)
        ensures
            (r, final(self).registers.f) == addsp_spec(old(self).sp, imm8(old(self)@)),
            final(self)@ == with_flags(old(self)@, final(self).registers.f),
    {
        let e = self.read_next_byte();
        let sp = self.sp;
        let new_value = if e >= 128 {
            sp.wrapping_sub(256 - e as u16)
        } else {
            sp.wrapping_add(e as u16)
        };
        self.registers.f = FlagsRegister {
            zero: false,
            subtract: false,
            half_carry: sp % 16 + (e % 16) as u16 > 15,
            carry: sp % 256 + e as u16 > 255,
        };
        new_value
    }

    /// Schedules interrupts to be enabled after the next instruction.
    fn ei(&mut self)
        ensures
            final(self)@ == (CpuView { ime_scheduled: true, ..old(self)@ }),
    {
        self.ime_scheduled = true;
    }

    /// Disables interrupts at once, cancelling an enable that EI scheduled.
    fn di(&mut self)
        ensures
            final(self)@ == (CpuView { ime: false, ime_scheduled: false, ..old(self)@ }),
    {
        self.ime = false;
        self.ime_scheduled = false;
    }

    /// Applies an enable that EI scheduled.
    fn after_instruction(&mut self)
        ensures
            final(self)@ == after_instruction_spec(old(self)@),
    {
        if self.ime_scheduled {
            self.ime = true;
            self.ime_scheduled = false;
        }
    }
}

/// A scheduled enable takes effect once the instruction that follows EI is done.
pub open spec fn after_instruction_spec(s: CpuView) -> CpuView {
    if s.ime_scheduled {
        CpuView { ime: true, ime_scheduled: false, ..s }
    } else {
        s
    }
}


/// The signed value of a displacement byte.
pub open spec fn signed(e: u8) -> int {
    if e >= 128 {
        e - 256
    } else {
        e as int
    }
}

/// A store into an operand with no flag effect; nothing changes when the
/// operand lies in the unused range.
pub open spec fn store(s: CpuView, t: ArithmeticTarget, v: u8, len: int) -> (
    CpuView,
    Result<u16, EmulatorError>,
) {
    if operand_faults(s, t) {
        (s, Err(unused_write(s.registers.hl())))
    } else {
        (set_operand(s, t, v), Ok(pc_plus(s, len)))
    }
}

/// Pushes `v`: its high byte at SP - 1, its low byte at SP - 2, SP lowered
/// by two. Nothing changes when either address is unused.
pub open spec fn push_spec(s: CpuView, v: u16) -> (CpuView, Result<(), EmulatorError>) {
    let hi_address = wrap16(s.sp - 1);
    let lo_address = wrap16(s.sp - 2);
    if region_of(hi_address) is Unused {
        (s, Err(unused_write(hi_address)))
    } else if region_of(lo_address) is Unused {
        (s, Err(unused_write(lo_address)))
    } else {
        (
            CpuView {
                sp: lo_address,
                bus: write_spec(write_spec(s.bus, hi_address, high_byte(v)), lo_address, low_byte(v)),
                ..s
            },
            Ok(()),
        )
    }
}

/// Pops a word: low byte at SP, high byte at SP + 1, SP raised by two.
pub open spec fn pop_spec(s: CpuView) -> (CpuView, u16) {
    (
        CpuView { sp: wrap16(s.sp + 2), ..s },
        word_of(read_spec(s.bus, wrap16(s.sp + 1)), read_spec(s.bus, s.sp)),
    )
}

/// Pushes `v` and then goes to `target`.
pub open spec fn push_and_go(s: CpuView, v: u16, target: u16) -> (
    CpuView,
    Result<u16, EmulatorError>,
) {
    let (pushed, r) = push_spec(s, v);
    match r {
        Ok(_) => (pushed, Ok(target)),
        Err(e) => (s, Err(e)),
    }
}

pub open spec fn rst_vector(t: RstTargets) -> u16 {
    match t {
        RstTargets::X00 => 0x00,
        RstTargets::X08 => 0x08,
        RstTargets::X10 => 0x10,
        RstTargets::X18 => 0x18,
        RstTargets::X20 => 0x20,
        RstTargets::X28 => 0x28,
        RstTargets::X30 => 0x30,
        RstTargets::X38 => 0x38,
    }
}

/// The accumulator, 16-bit arithmetic and flag instructions.
pub open spec fn is_arithmetic(ins: Instruction) -> bool {
    ins is ADD || ins is ADC || ins is SUB || ins is SBC || ins is AND || ins is OR || ins is XOR
        || ins is CP || ins is INC8 || ins is DEC8 || ins is INC16 || ins is DEC16 || ins is ADDHL
        || ins is DAA || ins is CPL || ins is CCF || ins is SCF || ins is RRA || ins is RLA
        || ins is RRCA || ins is RLCA || ins is ADDSP
}

/// The instructions of the secondary table.
pub open spec fn is_prefixed(ins: Instruction) -> bool {
    ins is BIT || ins is RES || ins is SET || ins is SRL || ins is RR || ins is RL || ins is RRC
        || ins is RLC || ins is SRA || ins is SLA || ins is SWAP
}

#[verifier::opaque]
pub open spec fn arithmetic_spec(s: CpuView, ins: Instruction) -> (
    CpuView,
    Result<u16, EmulatorError>,
) {
    let a = s.registers.a;
    let f = s.registers.f;
    match ins {
        Instruction::ADD(t) => accumulate(s, t, add_spec(a, operand(s, t))),
        Instruction::ADC(t) => accumulate(s, t, adc_spec(a, operand(s, t), f.carry)),
        Instruction::SUB(t) => accumulate(s, t, sub_spec(a, operand(s, t))),
        Instruction::SBC(t) => accumulate(s, t, sbc_spec(a, operand(s, t), f.carry)),
        Instruction::AND(t) => accumulate(s, t, and_spec(a, operand(s, t))),
        Instruction::OR(t) => accumulate(s, t, or_spec(a, operand(s, t))),
        Instruction::XOR(t) => accumulate(s, t, xor_spec(a, operand(s, t))),
        Instruction::CP(t) => compare(s, t, sub_spec(a, operand(s, t)).1),
        Instruction::INC8(t) => modify(s, t, inc8_spec(operand(s, t)), 1),
        Instruction::DEC8(t) => modify(s, t, dec8_spec(operand(s, t)), 1),
        Instruction::INC16(p) => {
            let res = inc16_spec(pair_value(s, p));
            (with_pair(with_flags(s, res.1), p, res.0), Ok(pc_plus(s, 1)))
        },
        Instruction::DEC16(p) => {
            let res = dec16_spec(pair_value(s, p));
            (with_pair(with_flags(s, res.1), p, res.0), Ok(pc_plus(s, 1)))
        },
        Instruction::ADDHL(p) => {
            let res = addhl_spec(s.registers.hl(), pair_value(s, p));
            (with_pair(with_flags(s, res.1), ArithmeticTarget16::HL, res.0), Ok(pc_plus(s, 1)))
        },
        Instruction::DAA() => {
            let res = daa_spec(a, f);
            (with_flags(with_a(s, res.0), res.1), Ok(pc_plus(s, 1)))
        },
        Instruction::CPL() => (
            with_flags(with_a(s, !a), flags(f.zero, true, true, f.carry)),
            Ok(pc_plus(s, 1)),
        ),
        Instruction::CCF() => (with_flags(s, flags(f.zero, false, false, !f.carry)), Ok(pc_plus(s, 1))),
        Instruction::SCF() => (with_flags(s, flags(f.zero, false, false, true)), Ok(pc_plus(s, 1))),
        Instruction::RRA() => {
            let res = accumulator_form(rr_spec(a, f.carry));
            (with_flags(with_a(s, res.0), res.1), Ok(pc_plus(s, 1)))
        },
        Instruction::RLA() => {
            let res = accumulator_form(rl_spec(a, f.carry));
            (with_flags(with_a(s, res.0), res.1), Ok(pc_plus(s, 1)))
        },
        Instruction::RRCA() => {
            let res = accumulator_form(rrc_spec(a));
            (with_flags(with_a(s, res.0), res.1), Ok(pc_plus(s, 1)))
        },
        Instruction::RLCA() => {
            let res = accumulator_form(rlc_spec(a));
            (with_flags(with_a(s, res.0), res.1), Ok(pc_plus(s, 1)))
        },
        Instruction::ADDSP() => {
            let res = addsp_spec(s.sp, imm8(s));
            (CpuView { sp: res.0, ..with_flags(s, res.1) }, Ok(pc_plus(s, 2)))
        },
        _ => (s, Ok(s.pc)),
    }
}

#[verifier::opaque]
pub open spec fn prefixed_spec(s: CpuView, ins: Instruction) -> (
    CpuView,
    Result<u16, EmulatorError>,
) {
    let f = s.registers.f;
    match ins {
        Instruction::BIT(t, b) => (with_flags(s, bit_spec(b, operand(s, t), f)), Ok(pc_plus(s, 2))),
        Instruction::RES(t, b) => store(s, t, res_spec(b, operand(s, t)), 2),
        Instruction::SET(t, b) => store(s, t, set_spec(b, operand(s, t)), 2),
        Instruction::SRL(t) => modify(s, t, srl_spec(operand(s, t)), 2),
        Instruction::RR(t) => modify(s, t, rr_spec(operand(s, t), f.carry), 2),
        Instruction::RL(t) => modify(s, t, rl_spec(operand(s, t), f.carry), 2),
        Instruction::RRC(t) => modify(s, t, rrc_spec(operand(s, t)), 2),
        Instruction::RLC(t) => modify(s, t, rlc_spec(operand(s, t)), 2),
        Instruction::SRA(t) => modify(s, t, sra_spec(operand(s, t)), 2),
        Instruction::SLA(t) => modify(s, t, sla_spec(operand(s, t)), 2),
        Instruction::SWAP(t) => modify(s, t, swap_spec(operand(s, t)), 2),
        _ => (s, Ok(s.pc)),
    }
}

/// The address an accumulator load or store goes through.
pub open spec fn indirect_address(s: CpuView, i: LoadByteIndirect) -> u16 {
    match i {
        LoadByteIndirect::BC => s.registers.bc(),
        LoadByteIndirect::DE => s.registers.de(),
        _ => s.registers.hl(),
    }
}

/// HL moved on after a post-increment or post-decrement access.
pub open spec fn after_indirect(s: CpuView, i: LoadByteIndirect) -> CpuView {
    match i {
        LoadByteIndirect::HLP => CpuView {
            registers: s.registers.with_hl(wrap16(s.registers.hl() + 1)),
            ..s
        },
        LoadByteIndirect::HLN => CpuView {
            registers: s.registers.with_hl(wrap16(s.registers.hl() - 1)),
            ..s
        },
        _ => s,
    }
}

pub open spec fn byte_address(s: CpuView, b: LoadByteAddress) -> u16 {
    match b {
        LoadByteAddress::U8 => (0xFF00 + imm8(s)) as u16,
        LoadByteAddress::C => (0xFF00 + s.registers.c) as u16,
        LoadByteAddress::U16 => imm16(s),
    }
}

pub open spec fn byte_address_length(b: LoadByteAddress) -> int {
    match b {
        LoadByteAddress::U8 => 2,
        LoadByteAddress::C => 1,
        LoadByteAddress::U16 => 3,
    }
}

/// The value a 16-bit load takes.
pub open spec fn word_source(s: CpuView, src: LoadWordSource) -> u16 {
    match src {
        LoadWordSource::AF => s.registers.af(),
        LoadWordSource::BC => s.registers.bc(),
        LoadWordSource::DE => s.registers.de(),
        LoadWordSource::HL => s.registers.hl(),
        LoadWordSource::D16 => imm16(s),
        LoadWordSource::HLI => read_word_spec(s.bus, s.registers.hl()),
        LoadWordSource::SP => s.sp,
        LoadWordSource::SP8 => addsp_spec(s.sp, imm8(s)).0,
    }
}

/// The memory address a 16-bit load stores to, if it stores to memory.
pub open spec fn word_target_address(s: CpuView, t: LoadWordTarget) -> u16 {
    match t {
        LoadWordTarget::I16 => imm16(s),
        _ => s.registers.hl(),
    }
}

pub open spec fn word_load_length(t: LoadWordTarget, src: LoadWordSource) -> int {
    if src is D16 || t is I16 {
        3
    } else if src is SP8 {
        2
    } else {
        1
    }
}

#[verifier::opaque]
pub open spec fn word_load_spec(s: CpuView, t: LoadWordTarget, src: LoadWordSource) -> (
    CpuView,
    Result<u16, EmulatorError>,
) {
    let v = word_source(s, src);
    let flagged = if src is SP8 {
        with_flags(s, addsp_spec(s.sp, imm8(s)).1)
    } else {
        s
    };
    let next = Ok(pc_plus(s, word_load_length(t, src)));
    match t {
        LoadWordTarget::AF => (with_pair(flagged, ArithmeticTarget16::AF, v), next),
        LoadWordTarget::HL => (with_pair(flagged, ArithmeticTarget16::HL, v), next),
        LoadWordTarget::DE => (with_pair(flagged, ArithmeticTarget16::DE, v), next),
        LoadWordTarget::BC => (with_pair(flagged, ArithmeticTarget16::BC, v), next),
        LoadWordTarget::SP => (with_pair(flagged, ArithmeticTarget16::SP, v), next),
        _ => {
            let address = word_target_address(s, t);
            let after = wrap16(address + 1);
            if region_of(address) is Unused {
                (s, Err(unused_write(address)))
            } else if region_of(after) is Unused {
                (s, Err(unused_write(after)))
            } else {
                (
                    CpuView {
                        bus: write_spec(write_spec(flagged.bus, address, low_byte(v)), after, high_byte(v)),
                        ..flagged
                    },
                    next,
                )
            }
        },
    }
}

#[verifier::opaque]
pub open spec fn load_spec(s: CpuView, lt: LoadType) -> (CpuView, Result<u16, EmulatorError>) {
    match lt {
        LoadType::Byte(t, src) => store(s, t, operand(s, src), operand_length(src)),
        LoadType::Word(t, src) => word_load_spec(s, t, src),
        LoadType::AFromIndirect(i) => (
            after_indirect(with_a(s, read_spec(s.bus, indirect_address(s, i))), i),
            Ok(pc_plus(s, 1)),
        ),
        LoadType::IndirectFromA(i) => {
            let address = indirect_address(s, i);
            if region_of(address) is Unused {
                (s, Err(unused_write(address)))
            } else {
                (
                    after_indirect(CpuView { bus: write_spec(s.bus, address, s.registers.a), ..s }, i),
                    Ok(pc_plus(s, 1)),
                )
            }
        },
        LoadType::AFromByteAddress(b) => (
            with_a(s, read_spec(s.bus, byte_address(s, b))),
            Ok(pc_plus(s, byte_address_length(b))),
        ),
        LoadType::ByteAddressFromA(b) => {
            let address = byte_address(s, b);
            if region_of(address) is Unused {
                (s, Err(unused_write(address)))
            } else {
                (
                    CpuView { bus: write_spec(s.bus, address, s.registers.a), ..s },
                    Ok(pc_plus(s, byte_address_length(b))),
                )
            }
        },
    }
}

/// Jumps, calls, returns, the stack and the power and interrupt controls.
#[verifier::opaque]
pub open spec fn control_spec(s: CpuView, ins: Instruction) -> (
    CpuView,
    Result<u16, EmulatorError>,
) {
    let f = s.registers.f;
    match ins {
        Instruction::JP(t) => if condition_holds(f, t) {
            (s, Ok(imm16(s)))
        } else {
            (s, Ok(pc_plus(s, 3)))
        },
        Instruction::JR(t) => if condition_holds(f, t) {
            (s, Ok(wrap16(s.pc + 2 + signed(imm8(s)))))
        } else {
            (s, Ok(pc_plus(s, 2)))
        },
        Instruction::CALL(t) => if condition_holds(f, t) {
            push_and_go(s, pc_plus(s, 3), imm16(s))
        } else {
            (s, Ok(pc_plus(s, 3)))
        },
        Instruction::RET(t) => if condition_holds(f, t) {
            (pop_spec(s).0, Ok(pop_spec(s).1))
        } else {
            (s, Ok(pc_plus(s, 1)))
        },
        Instruction::RETI() => (CpuView { ime: true, ..pop_spec(s).0 }, Ok(pop_spec(s).1)),
        Instruction::JPHL() => (s, Ok(s.registers.hl())),
        Instruction::RST(v) => push_and_go(s, pc_plus(s, 1), rst_vector(v)),
        Instruction::PUSH(p) => if p is SP {
            (s, Ok(pc_plus(s, 1)))
        } else {
            push_and_go(s, pair_value(s, p), pc_plus(s, 1))
        },
        Instruction::POP(p) => if p is SP {
            (s, Ok(pc_plus(s, 1)))
        } else {
            (with_pair(pop_spec(s).0, p, pop_spec(s).1), Ok(pc_plus(s, 1)))
        },
        Instruction::HALT() => (CpuView { is_halted: true, ..s }, Ok(pc_plus(s, 1))),
        Instruction::STOP() => (CpuView { stopped: true, ..s }, Ok(pc_plus(s, 2))),
        Instruction::EI() => (CpuView { ime_scheduled: true, ..s }, Ok(pc_plus(s, 1))),
        Instruction::DI() => (CpuView { ime: false, ime_scheduled: false, ..s }, Ok(pc_plus(s, 1))),
        _ => (s, Ok(pc_plus(s, 1))),
    }
}

/// What executing one instruction does: the state after it and the address
/// of the next instruction, or the fault that stops the machine. A halted
/// processor does nothing and stays where it is.
#[verifier::opaque]
pub open spec fn execute_spec(s: CpuView, ins: Instruction) -> (CpuView, Result<u16, EmulatorError>) {
    if s.is_halted {
        (s, Ok(s.pc))
    } else if is_arithmetic(ins) {
        arithmetic_spec(s, ins)
    } else if is_prefixed(ins) {
        prefixed_spec(s, ins)
    } else if let Instruction::LD(lt) = ins {
        load_spec(s, lt)
    } else {
        control_spec(s, ins)
    }
}

/// The opcode at PC and whether it followed the prefix byte.
pub open spec fn fetch_spec(s: CpuView) -> (u8, bool) {
    let first = read_spec(s.bus, s.pc);
    if first == PREFIX_BYTE {
        (read_spec(s.bus, pc_plus(s, 1)), true)
    } else {
        (first, false)
    }
}

/// Whether a conditional jump, call or return leaves the straight path.
pub open spec fn taken_spec(s: CpuView, ins: Instruction) -> bool {
    match ins {
        Instruction::JP(t) | Instruction::JR(t) | Instruction::CALL(t) | Instruction::RET(t) => condition_holds(s.registers.f, t),
        _ => true,
    }
}

/// A step followed by the pixel unit advancing by the step's cycles, its
/// requests merged into IF.
pub open spec fn tick_spec(s: CpuView) -> (CpuView, Result<u8, EmulatorError>) {
    let (t, r) = step_spec(s);
    match r {
        Ok(c) => (CpuView { bus: ppu_advanced(t.bus, c), ..t }, Ok(c)),
        Err(e) => (t, Err(e)),
    }
}

/// The interrupts both enabled in IE and requested in IF.
pub open spec fn pending_spec(s: CpuView) -> u8 {
    s.bus.interrupt_enable.byte() & s.bus.interrupt_flag.byte() & 0x1F
}

/// The highest-priority pending interrupt: the lowest set bit.
pub open spec fn lowest_pending(p: u8) -> u8 {
    if p & 0x01 != 0 {
        0
    } else if p & 0x02 != 0 {
        1
    } else if p & 0x04 != 0 {
        2
    } else if p & 0x08 != 0 {
        3
    } else {
        4
    }
}

/// Services the highest-priority pending interrupt: pushes PC, clears its
/// request bit in IF, disables interrupts, wakes the processor and jumps to
/// the interrupt's vector (0x40, 0x48, 0x50, 0x58 or 0x60).
pub open spec fn service_spec(s: CpuView) -> (CpuView, Result<u8, EmulatorError>) {
    let b = lowest_pending(pending_spec(s));
    let (pushed, r) = push_spec(s, s.pc);
    match r {
        Ok(_) => (
            CpuView {
                bus: write_spec(
                    pushed.bus,
                    crate::memory::INTERRUPT_FLAG_REGISTER,
                    pushed.bus.interrupt_flag.byte() & !(1u8 << b),
                ),
                ime: false,
                is_halted: false,
                pc: (0x40 + 8 * b) as u16,
                ..pushed
            },
            Ok(INTERRUPT_SERVICE_CYCLES),
        ),
        Err(e) => (s, Err(e)),
    }
}

/// One instruction once interrupts have been looked at: fetch and decode at
/// PC, execute, apply an enable that an earlier EI scheduled, then move PC
/// on; the result is the cycles it took. An undecodable opcode changes
/// nothing; a fault leaves the state that the failed execution leaves.
pub open spec fn instruction_step_spec(s: CpuView) -> (CpuView, Result<u8, EmulatorError>) {
    let (opcode, prefixed) = fetch_spec(s);
    match decode(opcode, prefixed) {
        None => (s, Err(EmulatorError::UnknownOpcode { opcode, prefixed })),
        Some(ins) => {
            let (t, r) = execute_spec(s, ins);
            match r {
                Ok(next) => (
                    CpuView {
                        pc: next,
                        ..if s.ime_scheduled {
                            after_instruction_spec(t)
                        } else {
                            t
                        }
                    },
                    Ok(
                        if s.is_halted {
                            HALTED_CYCLES
                        } else {
                            instruction_cycles(ins, taken_spec(s, ins))
                        },
                    ),
                ),
                Err(e) => (t, Err(e)),
            }
        },
    }
}

/// One step: a pending interrupt wakes a halted processor and, while
/// interrupts are enabled, is serviced in place of an instruction;
/// otherwise one instruction runs. The result is the cycles the step took.
pub open spec fn step_spec(s: CpuView) -> (CpuView, Result<u8, EmulatorError>) {
    if pending_spec(s) != 0 && s.ime {
        service_spec(s)
    } else if pending_spec(s) != 0 {
        instruction_step_spec(CpuView { is_halted: false, ..s })
    } else {
        instruction_step_spec(s)
    }
}

/// Bytes of an accumulator operation: two with an immediate operand.
fn operand_len(t: ArithmeticTarget) -> (r: u16)
    ensures
        r == operand_length(t),
{
    if matches!(t, ArithmeticTarget::U8) {
        2
    } else {
        1
    }
}

fn rst_address(t: RstTargets) -> (r: u16)
    ensures
        r == rst_vector(t),
{
    match t {
        RstTargets::X00 => 0x00,
        RstTargets::X08 => 0x08,
        RstTargets::X10 => 0x10,
        RstTargets::X18 => 0x18,
        RstTargets::X20 => 0x20,
        RstTargets::X28 => 0x28,
        RstTargets::X30 => 0x30,
        RstTargets::X38 => 0x38,
    }
}

impl CPU {
    /// The address `len` bytes after PC.
    fn next_pc(&self, len: u16) -> (r: u16)
        requires
            len <= 3,
        ensures
            r == pc_plus(self@, len as int),
    {
        self.pc.wrapping_add(len)
    }

    /// The target of JP: the immediate word when the jump is taken, else
    /// the instruction after the three bytes of this one.
    fn jump(&self, should_jump: bool) -> (r: u16)
        ensures
            r == if should_jump {
                imm16(self@)
            } else {
                pc_plus(self@, 3)
            },
    {
        if should_jump {
            self.read_next_word()
        } else {
            self.pc.wrapping_add(3)
        }
    }

    /// The target of JR: the signed displacement counts from the instruction
    /// after the two bytes of this one.
    fn jr(&self, should_jump: bool) -> (r: u16)
        ensures
            r == if should_jump {
                wrap16(self.pc + 2 + signed(imm8(self@)))
            } else {
                pc_plus(self@, 2)
            },
    {
        let offset = self.read_next_byte();
        let next = self.pc.wrapping_add(2);
        if should_jump {
            if offset >= 128 {
                next.wrapping_sub(256 - offset as u16)
            } else {
                next.wrapping_add(offset as u16)
            }
        } else {
            next
        }
    }

    /// Pushes a word: high byte first, at SP - 1, then the low byte at SP - 2.
    pub fn push(&mut self, value: u16) -> (r: Result<(), EmulatorError>)
        ensures
            (final(self)@, r) == push_spec(old(self)@, value),
    {
        let hi_address = self.sp.wrapping_sub(1);
        let lo_address = self.sp.wrapping_sub(2);
        if matches!(region(hi_address), Region::Unused) {
            return Err(EmulatorError::WriteToUnused { address: hi_address });
        }
        if matches!(region(lo_address), Region::Unused) {
            return Err(EmulatorError::WriteToUnused { address: lo_address });
        }
        proof {
            crate::registers::lemma_bytes_of_word(value);
        }
        let _ = self.bus.write_byte(hi_address, (value / 256) as u8);
        let _ = self.bus.write_byte(lo_address, (value % 256) as u8);
        self.sp = lo_address;
        Ok(())
    }

    /// Pops a word: low byte at SP, high byte after it.
    pub fn pop(&mut self) -> (r: u16)
        ensures
            (final(self)@, r) == pop_spec(old(self)@),
    {
        let lo = self.bus.read_byte(self.sp);
        let hi = self.bus.read_byte(self.sp.wrapping_add(1));
        self.sp = self.sp.wrapping_add(2);
        (hi as u16) * 256 + lo as u16
    }

    /// CALL: pushes the address after its three bytes and goes to the
    /// immediate word when the call is taken.
    fn call(&mut self, should_jump: bool) -> (r: Result<u16, EmulatorError>)
        ensures
            (final(self)@, r) == if should_jump {
                push_and_go(old(self)@, pc_plus(old(self)@, 3), imm16(old(self)@))
            } else {
                (old(self)@, Ok(pc_plus(old(self)@, 3)))
            },
    {
        let next_pc = self.pc.wrapping_add(3);
        if should_jump {
            let target = self.read_next_word();
            match self.push(next_pc) {
                Ok(()) => Ok(target),
                Err(e) => Err(e),
            }
        } else {
            Ok(next_pc)
        }
    }

    /// RET: pops the return address when the return is taken.
    fn return_(&mut self, should_jump: bool) -> (r: u16)
        ensures
            should_jump ==> (final(self)@, r) == pop_spec(old(self)@),
            !should_jump ==> final(self)@ == old(self)@ && r == pc_plus(old(self)@, 1),
    {
        if should_jump {
            self.pop()
        } else {
            self.pc.wrapping_add(1)
        }
    }

    /// The eight accumulator operations.
    fn execute_accumulator(&mut self, instruction: Instruction) -> (r: Result<u16, EmulatorError>)
        requires
            instruction is ADD || instruction is ADC || instruction is SUB || instruction is SBC
                || instruction is AND || instruction is OR || instruction is XOR
                || instruction is CP,
        ensures
            (final(self)@, r) == arithmetic_spec(old(self)@, instruction),
    {
        proof {
            reveal(arithmetic_spec);
        }
        match instruction {
            Instruction::ADD(t) => {
                let v = self.read_operand(t);
                let r = self.add(v);
                self.registers.a = r;
                Ok(self.next_pc(operand_len(t)))
            },
            Instruction::ADC(t) => {
                let v = self.read_operand(t);
                let r = self.adc(v);
                self.registers.a = r;
                Ok(self.next_pc(operand_len(t)))
            },
            Instruction::SUB(t) => {
                let v = self.read_operand(t);
                let r = self.sub(v);
                self.registers.a = r;
                Ok(self.next_pc(operand_len(t)))
            },
            Instruction::SBC(t) => {
                let v = self.read_operand(t);
                let r = self.sbc(v);
                self.registers.a = r;
                Ok(self.next_pc(operand_len(t)))
            },
            Instruction::AND(t) => {
                let v = self.read_operand(t);
                self.and(v);
                Ok(self.next_pc(operand_len(t)))
            },
            Instruction::OR(t) => {
                let v = self.read_operand(t);
                self.or(v);
                Ok(self.next_pc(operand_len(t)))
            },
            Instruction::XOR(t) => {
                let v = self.read_operand(t);
                self.xor(v);
                Ok(self.next_pc(operand_len(t)))
            },
            Instruction::CP(t) => {
                let v = self.read_operand(t);
                self.cp(v);
                Ok(self.next_pc(operand_len(t)))
            },
            _ => Ok(self.pc),
        }
    }

    /// Increments, decrements and 16-bit additions.
    fn execute_counter(&mut self, instruction: Instruction) -> (r: Result<u16, EmulatorError>)
        requires
            instruction is INC8 || instruction is DEC8 || instruction is INC16 || instruction is DEC16
                || instruction is ADDHL || instruction is ADDSP,
        ensures
            (final(self)@, r) == arithmetic_spec(old(self)@, instruction),
    {
        proof {
            reveal(arithmetic_spec);
        }
        match instruction {
            Instruction::INC8(t) => {
                let v = self.read_operand(t);
                if self.operand_faults(t) {
                    return Err(EmulatorError::WriteToUnused { address: self.registers.get_hl() });
                }
                let r = self.inc_8(v);
                self.write_operand(t, r);
                Ok(self.next_pc(1))
            },
            Instruction::DEC8(t) => {
                let v = self.read_operand(t);
                if self.operand_faults(t) {
                    return Err(EmulatorError::WriteToUnused { address: self.registers.get_hl() });
                }
                let r = self.dec_8(v);
                self.write_operand(t, r);
                Ok(self.next_pc(1))
            },
            Instruction::INC16(p) => {
                let v = self.read_pair(p);
                let r = self.inc_16(v);
                self.write_pair(p, r);
                Ok(self.next_pc(1))
            },
            Instruction::DEC16(p) => {
                let v = self.read_pair(p);
                let r = self.dec_16(v);
                self.write_pair(p, r);
                Ok(self.next_pc(1))
            },
            Instruction::ADDHL(p) => {
                let v = self.read_pair(p);
                let r = self.addhl(v);
                self.registers.set_hl(r);
                Ok(self.next_pc(1))
            },
            _ => {
                let r = self.addsp();
                self.sp = r;
                Ok(self.next_pc(2))
            },
        }
    }

    /// Decimal adjust, complement, the carry-flag instructions and the
    /// accumulator rotates.
    fn execute_flag_op(&mut self, instruction: Instruction) -> (r: Result<u16, EmulatorError>)
        requires
            instruction is DAA || instruction is CPL || instruction is CCF || instruction is SCF
                || instruction is RRA || instruction is RLA || instruction is RRCA
                || instruction is RLCA,
        ensures
            (final(self)@, r) == arithmetic_spec(old(self)@, instruction),
    {
        proof {
            reveal(arithmetic_spec);
        }
        match instruction {
            Instruction::DAA() => {
                self.daa();
                Ok(self.next_pc(1))
            },
            Instruction::CPL() => {
                self.cpl();
                Ok(self.next_pc(1))
            },
            Instruction::CCF() => {
                self.ccf();
                Ok(self.next_pc(1))
            },
            Instruction::SCF() => {
                self.scf();
                Ok(self.next_pc(1))
            },
            Instruction::RRA() => {
                self.rra();
                Ok(self.next_pc(1))
            },
            Instruction::RLA() => {
                self.rla();
                Ok(self.next_pc(1))
            },
            Instruction::RRCA() => {
                self.rrca();
                Ok(self.next_pc(1))
            },
            _ => {
                self.rlca();
                Ok(self.next_pc(1))
            },
        }
    }

    /// The accumulator, 16-bit arithmetic and flag instructions.
    fn execute_arithmetic(&mut self, instruction: Instruction) -> (r: Result<u16, EmulatorError>)
        requires
            is_arithmetic(instruction),
        ensures
            (final(self)@, r) == arithmetic_spec(old(self)@, instruction),
    {
        match instruction {
            Instruction::ADD(_) | Instruction::ADC(_) | Instruction::SUB(_) | Instruction::SBC(_)
            | Instruction::AND(_) | Instruction::OR(_) | Instruction::XOR(_) | Instruction::CP(_) => {
                self.execute_accumulator(instruction)
            },
            Instruction::INC8(_) | Instruction::DEC8(_) | Instruction::INC16(_)
            | Instruction::DEC16(_) | Instruction::ADDHL(_) | Instruction::ADDSP() => {
                self.execute_counter(instruction)
            },
            _ => self.execute_flag_op(instruction),
        }
    }

    fn execute_prefixed(&mut self, instruction: Instruction) -> (r: Result<u16, EmulatorError>)
        requires
            is_prefixed(instruction),
        ensures
            (final(self)@, r) == prefixed_spec(old(self)@, instruction),
    {
        proof {
            reveal(prefixed_spec);
        }
        let next = self.next_pc(2);
        let t = match instruction {
            Instruction::BIT(t, _) => t,
            Instruction::RES(t, _) => t,
            Instruction::SET(t, _) => t,
            Instruction::SRL(t) => t,
            Instruction::RR(t) => t,
            Instruction::RL(t) => t,
            Instruction::RRC(t) => t,
            Instruction::RLC(t) => t,
            Instruction::SRA(t) => t,
            Instruction::SLA(t) => t,
            Instruction::SWAP(t) => t,
            _ => ArithmeticTarget::A,
        };
        let v = self.read_operand(t);
        if let Instruction::BIT(_, b) = instruction {
            self.bit(b, v);
            return Ok(next);
        }
        if self.operand_faults(t) {
            return Err(EmulatorError::WriteToUnused { address: self.registers.get_hl() });
        }
        let r = match instruction {
            Instruction::RES(_, b) => self.res(b, v),
            Instruction::SET(_, b) => self.set(b, v),
            Instruction::SRL(_) => self.srl(v),
            Instruction::RR(_) => self.rr(v),
            Instruction::RL(_) => self.rl(v),
            Instruction::RRC(_) => self.rrc(v),
            Instruction::RLC(_) => self.rlc(v),
            Instruction::SRA(_) => self.sra(v),
            Instruction::SLA(_) => self.sla(v),
            _ => self.swap(v),
        };
        self.write_operand(t, r);
        Ok(next)
    }

    /// The address an accumulator load or store goes through.
    fn indirect(&self, i: LoadByteIndirect) -> (r: u16)
        ensures
            r == indirect_address(self@, i),
    {
        match i {
            LoadByteIndirect::BC => self.registers.get_bc(),
            LoadByteIndirect::DE => self.registers.get_de(),
            _ => self.registers.get_hl(),
        }
    }

    /// Moves HL on after a post-increment or post-decrement access.
    fn step_indirect(&mut self, i: LoadByteIndirect)
        ensures
            final(self)@ == after_indirect(old(self)@, i),
    {
        match i {
            LoadByteIndirect::HLP => {
                let hl = self.registers.get_hl();
                self.registers.set_hl(hl.wrapping_add(1));
            },
            LoadByteIndirect::HLN => {
                let hl = self.registers.get_hl();
                self.registers.set_hl(hl.wrapping_sub(1));
            },
            _ => {},
        }
    }

    fn high_address(&self, b: LoadByteAddress) -> (r: u16)
        ensures
            r == byte_address(self@, b),
    {
        match b {
            LoadByteAddress::U8 => 0xFF00 + self.read_next_byte() as u16,
            LoadByteAddress::C => 0xFF00 + self.registers.c as u16,
            LoadByteAddress::U16 => self.read_next_word(),
        }
    }

    /// The value a 16-bit load takes; SP plus an immediate also sets the flags.
    fn load_word_source(&mut self, src: LoadWordSource) -> (r: u16)
        ensures
            r == word_source(old(self)@, src),
            final(self)@ == if src is SP8 {
                with_flags(old(self)@, addsp_spec(old(self).sp, imm8(old(self)@)).1)
            } else {
                old(self)@
            },
    {
        match src {
            LoadWordSource::AF => self.registers.get_af(),
            LoadWordSource::BC => self.registers.get_bc(),
            LoadWordSource::DE => self.registers.get_de(),
            LoadWordSource::HL => self.registers.get_hl(),
            LoadWordSource::D16 => self.read_next_word(),
            LoadWordSource::HLI => self.bus.read_word(self.registers.get_hl()),
            LoadWordSource::SP => self.sp,
            LoadWordSource::SP8 => self.addsp(),
        }
    }

    fn execute_word_load(&mut self, t: LoadWordTarget, src: LoadWordSource) -> (r: Result<
        u16,
        EmulatorError,
    >)
        ensures
            (final(self)@, r) == word_load_spec(old(self)@, t, src),
    {
        proof {
            reveal(word_load_spec);
        }
        let len: u16 = if matches!(src, LoadWordSource::D16) || matches!(t, LoadWordTarget::I16) {
            3
        } else if matches!(src, LoadWordSource::SP8) {
            2
        } else {
            1
        };
        let next = self.next_pc(len);
        let address = if matches!(t, LoadWordTarget::I16) {
            self.read_next_word()
        } else {
            self.registers.get_hl()
        };
        let after = address.wrapping_add(1);
        let to_memory = matches!(t, LoadWordTarget::HLI | LoadWordTarget::I16);
        if to_memory {
            if matches!(region(address), Region::Unused) {
                return Err(EmulatorError::WriteToUnused { address });
            }
            if matches!(region(after), Region::Unused) {
                return Err(EmulatorError::WriteToUnused { address: after });
            }
        }
        let v = self.load_word_source(src);
        proof {
            crate::registers::lemma_bytes_of_word(v);
        }
        if to_memory {
            let _ = self.bus.write_word(address, v);
        } else {
            let p = match t {
                LoadWordTarget::AF => ArithmeticTarget16::AF,
                LoadWordTarget::HL => ArithmeticTarget16::HL,
                LoadWordTarget::DE => ArithmeticTarget16::DE,
                LoadWordTarget::BC => ArithmeticTarget16::BC,
                _ => ArithmeticTarget16::SP,
            };
            self.write_pair(p, v);
        }
        Ok(next)
    }

    /// Accumulator loads and stores through BC, DE or HL.
    fn execute_indirect(&mut self, load_type: LoadType) -> (r: Result<u16, EmulatorError>)
        requires
            load_type is AFromIndirect || load_type is IndirectFromA,
        ensures
            (final(self)@, r) == load_spec(old(self)@, load_type),
    {
        proof {
            reveal(load_spec);
        }
        match load_type {
            LoadType::AFromIndirect(i) => {
                let address = self.indirect(i);
                self.registers.a = self.bus.read_byte(address);
                self.step_indirect(i);
                Ok(self.next_pc(1))
            },
            LoadType::IndirectFromA(i) => {
                let address = self.indirect(i);
                if matches!(region(address), Region::Unused) {
                    return Err(EmulatorError::WriteToUnused { address });
                }
                let _ = self.bus.write_byte(address, self.registers.a);
                self.step_indirect(i);
                Ok(self.next_pc(1))
            },
            _ => Ok(self.pc),
        }
    }

    /// Accumulator loads and stores at a high-memory or absolute address.
    fn execute_high(&mut self, load_type: LoadType) -> (r: Result<u16, EmulatorError>)
        requires
            load_type is AFromByteAddress || load_type is ByteAddressFromA,
        ensures
            (final(self)@, r) == load_spec(old(self)@, load_type),
    {
        proof {
            reveal(load_spec);
        }
        match load_type {
            LoadType::AFromByteAddress(b) => {
                let address = self.high_address(b);
                self.registers.a = self.bus.read_byte(address);
                let len: u16 = match b {
                    LoadByteAddress::U8 => 2,
                    LoadByteAddress::C => 1,
                    LoadByteAddress::U16 => 3,
                };
                Ok(self.next_pc(len))
            },
            LoadType::ByteAddressFromA(b) => {
                let address = self.high_address(b);
                if matches!(region(address), Region::Unused) {
                    return Err(EmulatorError::WriteToUnused { address });
                }
                let _ = self.bus.write_byte(address, self.registers.a);
                let len: u16 = match b {
                    LoadByteAddress::U8 => 2,
                    LoadByteAddress::C => 1,
                    LoadByteAddress::U16 => 3,
                };
                Ok(self.next_pc(len))
            },
            _ => Ok(self.pc),
        }
    }

    fn execute_load(&mut self, load_type: LoadType) -> (r: Result<u16, EmulatorError>)
        ensures
            (final(self)@, r) == load_spec(old(self)@, load_type),
    {
        proof {
            reveal(load_spec);
        }
        match load_type {
            LoadType::Byte(t, src) => {
                let v = self.read_operand(src);
                if self.operand_faults(t) {
                    return Err(EmulatorError::WriteToUnused { address: self.registers.get_hl() });
                }
                self.write_operand(t, v);
                Ok(self.next_pc(operand_len(src)))
            },
            LoadType::Word(t, src) => self.execute_word_load(t, src),
            LoadType::AFromIndirect(_) | LoadType::IndirectFromA(_) => self.execute_indirect(load_type),
            _ => self.execute_high(load_type),
        }
    }

    fn execute_control(&mut self, instruction: Instruction) -> (r: Result<u16, EmulatorError>)
        ensures
            (final(self)@, r) == control_spec(old(self)@, instruction),
    {
        proof {
            reveal(control_spec);
        }
        let next = self.next_pc(1);
        match instruction {
            Instruction::JP(t) => {
                let c = self.test(t);
                Ok(self.jump(c))
            },
            Instruction::JR(t) => {
                let c = self.test(t);
                Ok(self.jr(c))
            },
            Instruction::CALL(t) => {
                let c = self.test(t);
                self.call(c)
            },
            Instruction::RET(t) => {
                let c = self.test(t);
                Ok(self.return_(c))
            },
            Instruction::RETI() => {
                let target = self.pop();
                self.ime = true;
                Ok(target)
            },
            Instruction::JPHL() => Ok(self.registers.get_hl()),
            Instruction::RST(v) => match self.push(next) {
                Ok(()) => Ok(rst_address(v)),
                Err(e) => Err(e),
            },
            Instruction::PUSH(p) => {
                if matches!(p, ArithmeticTarget16::SP) {
                    return Ok(next);
                }
                let v = self.read_pair(p);
                match self.push(v) {
                    Ok(()) => Ok(next),
                    Err(e) => Err(e),
                }
            },
            Instruction::POP(p) => {
                if matches!(p, ArithmeticTarget16::SP) {
                    return Ok(next);
                }
                let v = self.pop();
                self.write_pair(p, v);
                Ok(next)
            },
            Instruction::HALT() => {
                self.is_halted = true;
                Ok(next)
            },
            Instruction::STOP() => {
                self.stopped = true;
                Ok(self.next_pc(2))
            },
            Instruction::EI() => {
                self.ei();
                Ok(next)
            },
            Instruction::DI() => {
                self.di();
                Ok(next)
            },
            _ => Ok(next),
        }
    }

    /// Executes one instruction and returns the address of the next one.
    pub fn execute(&mut self, instruction: Instruction) -> (r: Result<u16, EmulatorError>)
        ensures
            (final(self)@, r) == execute_spec(old(self)@, instruction),
    {
        proof {
            reveal(execute_spec);
        }
        if self.is_halted {
            return Ok(self.pc);
        }
        match instruction {
            Instruction::ADD(_) | Instruction::ADC(_) | Instruction::SUB(_) | Instruction::SBC(_)
            | Instruction::AND(_) | Instruction::OR(_) | Instruction::XOR(_) | Instruction::CP(_)
            | Instruction::INC8(_) | Instruction::DEC8(_) | Instruction::INC16(_)
            | Instruction::DEC16(_) | Instruction::ADDHL(_) | Instruction::DAA()
            | Instruction::CPL() | Instruction::CCF() | Instruction::SCF() | Instruction::RRA()
            | Instruction::RLA() | Instruction::RRCA() | Instruction::RLCA()
            | Instruction::ADDSP() => self.execute_arithmetic(instruction),
            Instruction::BIT(..) | Instruction::RES(..) | Instruction::SET(..) | Instruction::SRL(_)
            | Instruction::RR(_) | Instruction::RL(_) | Instruction::RRC(_) | Instruction::RLC(_)
            | Instruction::SRA(_) | Instruction::SLA(_) | Instruction::SWAP(_) => self.execute_prefixed(
                instruction,
            ),
            Instruction::LD(load_type) => self.execute_load(load_type),
            _ => self.execute_control(instruction),
        }
    }

    /// The interrupts both enabled and requested.
    fn pending_interrupts(&self) -> (r: u8)
        ensures
            r == pending_spec(self@),
    {
        let enabled = self.bus.read_byte(crate::memory::INTERRUPT_REGISTER);
        let requested = self.bus.read_byte(crate::memory::INTERRUPT_FLAG_REGISTER);
        enabled & requested & 0x1F
    }

    /// Services the highest-priority of the `pending` interrupts.
    fn service_interrupt(&mut self, pending: u8) -> (r: Result<u8, EmulatorError>)
        requires
            pending == pending_spec(old(self)@),
        ensures
            (final(self)@, r) == service_spec(old(self)@),
    {
        let b: u8 = if pending & 0x01 != 0 {
            0
        } else if pending & 0x02 != 0 {
            1
        } else if pending & 0x04 != 0 {
            2
        } else if pending & 0x08 != 0 {
            3
        } else {
            4
        };
        if let Err(e) = self.push(self.pc) {
            return Err(e);
        }
        let requested = self.bus.read_byte(crate::memory::INTERRUPT_FLAG_REGISTER);
        let _ = self.bus.write_byte(crate::memory::INTERRUPT_FLAG_REGISTER, requested & !(1u8 << b));
        self.ime = false;
        self.is_halted = false;
        self.pc = 0x40 + 8 * b as u16;
        Ok(INTERRUPT_SERVICE_CYCLES)
    }

    /// Runs one instruction: fetches the opcode at PC (and the byte after a
    /// 0xCB prefix), decodes it, executes it, applies an enable that an
    /// earlier EI scheduled, and moves PC to the next instruction.
    fn run_instruction(&mut self) -> (r: Result<u8, EmulatorError>)
        ensures
            (final(self)@, r) == instruction_step_spec(old(self)@),
    {
        let scheduled = self.ime_scheduled;
        let mut instruction_byte = self.bus.read_byte(self.pc);
        let prefixed = instruction_byte == PREFIX_BYTE;
        if prefixed {
            instruction_byte = self.bus.read_byte(self.pc.wrapping_add(1));
        }
        match Instruction::from_byte(instruction_byte, prefixed) {
            None => Err(EmulatorError::UnknownOpcode { opcode: instruction_byte, prefixed }),
            Some(instruction) => {
                let cycles = if self.is_halted {
                    HALTED_CYCLES
                } else {
                    let taken = self.branch_taken(instruction);
                    cycles_of(instruction, taken)
                };
                match self.execute(instruction) {
                    Ok(next_pc) => {
                        if scheduled {
                            self.after_instruction();
                        }
                        self.pc = next_pc;
                        Ok(cycles)
                    },
                    Err(e) => Err(e),
                }
            },
        }
    }

    /// One step of the machine. A pending interrupt (enabled in IE and
    /// requested in IF) wakes a halted processor; while interrupts are
    /// enabled it is serviced instead of an instruction. Otherwise one
    /// instruction runs. Returns the clock cycles the step took. An opcode
    /// that does not decode, or a write into the unused range, stops the
    /// machine with an error.
    pub fn step(&mut self) -> (r: Result<u8, EmulatorError>)
        ensures
            (final(self)@, r) == step_spec(old(self)@),
    {
        let pending = self.pending_interrupts();
        if pending != 0 {
            if self.ime {
                return self.service_interrupt(pending);
            }
            self.is_halted = false;
        }
        self.run_instruction()
    }

    /// One step, then the pixel unit advanced by the cycles it took, with
    /// the interrupts the pixel unit requests merged into IF.
    pub fn tick(&mut self) -> (r: Result<u8, EmulatorError>)
        ensures
            (final(self)@, r) == tick_spec(old(self)@),
    {
        match self.step() {
            Ok(cycles) => {
                let _ = self.bus.step_ppu(cycles);
                Ok(cycles)
            },
            Err(e) => Err(e),
        }
    }

    /// Whether a conditional jump, call or return would leave the straight path.
    fn branch_taken(&self, instruction: Instruction) -> (r: bool)
        ensures
            r == taken_spec(self@, instruction),
    {
        match instruction {
            Instruction::JP(t) | Instruction::JR(t) | Instruction::CALL(t) | Instruction::RET(t) => self.test(t),
            _ => true,
        }
    }
}

/// Executing ADD on any operand value v: A becomes (a + v) mod 256, zero is
/// set iff that is 0, subtract is clear, half carry is set iff
/// (a & 0xF) + (v & 0xF) > 0xF, carry iff a + v > 255, and PC moves past
/// the instruction.
pub proof fn lemma_add_flags(s: CpuView, t: ArithmeticTarget)
    requires
        !s.is_halted,
    ensures
        ({
            let a = s.registers.a;
            let v = operand(s, t);
            let (n, r) = execute_spec(s, Instruction::ADD(t));
            &&& n.registers.a == (a + v) % 256
            &&& n.registers.f.zero == ((a + v) % 256 == 0)
            &&& !n.registers.f.subtract
            &&& n.registers.f.half_carry == ((a & 0xF) + (v & 0xF) > 0xF)
            &&& n.registers.f.carry == (a + v > 255)
            &&& r == Ok::<u16, EmulatorError>(pc_plus(s, operand_length(t)))
        }),
{
    let a = s.registers.a;
    let v = operand(s, t);
    let res = add_spec(a, v);
    assert(execute_spec(s, Instruction::ADD(t)) == arithmetic_spec(s, Instruction::ADD(t))) by {
        reveal(execute_spec);
    }
    assert(arithmetic_spec(s, Instruction::ADD(t)) == accumulate(s, t, res)) by {
        reveal(arithmetic_spec);
    }
    assert(a & 0xF == a % 16 && v & 0xF == v % 16) by (bit_vector);
}

/// SUB mirrors ADD with a borrow: A becomes (a - v) mod 256, zero iff that
/// is 0, subtract set, half carry iff (a & 0xF) < (v & 0xF), carry iff
/// v > a. CP sets exactly those flags and leaves A as it was.
pub proof fn lemma_sub_flags(s: CpuView, t: ArithmeticTarget)
    requires
        !s.is_halted,
    ensures
        ({
            let a = s.registers.a;
            let v = operand(s, t);
            let (n, r) = execute_spec(s, Instruction::SUB(t));
            let (m, q) = execute_spec(s, Instruction::CP(t));
            &&& n.registers.a == (a - v + 256) % 256
            &&& n.registers.f.zero == ((a - v + 256) % 256 == 0)
            &&& n.registers.f.subtract
            &&& n.registers.f.half_carry == ((a & 0xF) < (v & 0xF))
            &&& n.registers.f.carry == (v > a)
            &&& m.registers.a == a
            &&& m.registers.f == n.registers.f
        }),
{
    let a = s.registers.a;
    let v = operand(s, t);
    let res = sub_spec(a, v);
    assert(execute_spec(s, Instruction::SUB(t)) == arithmetic_spec(s, Instruction::SUB(t))) by {
        reveal(execute_spec);
    }
    assert(execute_spec(s, Instruction::CP(t)) == arithmetic_spec(s, Instruction::CP(t))) by {
        reveal(execute_spec);
    }
    assert(arithmetic_spec(s, Instruction::SUB(t)) == accumulate(s, t, res)) by {
        reveal(arithmetic_spec);
    }
    assert(arithmetic_spec(s, Instruction::CP(t)) == compare(s, t, res.1)) by {
        reveal(arithmetic_spec);
    }
    assert(a & 0xF == a % 16 && v & 0xF == v % 16) by (bit_vector);
}

/// Pushing a word onto a stack whose two bytes lie in storage, then popping,
/// gives the word back and restores SP.
pub proof fn lemma_push_pop_round_trip(s: CpuView, v: u16)
    requires
        s.bus.wf(),
        is_storage(wrap16(s.sp - 1)),
        is_storage(wrap16(s.sp - 2)),
    ensures
        push_spec(s, v).1 is Ok,
        pop_spec(push_spec(s, v).0).1 == v,
        pop_spec(push_spec(s, v).0).0.sp == s.sp,
{
    let hi_address = wrap16(s.sp - 1);
    let lo_address = wrap16(s.sp - 2);
    let once = write_spec(s.bus, hi_address, high_byte(v));
    lemma_read_after_write(s.bus, hi_address, high_byte(v), lo_address);
    lemma_read_after_write(once, lo_address, low_byte(v), hi_address);
    crate::registers::lemma_bytes_of_word(v);
    assert(wrap16(lo_address + 1) == hi_address);
    assert(wrap16(lo_address + 2) == s.sp);
}

} // verus!
