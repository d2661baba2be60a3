//! How many clock cycles each instruction takes.
use vstd::prelude::*;
use crate::instruction::{ArithmeticTarget, Instruction, LoadByteAddress, LoadType, LoadWordSource, LoadWordTarget};

verus! {

/// Cycles of a step that services an interrupt.
pub const INTERRUPT_SERVICE_CYCLES: u8 = 20;
/// Cycles of a step in which a halted processor waits.
pub const HALTED_CYCLES: u8 = 4;

/// An accumulator operation reads memory for (HL) and for an immediate.
pub open spec fn reads_memory(t: ArithmeticTarget) -> bool {
    t is HL || t is U8
}

/// The clock cycles of an instruction; `taken` tells whether a conditional
/// jump, call or return went the other way than straight on.
pub open spec fn instruction_cycles(ins: Instruction, taken: bool) -> u8 {
    match ins {
        Instruction::ADD(t) | Instruction::ADC(t) | Instruction::SUB(t) | Instruction::SBC(t)
        | Instruction::AND(t) | Instruction::OR(t) | Instruction::XOR(t) | Instruction::CP(t) => if reads_memory(t) {
            8
        } else {
            4
        },
        Instruction::INC8(t) | Instruction::DEC8(t) => if t is HL {
            12
        } else {
            4
        },
        Instruction::INC16(_) | Instruction::DEC16(_) | Instruction::ADDHL(_) => 8,
        Instruction::BIT(t, _) => if t is HL {
            12
        } else {
            8
        },
        Instruction::RES(t, _) | Instruction::SET(t, _) | Instruction::SRL(t) | Instruction::RR(t)
        | Instruction::RL(t) | Instruction::RRC(t) | Instruction::RLC(t) | Instruction::SRA(t)
        | Instruction::SLA(t) | Instruction::SWAP(t) => if t is HL {
            16
        } else {
            8
        },
        Instruction::JP(_) => if taken {
            16
        } else {
            12
        },
        Instruction::JR(_) => if taken {
            12
        } else {
            8
        },
        Instruction::CALL(_) => if taken {
            24
        } else {
            12
        },
        Instruction::RET(t) => if t is Always {
            16
        } else if taken {
            20
        } else {
            8
        },
        Instruction::RETI() | Instruction::RST(_) | Instruction::PUSH(_) | Instruction::ADDSP() => 16,
        Instruction::POP(_) => 12,
        Instruction::LD(lt) => load_cycles(lt),
        _ => 4,
    }
}

pub open spec fn load_cycles(lt: LoadType) -> u8 {
    match lt {
        LoadType::Byte(t, src) => if t is HL && src is U8 {
            12
        } else if t is HL || reads_memory(src) {
            8
        } else {
            4
        },
        LoadType::Word(t, src) => if t is I16 {
            20
        } else if src is D16 || src is SP8 {
            12
        } else {
            8
        },
        LoadType::AFromIndirect(_) | LoadType::IndirectFromA(_) => 8,
        LoadType::AFromByteAddress(b) | LoadType::ByteAddressFromA(b) => match b {
            LoadByteAddress::U8 => 12,
            LoadByteAddress::C => 8,
            LoadByteAddress::U16 => 16,
        },
    }
}

fn operand_reads_memory(t: ArithmeticTarget) -> (r: bool)
    ensures
        r == reads_memory(t),
{
    matches!(t, ArithmeticTarget::HL | ArithmeticTarget::U8)
}

fn load_cycles_of(lt: LoadType) -> (r: u8)
    ensures
        r == load_cycles(lt),
{
    match lt {
        LoadType::Byte(t, src) => {
            let to_memory = matches!(t, ArithmeticTarget::HL);
            if to_memory && matches!(src, ArithmeticTarget::U8) {
                12
            } else if to_memory || operand_reads_memory(src) {
                8
            } else {
                4
            }
        },
        LoadType::Word(t, src) => {
            if matches!(t, LoadWordTarget::I16) {
                20
            } else if matches!(src, LoadWordSource::D16 | LoadWordSource::SP8) {
                12
            } else {
                8
            }
        },
        LoadType::AFromIndirect(_) | LoadType::IndirectFromA(_) => 8,
        LoadType::AFromByteAddress(b) | LoadType::ByteAddressFromA(b) => match b {
            LoadByteAddress::U8 => 12,
            LoadByteAddress::C => 8,
            LoadByteAddress::U16 => 16,
        },
    }
}

/// The clock cycles of an instruction, as `instruction_cycles` gives them.
pub fn cycles_of(instruction: Instruction, taken: bool) -> (r: u8)
    ensures
        r == instruction_cycles(instruction, taken),
{
    match instruction {
        Instruction::ADD(t) | Instruction::ADC(t) | Instruction::SUB(t) | Instruction::SBC(t)
        | Instruction::AND(t) | Instruction::OR(t) | Instruction::XOR(t) | Instruction::CP(t) => {
            if operand_reads_memory(t) {
                8
            } else {
                4
            }
        },
        Instruction::INC8(t) | Instruction::DEC8(t) => {
            if matches!(t, ArithmeticTarget::HL) {
                12
            } else {
                4
            }
        },
        Instruction::INC16(_) | Instruction::DEC16(_) | Instruction::ADDHL(_) => 8,
        Instruction::BIT(t, _) => {
            if matches!(t, ArithmeticTarget::HL) {
                12
            } else {
                8
            }
        },
        Instruction::RES(t, _) | Instruction::SET(t, _) | Instruction::SRL(t) | Instruction::RR(t)
        | Instruction::RL(t) | Instruction::RRC(t) | Instruction::RLC(t) | Instruction::SRA(t)
        | Instruction::SLA(t) | Instruction::SWAP(t) => {
            if matches!(t, ArithmeticTarget::HL) {
                16
            } else {
                8
            }
        },
        Instruction::JP(_) => {
            if taken {
                16
            } else {
                12
            }
        },
        Instruction::JR(_) => {
            if taken {
                12
            } else {
                8
            }
        },
        Instruction::CALL(_) => {
            if taken {
                24
            } else {
                12
            }
        },
        Instruction::RET(t) => {
            if matches!(t, crate::instruction::JumpTest::Always) {
                16
            } else if taken {
                20
            } else {
                8
            }
        },
        Instruction::RETI() | Instruction::RST(_) | Instruction::PUSH(_) | Instruction::ADDSP() => 16,
        Instruction::POP(_) => 12,
        Instruction::LD(lt) => load_cycles_of(lt),
        _ => 4,
    }
}

} // verus!
