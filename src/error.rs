//! The run-time faults that stop the machine.
use vstd::prelude::*;

verus! {

#[derive(Clone, Copy, Debug, PartialEq, Eq, Structural)]
pub enum EmulatorError {
    /// An opcode that neither table maps (`prefixed`: it followed 0xCB).
    UnknownOpcode { opcode: u8, prefixed: bool },
    /// A write into the unused range 0xFEA0..=0xFEFF.
    WriteToUnused { address: u16 },
}

} // verus!
