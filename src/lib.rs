//! Core of a cycle-stepped handheld-console emulator: register file,
//! instruction decoder and execution engine, memory bus and the pixel
//! unit's tile cache and mode timing.
pub mod alu;
pub mod cpu;
pub mod error;
pub mod instruction;
pub mod interrupt_flags;
pub mod joypad;
pub mod memory;
pub mod ppu;
pub mod registers;
pub mod timer;
pub mod timing;
