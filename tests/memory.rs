use gb_core::error::EmulatorError;
use gb_core::joypad::Joypad;
use gb_core::memory::{region, MemoryBus, Region};

fn bus() -> MemoryBus {
    let boot: Vec<u8> = (0..0x100).map(|i| i as u8).collect();
    let game: Vec<u8> = (0..0x8000).map(|i| (i as u8).wrapping_mul(3).wrapping_add(1)).collect();
    MemoryBus::new(boot, game)
}

#[test]
fn boot_rom_overlay_until_disabled() {
    let mut b = bus();
    assert_eq!(b.read_byte(0x0050), 0x50);
    b.disable_boot_rom();
    assert_eq!(b.read_byte(0x0050), 0x50u8.wrapping_mul(3).wrapping_add(1));
    b.write_byte(0xFF50, 0).unwrap();
    assert_eq!(b.read_byte(0x0050), 0x50u8.wrapping_mul(3).wrapping_add(1));
    assert!(!b.boot_rom_enabled());
}

#[test]
fn boot_rom_unmapped_by_register() {
    let mut b = bus();
    assert!(b.boot_rom_enabled());
    b.write_byte(0xFF50, 1).unwrap();
    assert!(!b.boot_rom_enabled());
    assert_eq!(b.read_byte(0x0000), 1);
}

#[test]
fn second_bank_is_mapped_at_0x4000() {
    let b = bus();
    assert_eq!(b.read_byte(0x4000), (0x4000u32 as u8).wrapping_mul(3).wrapping_add(1));
    assert_eq!(b.read_byte(0x7FFF), (0x7FFFu32 as u8).wrapping_mul(3).wrapping_add(1));
}

#[test]
fn ram_regions_keep_what_is_written() {
    let mut b = bus();
    for a in [0x8000u16, 0x9FFF, 0xA000, 0xBFFF, 0xC000, 0xDFFF, 0xE000, 0xFDFF, 0xFE00, 0xFE9F, 0xFF80, 0xFFFE] {
        b.write_byte(a, 0x5A).unwrap();
        assert_eq!(b.read_byte(a), 0x5A);
    }
}

#[test]
fn unused_range_reads_zero_and_refuses_writes() {
    let mut b = bus();
    assert_eq!(b.read_byte(0xFEA0), 0);
    assert_eq!(b.write_byte(0xFEFF, 7), Err(EmulatorError::WriteToUnused { address: 0xFEFF }));
    assert_eq!(b.read_byte(0xFEFF), 0);
}

#[test]
fn words_are_little_endian() {
    let mut b = bus();
    b.write_word(0xC100, 0xBEEF).unwrap();
    assert_eq!(b.read_byte(0xC100), 0xEF);
    assert_eq!(b.read_byte(0xC101), 0xBE);
    assert_eq!(b.read_word(0xC100), 0xBEEF);
    assert_eq!(b.write_word(0xFE9F, 1), Err(EmulatorError::WriteToUnused { address: 0xFEA0 }));
    assert_eq!(b.read_byte(0xFE9F), 0);
}

#[test]
fn every_address_has_one_region() {
    assert_eq!(region(0x0000), Region::BootRom);
    assert_eq!(region(0x00FF), Region::BootRom);
    assert_eq!(region(0x0100), Region::RomBankZero);
    assert_eq!(region(0x4000), Region::RomBankN);
    assert_eq!(region(0x8000), Region::Vram);
    assert_eq!(region(0xA000), Region::CartridgeRam);
    assert_eq!(region(0xC000), Region::WorkingRam);
    assert_eq!(region(0xE000), Region::EchoRam);
    assert_eq!(region(0xFE00), Region::Oam);
    assert_eq!(region(0xFEA0), Region::Unused);
    assert_eq!(region(0xFF00), Region::IoRegisters);
    assert_eq!(region(0xFF80), Region::HighRam);
    assert_eq!(region(0xFFFF), Region::InterruptEnable);
}

#[test]
fn interrupt_registers() {
    let mut b = bus();
    b.write_byte(0xFFFF, 0xFF).unwrap();
    assert_eq!(b.read_byte(0xFFFF), 0x1F);
    b.write_byte(0xFF0F, 0x05).unwrap();
    assert_eq!(b.read_byte(0xFF0F), 0x05);
}

#[test]
fn joypad_register() {
    let mut b = bus();
    assert_eq!(b.read_byte(0xFF00), 0xFF);
    b.write_byte(0xFF00, 0x10).unwrap();
    assert_eq!(b.read_byte(0xFF00), 0xDF);
    let mut j = Joypad::new();
    j.a_right = false;
    b.set_joypad(j);
    assert_eq!(b.read_byte(0xFF00) & 0x01, 0);
}

#[test]
fn lcd_registers_reach_the_pixel_unit() {
    let mut b = bus();
    b.write_byte(0xFF45, 0x10).unwrap();
    assert_eq!(b.read_byte(0xFF45), 0x10);
    b.write_byte(0xFF44, 0x33).unwrap();
    assert_eq!(b.read_byte(0xFF44), 0);
    b.write_byte(0xFF41, 0x78).unwrap();
    assert_eq!(b.read_byte(0xFF41), 0x80 | 0x78 | 0x02);
}

#[test]
fn pixel_unit_requests_reach_if() {
    let mut b = bus();
    for _ in 0..143 {
        b.step_ppu(80);
        b.step_ppu(172);
        b.step_ppu(204);
    }
    assert_eq!(b.read_byte(0xFF0F) & 0x01, 0);
    b.step_ppu(80);
    b.step_ppu(172);
    b.step_ppu(204);
    assert_eq!(b.read_byte(0xFF44), 144);
    assert_eq!(b.read_byte(0xFF0F) & 0x01, 0x01);
}
